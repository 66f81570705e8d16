//! The plugin itself: it answers the host's discovery queries, builds and
//! tracks editor instances, and releases them all when it is unloaded.
use crate::registry::{
    editor_views, file_type_entry, file_type_views, is_registered_editor, plugin_metadata,
    registered_editors, registered_file_types, strings_view, EditorDescriptor, FileIcon, FileStructure,
    FileTypeDescriptor, PluginMetadata,
};
use crate::store::{InstanceStore, StoreView};
use vstd::prelude::*;

verus! {

/// Errors the plugin reports to its host.
#[derive(Clone, Debug, PartialEq, Eq)]
pub enum PluginError {
    /// The requested editor kind is not registered.
    EditorNotFound { editor_id: String },
}

/// What a wrapper holds, seen mathematically.
pub ghost struct WrapperView<E> {
    pub panel: E,
    pub file_path: Seq<char>,
}

/// Presents an editor entity through the plugin's uniform instance
/// operations. The file path is fixed when the wrapper is made.
#[derive(Clone)]
pub struct ScriptEditorWrapper<E> {
    panel: E,
    file_path: String,
}

impl<E> View for ScriptEditorWrapper<E> {
    type V = WrapperView<E>;

    closed spec fn view(&self) -> WrapperView<E> {
        WrapperView { panel: self.panel, file_path: self.file_path@ }
    }
}

impl<E> ScriptEditorWrapper<E> {
    pub fn new(panel: E, file_path: String) -> (w: Self)
        ensures
            w@ == (WrapperView { panel, file_path: file_path@ }),
    {
        ScriptEditorWrapper { panel, file_path }
    }

    /// The path the instance was opened on.
    pub fn file_path(&self) -> (r: &String)
        ensures
            r@ == self@.file_path,
    {
        &self.file_path
    }

    /// The editor entity this wrapper delegates to.
    pub fn panel(&self) -> (r: &E)
        ensures
            *r == self@.panel,
    {
        &self.panel
    }

    /// Whether unsaved changes exist. The entity exposes no live dirty
    /// state, so the instance always reports itself clean.
    pub fn is_dirty(&self) -> (r: bool)
        ensures
            !r,
    {
        false
    }
}

/// The state the plugin owns for one live instance: the handle the host
/// renders, and the wrapper for lifecycle operations on the same entity.
pub struct EditorStorage<P, E> {
    pub panel: P,
    pub wrapper: ScriptEditorWrapper<E>,
}

/// One successful creation took the store from `before` to `after`: it
/// handed out the next id and stored under it a record that pairs `panel`
/// with a wrapper over `entity` bound to `file_path`.
pub open spec fn created<P, E>(
    before: StoreView<EditorStorage<P, E>>,
    after: StoreView<EditorStorage<P, E>>,
    id: usize,
    panel: P,
    entity: E,
    file_path: Seq<char>,
) -> bool {
    &&& id as nat == before.next_id
    &&& after.next_id == before.next_id + 1
    &&& after.records.contains_key(id)
    &&& after.records[id].panel == panel
    &&& after.records[id].wrapper@ == (WrapperView { panel: entity, file_path })
    &&& after.records.remove(id) == before.records
}

/// One unload took the store from `before` to `after` and reported `count`
/// records removed.
pub open spec fn unloaded<R>(before: StoreView<R>, after: StoreView<R>, count: usize) -> bool {
    &&& count == before.records.len()
    &&& after.next_id == before.next_id
    &&& after.records == Map::<usize, R>::empty()
}

/// A creation keeps the store well formed.
pub proof fn lemma_created_wf<P, E>(
    before: StoreView<EditorStorage<P, E>>,
    after: StoreView<EditorStorage<P, E>>,
    id: usize,
    panel: P,
    entity: E,
    file_path: Seq<char>,
)
    requires
        before.wf(),
        created(before, after, id, panel, entity, file_path),
    ensures
        after.wf(),
        !before.records.contains_key(id),
        after.records == before.records.insert(id, after.records[id]),
        after.records.len() == before.records.len() + 1,
{
    assert(after.records =~= before.records.insert(id, after.records[id]));
    assert forall|k: usize| #[trigger] after.records.contains_key(k) implies (k as nat)
        < after.next_id by {
        if k != id {
            assert(before.records.contains_key(k));
        }
    }
}

/// After a successful creation the store holds exactly one more record,
/// keyed by the id returned; removing that id, or unloading, leaves it
/// absent.
pub proof fn lemma_create_then_release<P, E>(
    before: StoreView<EditorStorage<P, E>>,
    after: StoreView<EditorStorage<P, E>>,
    removed: StoreView<EditorStorage<P, E>>,
    cleared: StoreView<EditorStorage<P, E>>,
    id: usize,
    panel: P,
    entity: E,
    file_path: Seq<char>,
    count: usize,
)
    requires
        before.wf(),
        created(before, after, id, panel, entity, file_path),
        removed.records == after.records.remove(id),
        unloaded(after, cleared, count),
    ensures
        after.records.len() == before.records.len() + 1,
        after.records.contains_key(id),
        !removed.records.contains_key(id),
        !cleared.records.contains_key(id),
        count == before.records.len() + 1,
{
    lemma_created_wf(before, after, id, panel, entity, file_path);
}

/// Over any run of successful creations, the ids returned are strictly
/// increasing, hence pairwise distinct, each is live at the end, and the
/// store has grown by exactly the number of creations.
pub proof fn lemma_creations_accumulate<P, E>(
    states: Seq<StoreView<EditorStorage<P, E>>>,
    ids: Seq<usize>,
    panels: Seq<P>,
    entities: Seq<E>,
    paths: Seq<Seq<char>>,
)
    requires
        states.len() == ids.len() + 1,
        panels.len() == ids.len(),
        entities.len() == ids.len(),
        paths.len() == ids.len(),
        states[0].wf(),
        forall|i: int|
            0 <= i < ids.len() ==> created(
                states[i],
                states[i + 1],
                #[trigger] ids[i],
                panels[i],
                entities[i],
                paths[i],
            ),
    ensures
        states.last().wf(),
        forall|i: int, j: int| 0 <= i < j < ids.len() ==> ids[i] < ids[j],
        forall|i: int| 0 <= i < ids.len() ==> states.last().records.contains_key(#[trigger] ids[i]),
        states.last().records.len() == states[0].records.len() + ids.len(),
        states.last().next_id == states[0].next_id + ids.len(),
    decreases ids.len(),
{
    if ids.len() > 0 {
        let n = (ids.len() - 1) as int;
        let s0 = states.subrange(0, n + 1);
        let i0 = ids.subrange(0, n);
        assert forall|i: int| 0 <= i < i0.len() implies created(
            s0[i],
            s0[i + 1],
            #[trigger] i0[i],
            panels.subrange(0, n)[i],
            entities.subrange(0, n)[i],
            paths.subrange(0, n)[i],
        ) by {
            assert(created(states[i], states[i + 1], ids[i], panels[i], entities[i], paths[i]));
        }
        lemma_creations_accumulate(
            s0,
            i0,
            panels.subrange(0, n),
            entities.subrange(0, n),
            paths.subrange(0, n),
        );
        assert(s0.last() == states[n]);
        assert(created(states[n], states[n + 1], ids[n], panels[n], entities[n], paths[n]));
        lemma_created_wf(states[n], states[n + 1], ids[n], panels[n], entities[n], paths[n]);
        assert forall|i: int, j: int| 0 <= i < j < ids.len() implies ids[i] < ids[j] by {
            if j < n {
                assert(i0[i] < i0[j]);
            } else {
                assert(states[n].records.contains_key(i0[i]));
            }
        }
        assert forall|i: int| 0 <= i < ids.len() implies states.last().records.contains_key(
            #[trigger] ids[i],
        ) by {
            if i < n {
                assert(states[n].records.contains_key(i0[i]));
            }
        }
    }
}

/// Unloading removes every live instance and empties the store; unloading
/// again removes nothing.
pub proof fn lemma_unload_twice<R>(
    before: StoreView<R>,
    once: StoreView<R>,
    twice: StoreView<R>,
    first: usize,
    second: usize,
)
    requires
        before.wf(),
        unloaded(before, once, first),
        unloaded(once, twice, second),
    ensures
        first == before.records.len(),
        once.records.len() == 0,
        twice.records.len() == 0,
        second == 0,
        twice.next_id == before.next_id,
{
}

/// The script editor plugin: its registries, and the store of the editor
/// instances it has created. `P` is the handle a host renders, `E` the
/// editor entity that lifecycle operations go to.
pub struct ScriptEditorPlugin<P, E> {
    editors: InstanceStore<EditorStorage<P, E>>,
}

impl<P, E> View for ScriptEditorPlugin<P, E> {
    type V = StoreView<EditorStorage<P, E>>;

    closed spec fn view(&self) -> StoreView<EditorStorage<P, E>> {
        self.editors@
    }
}

impl<P, E> ScriptEditorPlugin<P, E> {
    pub open spec fn wf(&self) -> bool {
        self@.wf()
    }

    /// A plugin with no instances; its first instance gets id 0.
    pub fn new() -> (r: Self)
        ensures
            r.wf(),
            r@.next_id == 0,
            r@.records == Map::<usize, EditorStorage<P, E>>::empty(),
    {
        ScriptEditorPlugin { editors: InstanceStore::new() }
    }

    /// The plugin's identity and version.
    pub fn metadata(&self) -> (r: PluginMetadata)
        ensures
            r@ == plugin_metadata(),
    {
        PluginMetadata {
            id: "com.pulsar.script-editor".to_owned(),
            name: "Script Editor".to_owned(),
            version: "0.1.0".to_owned(),
            author: "Pulsar Team".to_owned(),
            description: "Professional code editor with LSP support for multiple programming languages".to_owned(),
        }
    }

    /// The file types the plugin offers.
    pub fn file_types(&self) -> (r: Vec<FileTypeDescriptor>)
        ensures
            file_type_views(r@) == registered_file_types(),
    {
        let r = vec![
            file_type("rust_script", "rs", "Rust", FileIcon::RustLang, 0xFF5722,
                "// New Rust script\n", "Scripts"),
            file_type("javascript", "js", "JavaScript", FileIcon::Code, 0xF7DF1E,
                "// New JavaScript file\n", "Scripts"),
            file_type("typescript", "ts", "TypeScript", FileIcon::Code, 0x3178C6,
                "// New TypeScript file\n", "Scripts"),
            file_type("python", "py", "Python Script", FileIcon::Code, 0x3776AB,
                "# New Python script\n", "Scripts"),
            file_type("lua", "lua", "Lua Script", FileIcon::Code, 0x2196F3,
                "-- New Lua script\n", "Scripts"),
            file_type("toml", "toml", "TOML Configuration", FileIcon::Page, 0x9E9E9E,
                "# TOML configuration file\n", "Data"),
            file_type("markdown", "md", "Markdown Document", FileIcon::Page, 0xFF5722,
                "# New Document\n", "Documents"),
        ];
        assert(file_type_views(r@) =~= registered_file_types());
        r
    }

    /// The editor kinds the plugin offers.
    pub fn editors(&self) -> (r: Vec<EditorDescriptor>)
        ensures
            editor_views(r@) == registered_editors(),
    {
        let supported = vec![
            "rust_script".to_owned(),
            "javascript".to_owned(),
            "typescript".to_owned(),
            "python".to_owned(),
            "lua".to_owned(),
            "toml".to_owned(),
            "markdown".to_owned(),
        ];
        let r = vec![
            EditorDescriptor {
                id: "script-editor".to_owned(),
                display_name: "Script Editor".to_owned(),
                supported_file_types: supported,
            },
        ];
        assert(strings_view(r@[0].supported_file_types@) =~= registered_editors()[0].supported_file_types);
        assert(editor_views(r@) =~= registered_editors());
        r
    }

    /// Whether `editor_id` names a registered editor kind.
    pub fn has_editor(&self, editor_id: &String) -> (r: bool)
        ensures
            r == is_registered_editor(editor_id@),
    {
        let kinds = self.editors();
        let mut i: usize = 0;
        while i < kinds.len()
            invariant
                editor_views(kinds@) == registered_editors(),
                0 <= i <= kinds@.len(),
                forall|j: int| 0 <= j < i ==> registered_editors()[j].id != editor_id@,
            decreases kinds@.len() - i,
        {
            assert(kinds@[i as int]@ == registered_editors()[i as int]);
            if kinds[i].id == *editor_id {
                assert(registered_editors()[i as int].id == editor_id@);
                return true;
            }
            i = i + 1;
        }
        false
    }

    /// Whether another instance can still get an id of its own.
    pub fn can_create(&self) -> (r: bool)
        ensures
            r == (self@.next_id < usize::MAX),
    {
        self.editors.can_allocate()
    }

    /// Creates an instance of editor kind `editor_id` for `file_path` and
    /// returns its id. `panel` and `entity` are the host's handles to the
    /// editor entity already opened on `file_path`. An unregistered kind
    /// is refused and the store is left as it was.
    pub fn create_editor(&mut self, editor_id: String, file_path: String, panel: P, entity: E) -> (r:
        Result<usize, PluginError>)
        requires
            old(self).wf(),
            old(self)@.next_id < usize::MAX,
        ensures
            final(self).wf(),
            is_registered_editor(editor_id@) <==> r is Ok,
            match r {
                Ok(id) => created(old(self)@, final(self)@, id, panel, entity, file_path@),
                Err(e) => e == (PluginError::EditorNotFound { editor_id }) && final(self)@ == old(
                    self,
                )@,
            },
    {
        if self.has_editor(&editor_id) {
            let wrapper = ScriptEditorWrapper::new(entity, file_path);
            let id = self.editors.allocate_id();
            let inserted = self.editors.insert(id, EditorStorage { panel, wrapper });
            assert(inserted);
            assert(self@.records.remove(id) =~= old(self)@.records);
            Ok(id)
        } else {
            Err(PluginError::EditorNotFound { editor_id })
        }
    }

    /// Releases the instance stored under `id`, if there is one.
    pub fn remove_editor(&mut self, id: usize) -> (r: Option<EditorStorage<P, E>>)
        requires
            old(self).wf(),
        ensures
            final(self).wf(),
            final(self)@.next_id == old(self)@.next_id,
            final(self)@.records == old(self)@.records.remove(id),
            r == if old(self)@.records.contains_key(id) {
                Some(old(self)@.records[id])
            } else {
                None::<EditorStorage<P, E>>
            },
    {
        self.editors.remove(id)
    }

    /// The instance stored under `id`, if there is one.
    pub fn instance(&self, id: usize) -> (r: Option<&EditorStorage<P, E>>)
        ensures
            r == if self@.records.contains_key(id) {
                Some(&self@.records[id])
            } else {
                None::<&EditorStorage<P, E>>
            },
    {
        self.editors.get(id)
    }

    /// How many instances are live.
    pub fn editor_count(&self) -> (n: usize)
        ensures
            n == self@.records.len(),
    {
        self.editors.len()
    }

    /// Called once when the host activates the plugin; the store is left
    /// as it is.
    pub fn on_load(&mut self)
        ensures
            final(self)@ == old(self)@,
    {
    }

    /// Releases every live instance and reports how many there were.
    pub fn on_unload(&mut self) -> (count: usize)
        requires
            old(self).wf(),
        ensures
            final(self).wf(),
            unloaded(old(self)@, final(self)@, count),
    {
        self.editors.clear()
    }
}

impl<P, E> Default for ScriptEditorPlugin<P, E> {
    fn default() -> (r: Self)
        ensures
            r.wf(),
            r@.next_id == 0,
            r@.records == Map::<usize, EditorStorage<P, E>>::empty(),
    {
        Self::new()
    }
}

fn file_type(
    id: &str,
    extension: &str,
    display_name: &str,
    icon: FileIcon,
    color: u32,
    default_content: &str,
    category: &str,
) -> (d: FileTypeDescriptor)
    ensures
        d@ == file_type_entry(id@, extension@, display_name@, icon, color, default_content@, category@),
{
    let d = FileTypeDescriptor {
        id: id.to_owned(),
        extension: extension.to_owned(),
        display_name: display_name.to_owned(),
        icon,
        color,
        structure: FileStructure::Standalone,
        default_content: default_content.to_owned(),
        categories: vec![category.to_owned()],
    };
    assert(strings_view(d.categories@) =~= seq![category@]);
    d
}

} // verus!
