//! The static descriptors this plugin offers to its host: its identity, the
//! file types it can open, and the editor kinds that open them.
use vstd::prelude::*;

verus! {

/// The icon a host shows beside a file type.
#[derive(Clone, Copy, Debug, PartialEq, Eq, Structural)]
pub enum FileIcon {
    RustLang,
    Code,
    Page,
}

/// How the files of one type are laid out on disk.
#[derive(Clone, Copy, Debug, PartialEq, Eq, Structural)]
pub enum FileStructure {
    /// One self-contained file.
    Standalone,
}

/// Identity and description of the plugin.
#[derive(Clone, Debug, PartialEq, Eq)]
pub struct PluginMetadata {
    pub id: String,
    pub name: String,
    pub version: String,
    pub author: String,
    pub description: String,
}

pub ghost struct PluginMetadataView {
    pub id: Seq<char>,
    pub name: Seq<char>,
    pub version: Seq<char>,
    pub author: Seq<char>,
    pub description: Seq<char>,
}

impl View for PluginMetadata {
    type V = PluginMetadataView;

    open spec fn view(&self) -> PluginMetadataView {
        PluginMetadataView {
            id: self.id@,
            name: self.name@,
            version: self.version@,
            author: self.author@,
            description: self.description@,
        }
    }
}

/// One kind of file the plugin can create and open.
#[derive(Clone, Debug, PartialEq, Eq)]
pub struct FileTypeDescriptor {
    /// Unique id of the file type.
    pub id: String,
    /// File extension, without the dot; unique among the file types.
    pub extension: String,
    pub display_name: String,
    pub icon: FileIcon,
    /// Colour as `0xRRGGBB`.
    pub color: u32,
    pub structure: FileStructure,
    /// Text that a new, empty file of this type starts with.
    pub default_content: String,
    /// Tags by which a host groups file types.
    pub categories: Vec<String>,
}

pub ghost struct FileTypeView {
    pub id: Seq<char>,
    pub extension: Seq<char>,
    pub display_name: Seq<char>,
    pub icon: FileIcon,
    pub color: u32,
    pub structure: FileStructure,
    pub default_content: Seq<char>,
    pub categories: Seq<Seq<char>>,
}

/// The characters of each string in `v`.
pub open spec fn strings_view(v: Seq<String>) -> Seq<Seq<char>> {
    v.map_values(|s: String| s@)
}

impl View for FileTypeDescriptor {
    type V = FileTypeView;

    open spec fn view(&self) -> FileTypeView {
        FileTypeView {
            id: self.id@,
            extension: self.extension@,
            display_name: self.display_name@,
            icon: self.icon,
            color: self.color,
            structure: self.structure,
            default_content: self.default_content@,
            categories: strings_view(self.categories@),
        }
    }
}

/// One kind of editor and the file types it opens.
#[derive(Clone, Debug, PartialEq, Eq)]
pub struct EditorDescriptor {
    pub id: String,
    pub display_name: String,
    /// Ids of the file types this editor opens.
    pub supported_file_types: Vec<String>,
}

pub ghost struct EditorView {
    pub id: Seq<char>,
    pub display_name: Seq<char>,
    pub supported_file_types: Seq<Seq<char>>,
}

impl View for EditorDescriptor {
    type V = EditorView;

    open spec fn view(&self) -> EditorView {
        EditorView {
            id: self.id@,
            display_name: self.display_name@,
            supported_file_types: strings_view(self.supported_file_types@),
        }
    }
}

pub open spec fn file_type_views(v: Seq<FileTypeDescriptor>) -> Seq<FileTypeView> {
    v.map_values(|d: FileTypeDescriptor| d@)
}

pub open spec fn editor_views(v: Seq<EditorDescriptor>) -> Seq<EditorView> {
    v.map_values(|d: EditorDescriptor| d@)
}

/// The plugin's identity.
pub open spec fn plugin_metadata() -> PluginMetadataView {
    PluginMetadataView {
        id: "com.pulsar.script-editor"@,
        name: "Script Editor"@,
        version: "0.1.0"@,
        author: "Pulsar Team"@,
        description: "Professional code editor with LSP support for multiple programming languages"@,
    }
}

pub open spec fn file_type_entry(
    id: Seq<char>,
    extension: Seq<char>,
    display_name: Seq<char>,
    icon: FileIcon,
    color: u32,
    default_content: Seq<char>,
    category: Seq<char>,
) -> FileTypeView {
    FileTypeView {
        id,
        extension,
        display_name,
        icon,
        color,
        structure: FileStructure::Standalone,
        default_content,
        categories: seq![category],
    }
}

/// The file types the plugin offers, in the order it lists them.
pub open spec fn registered_file_types() -> Seq<FileTypeView> {
    seq![
        file_type_entry("rust_script"@, "rs"@, "Rust"@, FileIcon::RustLang, 0xFF5722,
            "// New Rust script\n"@, "Scripts"@),
        file_type_entry("javascript"@, "js"@, "JavaScript"@, FileIcon::Code, 0xF7DF1E,
            "// New JavaScript file\n"@, "Scripts"@),
        file_type_entry("typescript"@, "ts"@, "TypeScript"@, FileIcon::Code, 0x3178C6,
            "// New TypeScript file\n"@, "Scripts"@),
        file_type_entry("python"@, "py"@, "Python Script"@, FileIcon::Code, 0x3776AB,
            "# New Python script\n"@, "Scripts"@),
        file_type_entry("lua"@, "lua"@, "Lua Script"@, FileIcon::Code, 0x2196F3,
            "-- New Lua script\n"@, "Scripts"@),
        file_type_entry("toml"@, "toml"@, "TOML Configuration"@, FileIcon::Page, 0x9E9E9E,
            "# TOML configuration file\n"@, "Data"@),
        file_type_entry("markdown"@, "md"@, "Markdown Document"@, FileIcon::Page, 0xFF5722,
            "# New Document\n"@, "Documents"@),
    ]
}

/// The editor kinds the plugin offers, in the order it lists them.
pub open spec fn registered_editors() -> Seq<EditorView> {
    seq![
        EditorView {
            id: "script-editor"@,
            display_name: "Script Editor"@,
            supported_file_types: seq![
                "rust_script"@,
                "javascript"@,
                "typescript"@,
                "python"@,
                "lua"@,
                "toml"@,
                "markdown"@,
            ],
        },
    ]
}

/// Whether `id` names one of the registered editor kinds.
pub open spec fn is_registered_editor(id: Seq<char>) -> bool {
    exists|i: int| 0 <= i < registered_editors().len() && #[trigger] registered_editors()[i].id == id
}

/// The registered file types have pairwise-distinct extensions and
/// pairwise-distinct ids, and every file type that an editor kind names is
/// registered.
pub proof fn lemma_registry_consistent()
    ensures
        forall|i: int, j: int|
            0 <= i < j < registered_file_types().len() ==> {
                &&& #[trigger] registered_file_types()[i].extension
                    != #[trigger] registered_file_types()[j].extension
                &&& registered_file_types()[i].id != registered_file_types()[j].id
            },
        forall|e: int, k: int|
            0 <= e < registered_editors().len() && 0 <= k
                < registered_editors()[e].supported_file_types.len() ==> exists|i: int|
                0 <= i < registered_file_types().len() && #[trigger] registered_file_types()[i].id
                    == #[trigger] registered_editors()[e].supported_file_types[k],
{
    reveal_strlit("rs");
    reveal_strlit("js");
    reveal_strlit("ts");
    reveal_strlit("py");
    reveal_strlit("lua");
    reveal_strlit("toml");
    reveal_strlit("md");
    reveal_strlit("rust_script");
    reveal_strlit("javascript");
    reveal_strlit("typescript");
    reveal_strlit("python");
    reveal_strlit("lua");
    reveal_strlit("markdown");
    let t = registered_file_types();
    assert forall|i: int, j: int| 0 <= i < j < t.len() implies {
        &&& #[trigger] t[i].extension != #[trigger] t[j].extension
        &&& t[i].id != t[j].id
    } by {
        assert(t[i].extension.len() != t[j].extension.len() || t[i].extension[0]
            != t[j].extension[0]);
        assert(t[i].id.len() != t[j].id.len() || t[i].id[0] != t[j].id[0]);
    }
    let ed = registered_editors();
    assert forall|e: int, k: int|
        0 <= e < ed.len() && 0 <= k < ed[e].supported_file_types.len() implies exists|i: int|
        0 <= i < t.len() && #[trigger] t[i].id == #[trigger] ed[e].supported_file_types[k] by {
        assert(t[k].id == ed[e].supported_file_types[k]);
    }
}

} // verus!
