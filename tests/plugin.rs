use std::sync::{Arc, Mutex};

use script_editor_plugin::{PluginError, ScriptEditorPlugin, ScriptEditorWrapper};

type Plugin = ScriptEditorPlugin<String, u32>;

#[test]
fn create_adds_one_record_under_returned_id() {
    let mut p: Plugin = ScriptEditorPlugin::new();
    let before = p.editor_count();
    let id = p
        .create_editor("script-editor".to_string(), "/tmp/a.rs".to_string(), "view".to_string(), 9)
        .unwrap();
    assert_eq!(id, 0);
    assert_eq!(p.editor_count(), before + 1);
    let rec = p.instance(id).unwrap();
    assert_eq!(rec.panel, "view");
    assert_eq!(rec.wrapper.file_path(), "/tmp/a.rs");
    assert_eq!(*rec.wrapper.panel(), 9);
    assert!(!rec.wrapper.is_dirty());
    assert!(p.remove_editor(id).is_some());
    assert!(p.instance(id).is_none());
    assert!(p.remove_editor(id).is_none());
    assert_eq!(p.editor_count(), before);
}

#[test]
fn unknown_editor_kind_is_refused() {
    let mut p: Plugin = ScriptEditorPlugin::new();
    p.create_editor("script-editor".to_string(), "/tmp/b.md".to_string(), "v".to_string(), 1)
        .unwrap();
    let before = p.editor_count();
    let r = p.create_editor(
        "nonexistent-editor".to_string(),
        "/tmp/a.py".to_string(),
        "v".to_string(),
        2,
    );
    assert_eq!(
        r,
        Err(PluginError::EditorNotFound { editor_id: "nonexistent-editor".to_string() })
    );
    assert_eq!(p.editor_count(), before);
    let next = p
        .create_editor("script-editor".to_string(), "/tmp/c.md".to_string(), "v".to_string(), 3)
        .unwrap();
    assert_eq!(next, 1);
}

#[test]
fn many_callers_create_distinct_instances() {
    let shared: Arc<Mutex<Plugin>> = Arc::new(Mutex::new(ScriptEditorPlugin::new()));
    let callers: Vec<Arc<Mutex<Plugin>>> = (0..8).map(|_| Arc::clone(&shared)).collect();
    let mut ids: Vec<usize> = Vec::new();
    for n in 0..100u32 {
        let caller = &callers[(n % 8) as usize];
        let mut p = caller.lock().unwrap();
        let id = p
            .create_editor(
                "script-editor".to_string(),
                format!("/tmp/file{}.py", n),
                format!("view{}", n),
                n,
            )
            .unwrap();
        ids.push(id);
    }
    let mut sorted = ids.clone();
    sorted.sort();
    sorted.dedup();
    assert_eq!(sorted.len(), 100);
    for w in ids.windows(2) {
        assert!(w[0] < w[1]);
    }
    assert_eq!(shared.lock().unwrap().editor_count(), 100);
}

#[test]
fn unload_removes_all_then_nothing() {
    let mut p: Plugin = ScriptEditorPlugin::default();
    for n in 0..4u32 {
        p.create_editor("script-editor".to_string(), format!("/tmp/{}.lua", n), "v".to_string(), n)
            .unwrap();
    }
    assert_eq!(p.on_unload(), 4);
    assert_eq!(p.editor_count(), 0);
    assert_eq!(p.on_unload(), 0);
    assert_eq!(p.editor_count(), 0);
    let id = p
        .create_editor("script-editor".to_string(), "/tmp/x.ts".to_string(), "v".to_string(), 0)
        .unwrap();
    assert_eq!(id, 4);
}

#[test]
fn open_python_file_then_unload() {
    let mut p: Plugin = ScriptEditorPlugin::new();
    p.on_load();
    let editors = p.editors();
    assert!(editors[0].supported_file_types.contains(&"python".to_string()));
    let r = p.create_editor(
        "script-editor".to_string(),
        "/tmp/a.py".to_string(),
        "view".to_string(),
        1,
    );
    assert!(r.is_ok());
    assert_eq!(p.editor_count(), 1);
    assert_eq!(p.on_unload(), 1);
    assert_eq!(p.editor_count(), 0);
}

#[test]
fn wrapper_keeps_its_path() {
    let w = ScriptEditorWrapper::new(5u8, "/tmp/z.toml".to_string());
    assert_eq!(w.file_path(), "/tmp/z.toml");
    assert_eq!(*w.panel(), 5);
    assert!(!w.is_dirty());
    let c = w.clone();
    assert_eq!(c.file_path(), "/tmp/z.toml");
}
