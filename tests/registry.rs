use script_editor_plugin::{FileIcon, FileStructure, ScriptEditorPlugin};

fn plugin() -> ScriptEditorPlugin<u32, u32> {
    ScriptEditorPlugin::new()
}

#[test]
fn metadata_identifies_plugin() {
    let m = plugin().metadata();
    assert_eq!(m.id, "com.pulsar.script-editor");
    assert_eq!(m.name, "Script Editor");
    assert_eq!(m.version, "0.1.0");
    assert_eq!(m.author, "Pulsar Team");
    assert_eq!(
        m.description,
        "Professional code editor with LSP support for multiple programming languages"
    );
}

#[test]
fn file_types_are_listed_in_order() {
    let t = plugin().file_types();
    let ids: Vec<&str> = t.iter().map(|d| d.id.as_str()).collect();
    assert_eq!(
        ids,
        vec!["rust_script", "javascript", "typescript", "python", "lua", "toml", "markdown"]
    );
    let exts: Vec<&str> = t.iter().map(|d| d.extension.as_str()).collect();
    assert_eq!(exts, vec!["rs", "js", "ts", "py", "lua", "toml", "md"]);
}

#[test]
fn file_type_details() {
    let t = plugin().file_types();
    assert_eq!(t[0].display_name, "Rust");
    assert_eq!(t[0].icon, FileIcon::RustLang);
    assert_eq!(t[0].color, 0xFF5722);
    assert_eq!(t[0].default_content, "// New Rust script\n");
    assert_eq!(t[0].categories, vec!["Scripts".to_string()]);
    assert_eq!(t[3].display_name, "Python Script");
    assert_eq!(t[3].default_content, "# New Python script\n");
    assert_eq!(t[4].default_content, "-- New Lua script\n");
    assert_eq!(t[5].icon, FileIcon::Page);
    assert_eq!(t[5].color, 0x9E9E9E);
    assert_eq!(t[5].categories, vec!["Data".to_string()]);
    assert_eq!(t[6].categories, vec!["Documents".to_string()]);
    assert_eq!(t[6].default_content, "# New Document\n");
    for d in &t {
        assert_eq!(d.structure, FileStructure::Standalone);
    }
}

#[test]
fn file_types_have_distinct_extensions_and_ids() {
    let t = plugin().file_types();
    for i in 0..t.len() {
        for j in (i + 1)..t.len() {
            assert_ne!(t[i].extension, t[j].extension);
            assert_ne!(t[i].id, t[j].id);
        }
    }
}

#[test]
fn file_types_are_deterministic() {
    let p = plugin();
    assert_eq!(p.file_types(), p.file_types());
    assert_eq!(p.editors(), p.editors());
}

#[test]
fn editors_name_registered_file_types() {
    let p = plugin();
    let e = p.editors();
    assert_eq!(e.len(), 1);
    assert_eq!(e[0].id, "script-editor");
    assert_eq!(e[0].display_name, "Script Editor");
    assert_eq!(e[0].supported_file_types.len(), 7);
    let t = p.file_types();
    for ft in &e[0].supported_file_types {
        assert!(t.iter().any(|d| &d.id == ft));
    }
}

#[test]
fn has_editor_knows_registered_kinds() {
    let p = plugin();
    assert!(p.has_editor(&"script-editor".to_string()));
    assert!(!p.has_editor(&"nonexistent-editor".to_string()));
    assert!(!p.has_editor(&String::new()));
    assert!(!p.has_editor(&"script-editor ".to_string()));
}
