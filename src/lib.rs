//! Registration and instance-lifecycle core of the script editor plugin.
//!
//! The plugin declares the file types and editor kinds it offers, creates
//! editor instances on the host's request, tracks each under an id that is
//! never reused, and releases them all when it is unloaded.
use vstd::prelude::*;

pub mod plugin;
pub mod registry;
pub mod store;

pub use plugin::{EditorStorage, PluginError, ScriptEditorPlugin, ScriptEditorWrapper};
pub use registry::{
    EditorDescriptor, FileIcon, FileStructure, FileTypeDescriptor, PluginMetadata,
};
pub use store::InstanceStore;

verus! {

} // verus!
