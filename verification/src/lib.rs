//! Workspace-layout core of a desktop BOM tool: a persisted tree of dockable
//! panes, a deduplicated registry of singleton utility windows, and a confirmed
//! shutdown sequence. Rendering and the host event loop live outside this
//! crate; everything here is plain data and verified logic.

pub mod behavior;
pub mod shutdown;
pub mod state;
pub mod tabs;
pub mod tree;
pub mod windows;
