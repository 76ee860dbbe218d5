//! A workspace of draggable, stackable visual layers: selection, free-form
//! positional dragging, and z-order reordering (bring-to-front / send-to-back).
//!
//! The crate holds the workspace/layer state machine and the drag-interaction
//! controller. Rendering (creating visual nodes, styling, reading pointer
//! coordinates from a host event system) is a host concern and stays outside.

pub mod drag;
pub mod laws;
pub mod layer;
pub mod workspace;
