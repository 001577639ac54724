//! Verified core of a desktop editor shell: the decisions that sit between the
//! native event loop, the embedded browser engine and the node-graph worker.

pub mod frame_timing;
pub mod browser_schedule;
pub mod web_bridge;
pub mod render_gate;
pub mod chrome_geometry;
pub mod chrome_registry;
pub mod chrome_messages;
pub mod script_bridge;
pub mod document_order;
pub mod shell;
