//! Backend dispatch, resource identity and diagnostic tracing for a
//! cross-platform GPU API core.

pub mod backend;
pub mod context;
pub mod core_table;
pub mod global;
pub mod hub;
pub mod id;
pub mod resource;
pub mod storage;
pub mod webgpu;
