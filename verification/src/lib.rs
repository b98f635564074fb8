//! Process, pool, routing and receipt vocabulary of the tatara process
//! controller, with the state machine and decision logic verified.

pub mod phase;
pub mod text;
pub mod signal;
pub mod outside;
pub mod pool_policy;
pub mod pool;
pub mod receipt;
pub mod routing;
pub mod k8s_wire_identity;
pub mod routing_edge_resource;
pub mod qualified;
pub mod process_api;

pub use qualified::{qualified_error_ctx, qualified_process_ref};
pub mod requeue;
pub mod serde_defaults;
pub mod secret_env;
pub mod annotations;
pub mod patch;
