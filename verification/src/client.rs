//! The client: session state, its builder, and the request pipeline's
//! state machines.

pub mod builder;

mod rustblox_client;

pub use rustblox_client::Method;
pub use rustblox_client::RequestComponents;
pub use rustblox_client::RustbloxClient;
