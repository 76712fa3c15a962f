//! Host and guest logic of a small WebAssembly agent: a capability tracer
//! whose events are rendered by a WebAssembly handler, the hosts that move
//! bytes in and out of their guests' linear memory, and the decisions of
//! the blog front end's components.
pub mod text;
pub mod capabilities;
pub mod utf8_text;
pub mod clock;
pub mod event;
pub mod uniqueness;
pub mod hello;
pub mod routes;
pub mod store;
pub mod runtime;
pub mod host_error;
pub mod guest_memory;
pub mod capable_host;
pub mod agent_host;
pub mod greeting_host;
pub mod front_end;
