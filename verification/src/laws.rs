//! What the operations of the library do, stated over their arguments and results.
//!
//! Each law speaks of what a call may return, as its contract says, and of nothing but the values
//! that go in and come out.
pub mod acme;
pub mod container;
pub mod docker;
pub mod net;
pub mod proxy;
pub mod retry;
pub mod server;
pub mod string_map;
pub mod text;
