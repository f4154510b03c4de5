//! Verified core of a turtle-graphics renderer server.
//!
//! The server sits between a graphical renderer and client tasks issuing
//! drawing commands against shared state.  This crate holds everything that
//! can be reasoned about sequentially: the request and reply vocabulary, the
//! application state and its handlers, the display list, the event queue, the
//! dispatcher's per-message decisions, and a small transition system that
//! captures the ordering-token protocol and its guarantees.  The async
//! runtime, the inter-process transport and the renderer notifier live
//! outside, in the surrounding application, which drives this core.

pub mod types;
pub mod state;
pub mod display_list;
pub mod events;
pub mod handlers;
pub mod dispatcher;
pub mod model;
