//! Typed request/response messaging between handles and an event loop.
//!
//! The verified part of the crate holds the message values that travel over
//! the channels, the routing of replies to the request that is waiting for
//! them, and the classification of failed sends.

mod channel;
pub mod message;
pub mod reply;
pub mod state;
pub mod text;
