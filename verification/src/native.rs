//! Native plugins: loading, the host functions they call, and their callbacks.
//!
//! A native plugin talks to the host through nullable pointers and status codes.
//! Here a pointer that may be null is an `Option`, and the message that the host
//! keeps for the last failed call is a [`status::LastError`].

pub mod adapter;
pub mod async_call;
pub mod callbacks;
pub mod codecs;
pub mod completion;
pub mod handoff;
pub mod load;
pub mod loading;
pub mod pull;
pub mod register;
pub mod relay_stream;
pub mod scope;
pub mod status;
pub mod stream;
pub mod strings;
pub mod tasks;
