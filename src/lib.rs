//! A request-dispatch bridge: a binary frame codec, a freezable route table,
//! a one-shot completion context shared with an outside handler runtime, and
//! the decisions that turn a dispatch outcome into an HTTP reply.
pub mod completion;
pub mod dispatch;
pub mod frames;
pub mod handler;
pub mod router;
pub mod router_handle;
