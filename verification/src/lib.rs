//! A layered codec/middleware composition engine for protocol stacks.
//!
//! A stack is a chain of transform layers terminating in a raw transport
//! connection. Sending a payload walks it down through each layer's wrap
//! step; receiving a wire unit walks it back up through each layer's unwrap
//! step. Every operation is a one-shot, suspendable producer that yields a
//! sequence of result items, one resumption at a time, so that no layer has
//! to buffer a whole message.

mod connection;
pub mod gen_utils;
pub mod identity;
pub mod laws;
mod middleware;
mod pipeline;
mod sealed;
mod stack;

pub use connection::Connection;
pub use gen_utils::BetweenYields;
pub use gen_utils::ConnecteerGenerator;
pub use gen_utils::Step;
pub use identity::Base;
pub use identity::BaseCtx;
pub use middleware::LayerCtx;
pub use middleware::Middleware;
pub use middleware::PublicUncallable;
pub use pipeline::Pipeline;
pub use stack::Stack;
pub use stack::StackCtx;
pub use stack::StackReceiveGen;
pub use stack::StackSendGen;
