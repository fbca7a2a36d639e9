//! The browser actor: one owner of the browser that runs queued commands in order.
pub mod cancel;
pub mod error;
pub mod queue;
pub mod refs;
pub mod page;
pub mod timeout;
