//! Policy core of a tiling window compositor: a master-stack layout engine,
//! a stack of hidden windows, an exclusive interactive move/resize session,
//! and the event handlers that tie them together. The compositor runtime
//! delivers events as plain values; every decision comes back as a list of
//! [`dispatch::Action`]s for the runtime to perform.

pub mod dispatch;
pub mod geometry;
pub mod policy;
pub mod session;
pub mod visibility;
