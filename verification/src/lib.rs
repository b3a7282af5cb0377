//! Command/response coordination for a peer-to-peer content-distribution node.
//!
//! Callers hold a [`Client`] and ask for network actions through it. Each
//! action travels through a bounded mailbox to the single worker that owns the
//! network engine; the worker's [`Coordinator`] binds every action to the one
//! result that the engine eventually produces for it.

pub mod channel;
pub mod client;
pub mod command;
pub mod coordinator;
pub mod engine;
pub mod laws;
pub mod wire;

pub use client::{received, submitted, Client, EventLoop, MAILBOX_CAPACITY, NOTIFICATION_CAPACITY};
pub use command::{CallError, Command, Content, Done, EngineError, Providers};
pub use coordinator::{Coordinator, Delivery, Routed};
pub use engine::{dispatch, Dispatch, EngineEvent, Event, Pending};
pub use wire::{FileRequest, FileResponse};
