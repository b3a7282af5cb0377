//! The single owner of the pending-request table: it binds each outstanding
//! engine operation to the reply slot of the caller that started it, and
//! decides where everything that the engine reports goes.

use crate::channel::hand_over;
use crate::command::{Content, Done, EngineError, Providers};
use crate::engine::{EngineEvent, Event, Pending};
use crate::wire::FileResponse;
use std::collections::HashMap;
use tokio::sync::oneshot;
use vstd::prelude::*;
use vstd::std_specs::hash::*;

verus! {

/// A result on its way to the caller that waits for it.
#[derive(Debug)]
#[allow(inconsistent_fields)]
pub enum Delivery {
    Done { sender: oneshot::Sender<Done>, result: Done },
    Providers { sender: oneshot::Sender<Providers>, result: Providers },
    Content { sender: oneshot::Sender<Content>, result: Content },
}

/// Where something that the engine reported goes.
#[derive(Debug)]
pub enum Routed<C> {
    /// To the caller whose operation it completes.
    Deliver(Delivery),
    /// To the notification stream.
    Forward(Event<C>),
    /// Nowhere: it names an operation that nobody waits for.
    Discard,
}

/// The payload, or the failure, of a finished content request.
pub open spec fn content_of(result: Result<FileResponse, EngineError>) -> Content {
    match result {
        Ok(response) => Ok(response.0),
        Err(error) => Err(error),
    }
}

/// The table after an event, and where the event goes.
///
/// A completion goes to the reply slot registered under its token, if there
/// is one and it waits for this kind of result; the entry leaves the table.
/// Any other completion is dropped and the table stays as it is. A request
/// from a remote peer is a notification, whatever the table holds.
pub open spec fn route<C>(table: Map<u64, Pending>, event: EngineEvent<C>) -> (
    Map<u64, Pending>,
    Routed<C>,
) {
    match event {
        EngineEvent::AdvertiseDone { token, result } => {
            if table.contains_key(token) && table[token] is Done {
                (
                    table.remove(token),
                    Routed::Deliver(Delivery::Done { sender: table[token]->Done_0, result }),
                )
            } else {
                (table, Routed::Discard)
            }
        },
        EngineEvent::DiscoverDone { token, result } => {
            if table.contains_key(token) && table[token] is Providers {
                (
                    table.remove(token),
                    Routed::Deliver(
                        Delivery::Providers { sender: table[token]->Providers_0, result },
                    ),
                )
            } else {
                (table, Routed::Discard)
            }
        },
        EngineEvent::RequestDone { token, result } => {
            if table.contains_key(token) && table[token] is Content {
                (
                    table.remove(token),
                    Routed::Deliver(
                        Delivery::Content {
                            sender: table[token]->Content_0,
                            result: content_of(result),
                        },
                    ),
                )
            } else {
                (table, Routed::Discard)
            }
        },
        EngineEvent::InboundRequestReceived { request, reply_token } => (
            table,
            Routed::Forward(Event::InboundRequest { request: request.0, channel: reply_token }),
        ),
    }
}

/// What a [`Coordinator`] stands for.
pub ghost struct CoordinatorView {
    /// The reply slot of each outstanding operation, by its token.
    pub pending: Map<u64, Pending>,
    /// Whether the mailbox may still yield an action.
    pub mailbox_open: bool,
    /// Whether the engine may still report an event.
    pub engine_active: bool,
}

/// The worker's bookkeeping.
pub struct Coordinator {
    pending: HashMap<u64, Pending>,
    mailbox_open: bool,
    engine_active: bool,
}

impl View for Coordinator {
    type V = CoordinatorView;

    closed spec fn view(&self) -> CoordinatorView {
        CoordinatorView {
            pending: self.pending@,
            mailbox_open: self.mailbox_open,
            engine_active: self.engine_active,
        }
    }
}

impl Coordinator {
    /// A coordinator with nothing outstanding, at the start of its loop.
    pub fn new() -> (coordinator: Coordinator)
        ensures
            coordinator@.pending == Map::<u64, Pending>::empty(),
            coordinator@.mailbox_open,
            coordinator@.engine_active,
    {
        Coordinator { pending: HashMap::new(), mailbox_open: true, engine_active: true }
    }

    /// The outcome of a primitive that answered on the spot, bound for the
    /// caller's reply slot. The table plays no part.
    pub fn resolve(sender: oneshot::Sender<Done>, result: Done) -> (delivery: Delivery)
        ensures
            delivery == (Delivery::Done { sender, result }),
    {
        Delivery::Done { sender, result }
    }

    /// Enters the reply slot of an operation that the engine has just given
    /// `token` for. Should the token still name an older operation, that
    /// operation's slot leaves the table and is handed back: its caller can
    /// no longer be answered.
    pub fn register(&mut self, token: u64, slot: Pending) -> (displaced: Option<Pending>)
        ensures
            final(self)@.pending == old(self)@.pending.insert(token, slot),
            final(self)@.mailbox_open == old(self)@.mailbox_open,
            final(self)@.engine_active == old(self)@.engine_active,
            displaced == (if old(self)@.pending.contains_key(token) {
                Some(old(self)@.pending[token])
            } else {
                None
            }),
    {
        broadcast use group_hash_axioms;

        self.pending.insert(token, slot)
    }

    /// Decides where an engine event goes, and takes the entry of the
    /// operation that it completes out of the table.
    pub fn on_event<C>(&mut self, event: EngineEvent<C>) -> (routed: Routed<C>)
        ensures
            (final(self)@.pending, routed) == route(old(self)@.pending, event),
            final(self)@.mailbox_open == old(self)@.mailbox_open,
            final(self)@.engine_active == old(self)@.engine_active,
    {
        broadcast use group_hash_axioms;

        match event {
            EngineEvent::AdvertiseDone { token, result } => {
                let waits = match self.pending.get(&token) {
                    Some(Pending::Done(_)) => true,
                    _ => false,
                };
                if waits {
                    match self.pending.remove(&token) {
                        Some(Pending::Done(sender)) => Routed::Deliver(
                            Delivery::Done { sender, result },
                        ),
                        _ => Routed::Discard,
                    }
                } else {
                    Routed::Discard
                }
            },
            EngineEvent::DiscoverDone { token, result } => {
                let waits = match self.pending.get(&token) {
                    Some(Pending::Providers(_)) => true,
                    _ => false,
                };
                if waits {
                    match self.pending.remove(&token) {
                        Some(Pending::Providers(sender)) => Routed::Deliver(
                            Delivery::Providers { sender, result },
                        ),
                        _ => Routed::Discard,
                    }
                } else {
                    Routed::Discard
                }
            },
            EngineEvent::RequestDone { token, result } => {
                let waits = match self.pending.get(&token) {
                    Some(Pending::Content(_)) => true,
                    _ => false,
                };
                if waits {
                    let result = match result {
                        Ok(response) => Ok(response.into_file()),
                        Err(error) => Err(error),
                    };
                    match self.pending.remove(&token) {
                        Some(Pending::Content(sender)) => Routed::Deliver(
                            Delivery::Content { sender, result },
                        ),
                        _ => Routed::Discard,
                    }
                } else {
                    Routed::Discard
                }
            },
            EngineEvent::InboundRequestReceived { request, reply_token } => Routed::Forward(
                Event::InboundRequest { request: request.into_file_name(), channel: reply_token },
            ),
        }
    }

    /// Notes that the mailbox is closed and drained: every handle is gone.
    pub fn close_mailbox(&mut self)
        ensures
            final(self)@ == (CoordinatorView { mailbox_open: false, ..old(self)@ }),
    {
        self.mailbox_open = false;
    }

    /// Notes that the engine has nothing left in progress.
    pub fn engine_exhausted(&mut self)
        ensures
            final(self)@ == (CoordinatorView { engine_active: false, ..old(self)@ }),
    {
        self.engine_active = false;
    }

    /// Whether the mailbox may still yield an action.
    pub fn mailbox_open(&self) -> (open: bool)
        ensures
            open == self@.mailbox_open,
    {
        self.mailbox_open
    }

    /// Whether the engine may still report an event.
    pub fn engine_active(&self) -> (active: bool)
        ensures
            active == self@.engine_active,
    {
        self.engine_active
    }

    /// Whether the worker's loop is over: it is once the mailbox and the
    /// engine are both exhausted, whatever the table still holds.
    pub fn finished(&self) -> (over: bool)
        ensures
            over == (!self@.mailbox_open && !self@.engine_active),
    {
        !self.mailbox_open && !self.engine_active
    }

    /// How many operations are outstanding.
    pub fn outstanding(&self) -> (count: usize)
        ensures
            count == self@.pending.len(),
    {
        broadcast use group_hash_axioms;

        self.pending.len()
    }

    /// Gives up every outstanding operation: the producer end of each reply
    /// slot in the table is dropped with nothing sent through it. Returns how
    /// many callers were left without an answer.
    pub fn shutdown(&mut self) -> (abandoned: usize)
        ensures
            abandoned == old(self)@.pending.len(),
            final(self)@ == (CoordinatorView {
                pending: Map::<u64, Pending>::empty(),
                ..old(self)@
            }),
    {
        broadcast use group_hash_axioms;

        let abandoned = self.pending.len();
        self.pending.clear();
        abandoned
    }
}

impl Delivery {
    /// Sends the result through the reply slot. A caller that no longer
    /// waits is no fault: the result is then dropped.
    pub fn deliver(self) {
        match self {
            Delivery::Done { sender, result } => {
                let _ = hand_over(sender, result);
            },
            Delivery::Providers { sender, result } => {
                let _ = hand_over(sender, result);
            },
            Delivery::Content { sender, result } => {
                let _ = hand_over(sender, result);
            },
        }
    }
}

} // verus!
