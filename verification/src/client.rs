//! The handle through which callers ask for network actions.

use crate::channel::{another_sender, bounded_queue, reply_slot};
use crate::command::{CallError, Command, Content, Done, EngineError, Providers};
use crate::coordinator::{Coordinator, CoordinatorView};
use crate::engine::{Event, Pending};
use libp2p::{Multiaddr, PeerId};
use tokio::sync::mpsc;
use tokio::sync::mpsc::error::SendError;
use tokio::sync::oneshot;
use tokio::sync::oneshot::error::RecvError;
use vstd::prelude::*;

verus! {

/// How many actions the mailbox holds before a caller has to wait.
pub const MAILBOX_CAPACITY: usize = 1;

/// How many notifications wait for the observer before the worker has to.
pub const NOTIFICATION_CAPACITY: usize = 1;

/// A handle on the worker. It holds the sending half of the mailbox and no
/// network state, so any number of copies may be in use at once.
#[verifier::reject_recursive_types(C)]
pub struct Client<C> {
    sender: mpsc::Sender<Command<C>>,
}

/// The worker's side of the wiring: where actions arrive, where
/// notifications leave, and the bookkeeping in between.
#[verifier::reject_recursive_types(C)]
pub struct EventLoop<C> {
    pub command_receiver: mpsc::Receiver<Command<C>>,
    pub event_sender: mpsc::Sender<Event<C>>,
    pub coordinator: Coordinator,
}

impl<C> Clone for Client<C> {
    fn clone(&self) -> (copy: Self) {
        Client { sender: another_sender(&self.sender) }
    }
}

impl<C> Client<C> {
    /// Wires up a handle, the notification stream and the worker's side, with
    /// a mailbox of [`MAILBOX_CAPACITY`] and nothing outstanding.
    pub fn new() -> (wiring: (Client<C>, mpsc::Receiver<Event<C>>, EventLoop<C>))
        ensures
            wiring.2.coordinator@ == (CoordinatorView {
                pending: Map::<u64, Pending>::empty(),
                mailbox_open: true,
                engine_active: true,
            }),
    {
        let (command_sender, command_receiver) = bounded_queue(MAILBOX_CAPACITY);
        let (event_sender, event_receiver) = bounded_queue(NOTIFICATION_CAPACITY);
        (
            Client { sender: command_sender },
            event_receiver,
            EventLoop { command_receiver, event_sender, coordinator: Coordinator::new() },
        )
    }

    /// The sending half of the mailbox that this handle holds.
    pub closed spec fn queue(&self) -> mpsc::Sender<Command<C>> {
        self.sender
    }

    /// The sending half of the mailbox.
    pub fn mailbox(&self) -> (sender: &mpsc::Sender<Command<C>>)
        ensures
            *sender == self.queue(),
    {
        &self.sender
    }

    /// The action that starts listening on `addr`, with the consumer end of
    /// its fresh reply slot.
    pub fn start_listening(&self, addr: Multiaddr) -> (call: (
        Command<C>,
        oneshot::Receiver<Done>,
    ))
        ensures
            call.0 is StartListening,
            call.0->StartListening_addr == addr,
    {
        let (sender, receiver) = reply_slot();
        (Command::StartListening { addr, sender }, receiver)
    }

    /// The action that dials `peer_id` at `peer_addr`, with the consumer end
    /// of its fresh reply slot.
    pub fn dial(&self, peer_id: PeerId, peer_addr: Multiaddr) -> (call: (
        Command<C>,
        oneshot::Receiver<Done>,
    ))
        ensures
            call.0 is Dial,
            call.0->Dial_peer_id == peer_id,
            call.0->Dial_peer_addr == peer_addr,
    {
        let (sender, receiver) = reply_slot();
        (Command::Dial { peer_id, peer_addr, sender }, receiver)
    }

    /// The action that advertises the local node as a provider of
    /// `file_name`, with the consumer end of its fresh reply slot.
    pub fn start_providing(&self, file_name: String) -> (call: (
        Command<C>,
        oneshot::Receiver<Done>,
    ))
        ensures
            call.0 is StartProviding,
            call.0->StartProviding_file_name == file_name,
    {
        let (sender, receiver) = reply_slot();
        (Command::StartProviding { file_name, sender }, receiver)
    }

    /// The action that looks up the providers of `file_name`, with the
    /// consumer end of its fresh reply slot.
    pub fn get_providers(&self, file_name: String) -> (call: (
        Command<C>,
        oneshot::Receiver<Providers>,
    ))
        ensures
            call.0 is GetProviders,
            call.0->GetProviders_file_name == file_name,
    {
        let (sender, receiver) = reply_slot();
        (Command::GetProviders { file_name, sender }, receiver)
    }

    /// The action that asks `peer` for the content of `file_name`, with the
    /// consumer end of its fresh reply slot.
    pub fn request_file(&self, peer: PeerId, file_name: String) -> (call: (
        Command<C>,
        oneshot::Receiver<Content>,
    ))
        ensures
            call.0 is RequestFile,
            call.0->RequestFile_file_name == file_name,
            call.0->RequestFile_peer == peer,
    {
        let (sender, receiver) = reply_slot();
        (Command::RequestFile { file_name, peer, sender }, receiver)
    }

    /// The action that answers an inbound request with `file`. It has no
    /// reply slot: once it is in the mailbox the call is over.
    pub fn respond_file(&self, file: Vec<u8>, channel: C) -> (command: Command<C>)
        ensures
            command == (Command::RespondFile { file, channel }),
    {
        Command::RespondFile { file, channel }
    }
}

/// What a call makes of the mailbox's answer: a mailbox that took the action
/// lets the call go on, one that is closed ends it.
pub fn submitted<T>(sent: Result<(), SendError<T>>) -> (outcome: Result<(), CallError>)
    ensures
        outcome == (match sent {
            Ok(_) => Ok::<(), CallError>(()),
            Err(_) => Err(CallError::MailboxClosed),
        }),
{
    match sent {
        Ok(_) => Ok(()),
        Err(_) => Err(CallError::MailboxClosed),
    }
}

/// What a call makes of its reply slot: the result that came through it, as
/// it is, or `ResultLost` where the producer end was dropped first.
pub fn received<T>(reply: Result<Result<T, EngineError>, RecvError>) -> (outcome: Result<
    T,
    CallError,
>)
    ensures
        outcome == (match reply {
            Ok(Ok(value)) => Ok::<T, CallError>(value),
            Ok(Err(error)) => Err(CallError::Engine(error)),
            Err(_) => Err(CallError::ResultLost),
        }),
{
    match reply {
        Ok(Ok(value)) => Ok(value),
        Ok(Err(error)) => Err(CallError::Engine(error)),
        Err(_) => Err(CallError::ResultLost),
    }
}

} // verus!
