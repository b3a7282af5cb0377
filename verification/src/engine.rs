//! The narrow interface between the worker and the network engine: what the
//! worker asks of it, and what the engine reports back.

use crate::command::{Command, Done, EngineError, Providers};
use crate::wire::{FileRequest, FileResponse};
use libp2p::{Multiaddr, PeerId};
use tokio::sync::oneshot;
use vstd::prelude::*;

verus! {

/// The producer end of the reply slot of a call whose result the engine
/// reports later, by the kind of result that the call waits for.
#[derive(Debug)]
pub enum Pending {
    Done(oneshot::Sender<Done>),
    Providers(oneshot::Sender<Providers>),
    Content(oneshot::Sender<crate::command::Content>),
}

/// The engine primitive that an action calls for, with its arguments, and
/// with the reply slot that the primitive's outcome is owed to.
///
/// The first two primitives answer on the spot, and their outcome goes
/// straight into `sender`. The next three hand back a correlation token,
/// under which `slot` is to be registered. The last one answers an inbound
/// request and owes nothing to anyone.
#[derive(Debug)]
#[allow(inconsistent_fields)]
pub enum Dispatch<C> {
    BeginListen { address: Multiaddr, sender: oneshot::Sender<Done> },
    BeginDial { peer_id: PeerId, address: Multiaddr, sender: oneshot::Sender<Done> },
    BeginAdvertise { key: String, slot: Pending },
    BeginDiscover { key: String, slot: Pending },
    BeginOutboundRequest { peer_id: PeerId, request: FileRequest, slot: Pending },
    SendResponse { response: FileResponse, reply_token: C },
}

/// What the engine reports: the completion of an operation that it gave a
/// token for, or a request that a remote peer sent unasked.
#[derive(Debug)]
#[allow(inconsistent_fields)]
pub enum EngineEvent<C> {
    AdvertiseDone { token: u64, result: Done },
    DiscoverDone { token: u64, result: Providers },
    RequestDone { token: u64, result: Result<FileResponse, EngineError> },
    InboundRequestReceived { request: FileRequest, reply_token: C },
}

/// A notification for the observer: something the engine reported that no
/// caller had asked for.
#[derive(Debug, PartialEq, Eq)]
pub enum Event<C> {
    InboundRequest { request: String, channel: C },
}

/// The engine primitive for each action.
pub open spec fn dispatch_of<C>(command: Command<C>) -> Dispatch<C> {
    match command {
        Command::StartListening { addr, sender } => Dispatch::BeginListen { address: addr, sender },
        Command::Dial { peer_id, peer_addr, sender } => Dispatch::BeginDial {
            peer_id,
            address: peer_addr,
            sender,
        },
        Command::StartProviding { file_name, sender } => Dispatch::BeginAdvertise {
            key: file_name,
            slot: Pending::Done(sender),
        },
        Command::GetProviders { file_name, sender } => Dispatch::BeginDiscover {
            key: file_name,
            slot: Pending::Providers(sender),
        },
        Command::RequestFile { file_name, peer, sender } => Dispatch::BeginOutboundRequest {
            peer_id: peer,
            request: FileRequest(file_name),
            slot: Pending::Content(sender),
        },
        Command::RespondFile { file, channel } => Dispatch::SendResponse {
            response: FileResponse(file),
            reply_token: channel,
        },
    }
}

/// Turns an action taken from the mailbox into the engine primitive to call.
pub fn dispatch<C>(command: Command<C>) -> (call: Dispatch<C>)
    ensures
        call == dispatch_of(command),
{
    match command {
        Command::StartListening { addr, sender } => Dispatch::BeginListen { address: addr, sender },
        Command::Dial { peer_id, peer_addr, sender } => Dispatch::BeginDial {
            peer_id,
            address: peer_addr,
            sender,
        },
        Command::StartProviding { file_name, sender } => Dispatch::BeginAdvertise {
            key: file_name,
            slot: Pending::Done(sender),
        },
        Command::GetProviders { file_name, sender } => Dispatch::BeginDiscover {
            key: file_name,
            slot: Pending::Providers(sender),
        },
        Command::RequestFile { file_name, peer, sender } => Dispatch::BeginOutboundRequest {
            peer_id: peer,
            request: FileRequest::new(file_name),
            slot: Pending::Content(sender),
        },
        Command::RespondFile { file, channel } => Dispatch::SendResponse {
            response: FileResponse::new(file),
            reply_token: channel,
        },
    }
}

} // verus!
