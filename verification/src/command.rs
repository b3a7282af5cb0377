//! The actions that handles put into the mailbox, and what comes back.

use libp2p::{Multiaddr, PeerId};
use std::collections::HashSet;
use tokio::sync::oneshot;
use vstd::prelude::*;

verus! {

/// A network address: `libp2p::Multiaddr`. The coordination layer carries
/// addresses to the engine and never looks inside one.
#[verifier::external_type_specification]
#[verifier::external_body]
pub struct ExMultiaddr(Multiaddr);

/// A peer's identity: `libp2p::PeerId`. Carried through like an address.
#[verifier::external_type_specification]
#[verifier::external_body]
pub struct ExPeerId(PeerId);

/// A failure that the network engine reported. This layer neither reads nor
/// retries it: the caller gets it as the engine gave it.
#[derive(Debug, Clone, PartialEq, Eq)]
pub struct EngineError {
    pub reason: String,
}

/// Why a call on a handle failed.
#[derive(Debug, Clone, PartialEq, Eq)]
pub enum CallError {
    /// The worker has shut down and the mailbox takes no more actions.
    MailboxClosed,
    /// The reply slot was abandoned before anything was sent through it.
    ResultLost,
    /// The engine reported a failure.
    Engine(EngineError),
}

/// What listening, dialing and advertising yield.
pub type Done = Result<(), EngineError>;

/// What a provider lookup yields.
pub type Providers = Result<HashSet<PeerId>, EngineError>;

/// What a content request yields.
pub type Content = Result<Vec<u8>, EngineError>;

/// One requested operation. Every variant but the last carries the producer
/// end of the caller's reply slot; `C` is the engine's reply token for an
/// inbound request.
#[derive(Debug)]
#[allow(inconsistent_fields)]
pub enum Command<C> {
    StartListening { addr: Multiaddr, sender: oneshot::Sender<Done> },
    Dial { peer_id: PeerId, peer_addr: Multiaddr, sender: oneshot::Sender<Done> },
    StartProviding { file_name: String, sender: oneshot::Sender<Done> },
    GetProviders { file_name: String, sender: oneshot::Sender<Providers> },
    RequestFile { file_name: String, peer: PeerId, sender: oneshot::Sender<Content> },
    RespondFile { file: Vec<u8>, channel: C },
}

} // verus!
