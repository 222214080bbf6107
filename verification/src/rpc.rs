//! The messages that reach a node and the commands it gives in return.

use crate::identity::PublicId;
use crate::names::{MessageId, XorName};
use std::collections::BTreeSet;
use vstd::prelude::*;

verus! {

/// Where a chunk lives: the hash of its content, and whether it is published.
#[derive(Clone, Copy, Debug, PartialEq, Eq)]
pub enum IDataAddress {
    Unpub(XorName),
    Pub(XorName),
}

/// A request on a chunk.
#[derive(Debug, PartialEq)]
pub enum IDataRequest {
    Put(safe_nd::IData),
    Get(IDataAddress),
    DeleteUnpub(IDataAddress),
}

/// A request. Those on coins, login packets and client keys are none of a
/// data handler's business; what they carry is left behind.
#[derive(Debug, PartialEq)]
pub enum Request {
    IData(IDataRequest),
    MData(safe_nd::MDataRequest),
    SData(safe_nd::SDataRequest),
    Coins,
    LoginPacket,
    Client,
}

/// A response. Only the outcome of a mutation and of a chunk fetch concern a
/// data handler; every other kind is `Other`.
#[derive(Debug, PartialEq)]
pub enum Response {
    Mutation(Result<(), safe_nd::Error>),
    GetIData(Result<safe_nd::IData, safe_nd::Error>),
    Other,
}

/// What the transport delivers to a node.
#[derive(Debug, PartialEq)]
pub enum Rpc {
    /// A request, with who makes it.
    Request { request: Request, requester: PublicId, message_id: MessageId },
    /// The answer to the request of the same id.
    Response { response: Response, message_id: MessageId },
    /// The order to fetch the chunk at `address` from `holders` and keep a
    /// copy, on behalf of `requester`.
    Duplicate {
        requester: PublicId,
        address: IDataAddress,
        holders: BTreeSet<XorName>,
        message_id: MessageId,
    },
}

/// Who sent a message, as the transport made it out: one node, or a section
/// whose members agreed on it.
#[derive(Clone, Copy, Debug, PartialEq, Eq)]
pub enum SrcLocation {
    Node(XorName),
    Section(XorName),
}

impl SrcLocation {
    /// The sender's name: a node's own, or the name of a section's prefix.
    pub open spec fn spec_name(&self) -> XorName {
        match *self {
            SrcLocation::Node(name) => name,
            SrcLocation::Section(name) => name,
        }
    }

    #[verifier::when_used_as_spec(spec_name)]
    pub fn name(&self) -> (name: XorName)
        ensures
            name == self.spec_name(),
    {
        match self {
            SrcLocation::Node(name) => *name,
            SrcLocation::Section(name) => *name,
        }
    }

    pub open spec fn spec_is_section(&self) -> bool {
        *self is Section
    }

    #[verifier::when_used_as_spec(spec_is_section)]
    pub fn is_section(&self) -> (yes: bool)
        ensures
            yes == (*self is Section),
    {
        match self {
            SrcLocation::Section(_) => true,
            SrcLocation::Node(_) => false,
        }
    }
}

/// A command to the transport. A node never sends anything itself.
#[derive(Debug, PartialEq)]
pub enum Action {
    /// Send `rpc` to `target`.
    Forward { sender: XorName, target: XorName, rpc: Rpc },
    /// Send `rpc` to every one of `targets`.
    SendToPeers { sender: XorName, targets: BTreeSet<XorName>, rpc: Rpc },
}

} // verus!
