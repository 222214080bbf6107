//! A request to read a chunk, and the test it must pass before the store is
//! touched: that a section sent it, and that the section's signature on it
//! holds.

use crate::bls::{bls_signature_valid, bls_verify};
use crate::identity::{PublicKey, Signature};
use crate::names::{MessageId, XorName};
use vstd::prelude::*;

verus! {

/// Where a blob lives, and whether it is private.
#[derive(Clone, Copy, Debug, PartialEq, Eq)]
pub enum BlobAddress {
    Private(XorName),
    Public(XorName),
}

/// A request to read a blob.
#[derive(Clone, Copy, Debug, PartialEq, Eq)]
pub enum BlobRead {
    Get(BlobAddress),
}

/// Who sent or passed on a message, with the signature put on it. A client
/// and a node sign for themselves. A section signs with the key that stands
/// for its members' agreement: its signature is the proof that enough of
/// them took part.
#[allow(inconsistent_fields)]
#[derive(Clone, Copy, Debug, PartialEq, Eq)]
pub enum MsgSender {
    Client { id: PublicKey, signature: Signature },
    Node { id: PublicKey, signature: Signature },
    Section { id: [u8; 48], signature: [u8; 96] },
}

/// A message under way: what was signed, by whom it was sent first, and by
/// whom it was passed on since, the latest last.
#[derive(Debug, PartialEq)]
pub struct MsgEnvelope {
    pub id: MessageId,
    /// The bytes that the most recent sender put its signature on.
    pub payload: Vec<u8>,
    pub origin: MsgSender,
    pub proxies: Vec<MsgSender>,
}

impl MsgEnvelope {
    /// The last to pass the message on, or its origin if nobody did.
    pub open spec fn spec_most_recent_sender(&self) -> MsgSender {
        if self.proxies@.len() == 0 {
            self.origin
        } else {
            self.proxies@.last()
        }
    }

    #[verifier::when_used_as_spec(spec_most_recent_sender)]
    pub fn most_recent_sender(&self) -> (sender: MsgSender)
        ensures
            sender == self.spec_most_recent_sender(),
    {
        let n: usize = self.proxies.len();
        if n == 0 {
            self.origin
        } else {
            self.proxies[n - 1]
        }
    }
}

/// What is asked of the store when a read is let through.
#[derive(Clone, Copy, Debug, PartialEq, Eq)]
pub struct ChunkGet {
    pub address: BlobAddress,
    pub message_id: MessageId,
    pub origin: MsgSender,
}

/// Why a read is refused.
#[derive(Clone, Copy, Debug, PartialEq, Eq)]
pub enum Refused {
    /// The message last came from a client or a single node.
    NotFromSection,
    /// The message claims to come from a section, and the signature that
    /// should prove it does not hold.
    InvalidSignature,
}

/// Whether the most recent sender of `msg` is a section whose signature on
/// the payload holds. That a sender calls itself a section is a claim; the
/// signature is the proof of it.
pub open spec fn section_vouches(msg: MsgEnvelope) -> bool {
    match msg.spec_most_recent_sender() {
        MsgSender::Section { id, signature } => bls_signature_valid(id@, signature@, msg.payload@),
        _ => false,
    }
}

/// What becomes of a read, given whether the signature of the message's
/// most recent sender holds. The two tests are kept apart: who sent the
/// message is looked at first and by itself.
pub open spec fn read_verdict(read: BlobRead, msg: MsgEnvelope, signature_holds: bool) -> Result<
    ChunkGet,
    Refused,
> {
    if !(msg.spec_most_recent_sender() is Section) {
        Err(Refused::NotFromSection)
    } else if !signature_holds {
        Err(Refused::InvalidSignature)
    } else {
        Ok(ChunkGet { address: read->Get_0, message_id: msg.id, origin: msg.origin })
    }
}

/// What becomes of a read: it is let through to the store only if a section
/// vouches for the message that brought it.
pub open spec fn read_outcome(read: BlobRead, msg: MsgEnvelope) -> Result<ChunkGet, Refused> {
    read_verdict(read, msg, section_vouches(msg))
}

/// A read that is not the latest doing of a section is refused for that,
/// whether or not a signature on it holds.
pub proof fn law_read_needs_section(read: BlobRead, msg: MsgEnvelope, signature_holds: bool)
    requires
        !(msg.spec_most_recent_sender() is Section),
    ensures
        read_verdict(read, msg, signature_holds) == Err::<ChunkGet, Refused>(
            Refused::NotFromSection,
        ),
        read_outcome(read, msg) == Err::<ChunkGet, Refused>(Refused::NotFromSection),
{
}

/// A read whose signature does not hold is refused, though the sender be a
/// section.
pub proof fn law_read_needs_valid_signature(read: BlobRead, msg: MsgEnvelope)
    ensures
        read_verdict(read, msg, false) is Err,
        msg.spec_most_recent_sender() is Section ==> read_verdict(read, msg, false) == Err::<
            ChunkGet,
            Refused,
        >(Refused::InvalidSignature),
        !section_vouches(msg) ==> read_outcome(read, msg) is Err,
        msg.spec_most_recent_sender() matches MsgSender::Section { id, signature } ==> (
        !bls_signature_valid(id@, signature@, msg.payload@) ==> read_outcome(read, msg) == Err::<
            ChunkGet,
            Refused,
        >(Refused::InvalidSignature)),
{
}

/// A read of a chunk together with the message that brought it.
#[derive(Debug, PartialEq)]
pub struct Reading {
    read: BlobRead,
    msg: MsgEnvelope,
}

impl Reading {
    pub closed spec fn read(&self) -> BlobRead {
        self.read
    }

    pub closed spec fn msg(&self) -> MsgEnvelope {
        self.msg
    }

    pub fn new(read: BlobRead, msg: MsgEnvelope) -> (reading: Reading)
        ensures
            reading.read() == read,
            reading.msg() == msg,
    {
        Reading { read, msg }
    }

    /// What to ask of the store for `read`, which `msg` brought, or why the
    /// read is refused; `signature_holds` says whether the signature of the
    /// most recent sender holds.
    pub fn verdict(read: BlobRead, msg: &MsgEnvelope, signature_holds: bool) -> (get: Result<
        ChunkGet,
        Refused,
    >)
        ensures
            get == read_verdict(read, *msg, signature_holds),
    {
        let BlobRead::Get(address) = read;
        match msg.most_recent_sender() {
            MsgSender::Section { .. } => {
                if signature_holds {
                    Ok(ChunkGet { address, message_id: msg.id, origin: msg.origin })
                } else {
                    Err(Refused::InvalidSignature)
                }
            },
            _ => Err(Refused::NotFromSection),
        }
    }

    /// What to ask of the store, or why the read is refused.
    pub fn get_result(&self) -> (get: Result<ChunkGet, Refused>)
        ensures
            get == read_outcome(self.read(), self.msg()),
    {
        let signature_holds = self.verify_msg();
        Reading::verdict(self.read, &self.msg, signature_holds)
    }

    /// Whether a section vouches for the message. The signature of a client
    /// or of a single node is not looked at.
    fn verify_msg(&self) -> (valid: bool)
        ensures
            valid == section_vouches(self.msg()),
    {
        match self.msg.most_recent_sender() {
            MsgSender::Section { id, signature } => bls_verify(
                &id,
                &signature,
                self.msg.payload.as_slice(),
            ),
            _ => false,
        }
    }
}

} // verus!
