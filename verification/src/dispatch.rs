//! What a data handler decides on a message.
//!
//! The handler keeps no store and knows no section. It names the work and
//! who is to do it: the holder of chunks, which every node has, or one of the
//! handlers that only an elder has. Whoever owns those performs the call and
//! passes the answer on to the transport.

use crate::identity::PublicId;
use crate::names::{MessageId, XorName};
use crate::rpc::{Action, IDataAddress};
use vstd::prelude::*;

verus! {

/// A call on the holder of chunks.
#[derive(Debug, PartialEq)]
pub enum HolderCall {
    StoreIData { data: safe_nd::IData, requester: PublicId, message_id: MessageId },
    GetIData { address: IDataAddress, requester: PublicId, message_id: MessageId },
    DeleteUnpubIData { address: IDataAddress, requester: PublicId, message_id: MessageId },
}

/// A call on an elder's handler of chunk requests.
#[allow(inconsistent_fields)]
#[derive(Debug, PartialEq)]
pub enum IDataHandlerCall {
    PutIData { requester: PublicId, data: safe_nd::IData, message_id: MessageId },
    GetIData { requester: PublicId, address: IDataAddress, message_id: MessageId },
    DeleteUnpubIData { requester: PublicId, address: IDataAddress, message_id: MessageId },
    /// A holder's answer to a mutation.
    MutationResp { sender: XorName, result: Result<(), safe_nd::Error>, message_id: MessageId },
    /// A holder's answer to a fetch.
    GetIDataResp {
        sender: XorName,
        result: Result<safe_nd::IData, safe_nd::Error>,
        message_id: MessageId,
    },
    /// `node` has left: have the chunks it held copied elsewhere.
    DataCopyProcess { node: XorName },
}

/// Why a message leads to nothing. To the sender each looks the same: no
/// answer comes.
#[derive(Clone, Copy, Debug, PartialEq, Eq)]
pub enum Dropped {
    /// The message is for a handler that only an elder has. This is common
    /// and no fault.
    NotApplicableToAdults,
    /// No data handler should be sent a message of this kind: its sender is
    /// at fault.
    NotForDataHandler,
    /// A copy with this id is under way already: the order was delivered
    /// twice.
    CopyUnderWay,
    /// A holder could not give the chunk that was to be copied. No other
    /// holder is asked in its place.
    CopyFailed,
}

/// What a message calls for.
#[allow(inconsistent_fields)]
#[derive(Debug, PartialEq)]
pub enum Dispatch {
    /// A command of the handler's own making, ready for the transport.
    Act(Action),
    Holder(HolderCall),
    IDataHandler(IDataHandlerCall),
    /// A call on an elder's handler of mutable data.
    MDataHandler { requester: PublicId, request: safe_nd::MDataRequest, message_id: MessageId },
    /// A call on an elder's handler of sequence data.
    SDataHandler { requester: PublicId, request: safe_nd::SDataRequest, message_id: MessageId },
}

} // verus!
