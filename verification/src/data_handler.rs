//! The entry point for everything that concerns data: each message is told
//! apart by its kind and by who sent it, and sent on its way.

use crate::dispatch::{Dispatch, Dropped, HolderCall, IDataHandlerCall};
use crate::duplication::PendingDuplications;
use crate::identity::{NodePublicId, PublicId};
use crate::names::{MessageId, XorName};
use crate::rpc::{Action, IDataAddress, IDataRequest, Request, Response, Rpc, SrcLocation};
use std::collections::BTreeSet;
use vstd::prelude::*;

verus! {

/// What a data handler is, for the purpose of saying what it does.
pub struct DataHandlerView {
    pub id: NodePublicId,
    /// An elder has, besides the holder of chunks, the handlers of chunk
    /// requests, of mutable data and of sequence data: all three or none.
    pub is_elder: bool,
    /// The copies under way, each with who asked for it.
    pub pending: Map<MessageId, PublicId>,
}

/// Where a request on a chunk goes: to the holder when a section sent it, for
/// then this node was picked to hold the chunk; else to the elder's handler,
/// and nowhere on a node that has none.
pub open spec fn idata_dispatch(
    is_elder: bool,
    src: SrcLocation,
    requester: PublicId,
    request: IDataRequest,
    message_id: MessageId,
) -> Result<Dispatch, Dropped> {
    if src is Section {
        Ok(
            Dispatch::Holder(
                match request {
                    IDataRequest::Put(data) => HolderCall::StoreIData {
                        data,
                        requester,
                        message_id,
                    },
                    IDataRequest::Get(address) => HolderCall::GetIData {
                        address,
                        requester,
                        message_id,
                    },
                    IDataRequest::DeleteUnpub(address) => HolderCall::DeleteUnpubIData {
                        address,
                        requester,
                        message_id,
                    },
                },
            ),
        )
    } else if is_elder {
        Ok(
            Dispatch::IDataHandler(
                match request {
                    IDataRequest::Put(data) => IDataHandlerCall::PutIData {
                        requester,
                        data,
                        message_id,
                    },
                    IDataRequest::Get(address) => IDataHandlerCall::GetIData {
                        requester,
                        address,
                        message_id,
                    },
                    IDataRequest::DeleteUnpub(address) => IDataHandlerCall::DeleteUnpubIData {
                        requester,
                        address,
                        message_id,
                    },
                },
            ),
        )
    } else {
        Err(Dropped::NotApplicableToAdults)
    }
}

/// Where a request goes.
pub open spec fn request_dispatch(
    is_elder: bool,
    src: SrcLocation,
    requester: PublicId,
    request: Request,
    message_id: MessageId,
) -> Result<Dispatch, Dropped> {
    match request {
        Request::IData(idata_req) => idata_dispatch(
            is_elder,
            src,
            requester,
            idata_req,
            message_id,
        ),
        Request::MData(mdata_req) => if is_elder {
            Ok(Dispatch::MDataHandler { requester, request: mdata_req, message_id })
        } else {
            Err(Dropped::NotApplicableToAdults)
        },
        Request::SData(sdata_req) => if is_elder {
            Ok(Dispatch::SDataHandler { requester, request: sdata_req, message_id })
        } else {
            Err(Dropped::NotApplicableToAdults)
        },
        Request::Coins | Request::LoginPacket | Request::Client => Err(Dropped::NotForDataHandler),
    }
}

/// Where a response goes. A chunk that answers a copy under way is stored
/// for whoever asked for the copy; a failure to fetch one is let go.
pub open spec fn response_dispatch(
    is_elder: bool,
    pending: Map<MessageId, PublicId>,
    sender: XorName,
    response: Response,
    message_id: MessageId,
) -> Result<Dispatch, Dropped> {
    match response {
        Response::Mutation(result) => if is_elder {
            Ok(Dispatch::IDataHandler(IDataHandlerCall::MutationResp { sender, result, message_id }))
        } else {
            Err(Dropped::NotApplicableToAdults)
        },
        Response::GetIData(result) => if pending.contains_key(message_id) {
            match result {
                Ok(data) => Ok(
                    Dispatch::Holder(
                        HolderCall::StoreIData { data, requester: pending[message_id], message_id },
                    ),
                ),
                Err(_) => Err(Dropped::CopyFailed),
            }
        } else if is_elder {
            Ok(Dispatch::IDataHandler(IDataHandlerCall::GetIDataResp { sender, result, message_id }))
        } else {
            Err(Dropped::NotApplicableToAdults)
        },
        Response::Other => Err(Dropped::NotForDataHandler),
    }
}

/// The request for a chunk that a node sends to its holders when it is to
/// keep a copy: it asks in its own name, so that the answers come to it.
pub open spec fn copy_request(
    id: NodePublicId,
    address: IDataAddress,
    holders: BTreeSet<XorName>,
    message_id: MessageId,
) -> Action {
    Action::SendToPeers {
        sender: id.name,
        targets: holders,
        rpc: Rpc::Request {
            request: Request::IData(IDataRequest::Get(address)),
            requester: PublicId::Node(id),
            message_id,
        },
    }
}

/// What the order to copy a chunk leads to: the request to its holders, once
/// for each id.
pub open spec fn duplicate_dispatch(
    id: NodePublicId,
    pending: Map<MessageId, PublicId>,
    address: IDataAddress,
    holders: BTreeSet<XorName>,
    message_id: MessageId,
) -> Result<Dispatch, Dropped> {
    if pending.contains_key(message_id) {
        Err(Dropped::CopyUnderWay)
    } else {
        Ok(Dispatch::Act(copy_request(id, address, holders, message_id)))
    }
}

/// What a handler in state `state` decides on `rpc` from `src`.
pub open spec fn dispatch(state: DataHandlerView, src: SrcLocation, rpc: Rpc) -> Result<Dispatch, Dropped> {
    match rpc {
        Rpc::Request { request, requester, message_id } => request_dispatch(
            state.is_elder,
            src,
            requester,
            request,
            message_id,
        ),
        Rpc::Response { response, message_id } => response_dispatch(
            state.is_elder,
            state.pending,
            src.spec_name(),
            response,
            message_id,
        ),
        Rpc::Duplicate { requester, address, holders, message_id } => duplicate_dispatch(
            state.id,
            state.pending,
            address,
            holders,
            message_id,
        ),
    }
}

/// The state after `rpc`: only the order to copy a chunk under a new id
/// leaves a trace.
pub open spec fn after(state: DataHandlerView, rpc: Rpc) -> DataHandlerView {
    match rpc {
        Rpc::Duplicate { requester, message_id, .. } => if state.pending.contains_key(message_id) {
            state
        } else {
            DataHandlerView { pending: state.pending.insert(message_id, requester), ..state }
        },
        _ => state,
    }
}

/// A node's handler of data.
#[derive(Debug)]
pub struct DataHandler {
    id: NodePublicId,
    is_elder: bool,
    idata_copy_op: PendingDuplications,
}

impl View for DataHandler {
    type V = DataHandlerView;

    closed spec fn view(&self) -> DataHandlerView {
        DataHandlerView { id: self.id, is_elder: self.is_elder, pending: self.idata_copy_op@ }
    }
}

impl DataHandler {
    /// The handler of the node `id`, with no copy under way.
    pub fn new(id: NodePublicId, is_elder: bool) -> (handler: DataHandler)
        ensures
            handler@ == (DataHandlerView { id, is_elder, pending: Map::empty() }),
    {
        DataHandler { id, is_elder, idata_copy_op: PendingDuplications::new() }
    }

    /// The node's identity.
    pub fn id(&self) -> (id: NodePublicId)
        ensures
            id == self@.id,
    {
        self.id
    }

    /// Whether the node is an elder.
    pub fn is_elder(&self) -> (is_elder: bool)
        ensures
            is_elder == self@.is_elder,
    {
        self.is_elder
    }

    /// The copies under way.
    pub fn idata_copy_op(&self) -> (pending: &PendingDuplications)
        ensures
            pending@ == self@.pending,
    {
        &self.idata_copy_op
    }

    /// Decides on a message from `src`.
    pub fn handle_vault_rpc(&mut self, src: SrcLocation, rpc: Rpc) -> (out: Result<Dispatch, Dropped>)
        ensures
            out == dispatch(old(self)@, src, rpc),
            final(self)@ == after(old(self)@, rpc),
    {
        match rpc {
            Rpc::Request { request, requester, message_id } => self.handle_request(
                src,
                requester,
                request,
                message_id,
            ),
            Rpc::Response { response, message_id } => self.handle_response(
                src.name(),
                response,
                message_id,
            ),
            Rpc::Duplicate { requester, address, holders, message_id } => {
                self.handle_duplicate_request(requester, address, holders, message_id)
            },
        }
    }

    fn handle_duplicate_request(
        &mut self,
        requester: PublicId,
        address: IDataAddress,
        holders: BTreeSet<XorName>,
        message_id: MessageId,
    ) -> (out: Result<Dispatch, Dropped>)
        ensures
            out == duplicate_dispatch(
                old(self)@.id,
                old(self)@.pending,
                address,
                holders,
                message_id,
            ),
            final(self)@ == after(
                old(self)@,
                Rpc::Duplicate { requester, address, holders, message_id },
            ),
    {
        if self.idata_copy_op.begin(message_id, requester) {
            let our_name = self.id.name;
            let our_id = self.id;
            Ok(
                Dispatch::Act(
                    Action::SendToPeers {
                        sender: our_name,
                        targets: holders,
                        rpc: Rpc::Request {
                            request: Request::IData(IDataRequest::Get(address)),
                            requester: PublicId::Node(our_id),
                            message_id,
                        },
                    },
                ),
            )
        } else {
            Err(Dropped::CopyUnderWay)
        }
    }

    fn handle_request(
        &self,
        src: SrcLocation,
        requester: PublicId,
        request: Request,
        message_id: MessageId,
    ) -> (out: Result<Dispatch, Dropped>)
        ensures
            out == request_dispatch(self@.is_elder, src, requester, request, message_id),
    {
        match request {
            Request::IData(idata_req) => {
                match idata_req {
                    IDataRequest::Put(data) => {
                        if src.is_section() {
                            Ok(
                                Dispatch::Holder(
                                    HolderCall::StoreIData { data, requester, message_id },
                                ),
                            )
                        } else {
                            self.handle_idata_request(
                                IDataHandlerCall::PutIData { requester, data, message_id },
                            )
                        }
                    },
                    IDataRequest::Get(address) => {
                        if src.is_section() {
                            Ok(
                                Dispatch::Holder(
                                    HolderCall::GetIData { address, requester, message_id },
                                ),
                            )
                        } else {
                            self.handle_idata_request(
                                IDataHandlerCall::GetIData { requester, address, message_id },
                            )
                        }
                    },
                    IDataRequest::DeleteUnpub(address) => {
                        if src.is_section() {
                            Ok(
                                Dispatch::Holder(
                                    HolderCall::DeleteUnpubIData { address, requester, message_id },
                                ),
                            )
                        } else {
                            self.handle_idata_request(
                                IDataHandlerCall::DeleteUnpubIData {
                                    requester,
                                    address,
                                    message_id,
                                },
                            )
                        }
                    },
                }
            },
            Request::MData(mdata_req) => {
                if self.is_elder {
                    Ok(Dispatch::MDataHandler { requester, request: mdata_req, message_id })
                } else {
                    Err(Dropped::NotApplicableToAdults)
                }
            },
            Request::SData(sdata_req) => {
                if self.is_elder {
                    Ok(Dispatch::SDataHandler { requester, request: sdata_req, message_id })
                } else {
                    Err(Dropped::NotApplicableToAdults)
                }
            },
            Request::Coins | Request::LoginPacket | Request::Client => Err(
                Dropped::NotForDataHandler,
            ),
        }
    }

    /// Hands `call` to the handler of chunk requests, if the node has one.
    fn handle_idata_request(&self, call: IDataHandlerCall) -> (out: Result<Dispatch, Dropped>)
        ensures
            out == (if self@.is_elder {
                Ok::<Dispatch, Dropped>(Dispatch::IDataHandler(call))
            } else {
                Err(Dropped::NotApplicableToAdults)
            }),
    {
        if self.is_elder {
            Ok(Dispatch::IDataHandler(call))
        } else {
            Err(Dropped::NotApplicableToAdults)
        }
    }

    fn handle_response(&self, src: XorName, response: Response, message_id: MessageId) -> (out:
        Result<Dispatch, Dropped>)
        ensures
            out == response_dispatch(self@.is_elder, self@.pending, src, response, message_id),
    {
        match response {
            Response::Mutation(result) => self.handle_idata_request(
                IDataHandlerCall::MutationResp { sender: src, result, message_id },
            ),
            Response::GetIData(result) => {
                match self.idata_copy_op.resolve(&message_id) {
                    Some(requester) => {
                        match result {
                            Ok(data) => Ok(
                                Dispatch::Holder(
                                    HolderCall::StoreIData { data, requester, message_id },
                                ),
                            ),
                            Err(_) => Err(Dropped::CopyFailed),
                        }
                    },
                    None => self.handle_idata_request(
                        IDataHandlerCall::GetIDataResp { sender: src, result, message_id },
                    ),
                }
            },
            Response::Other => Err(Dropped::NotForDataHandler),
        }
    }

    /// To be called when `node` leaves the section: an elder has the chunks
    /// that `node` held copied to other nodes, and takes `node` off the list
    /// of their holders. A node that is no elder has nothing to do.
    pub fn trigger_chunk_duplication(&self, node: XorName) -> (out: Result<Dispatch, Dropped>)
        ensures
            out == (if self@.is_elder {
                Ok::<Dispatch, Dropped>(
                    Dispatch::IDataHandler(IDataHandlerCall::DataCopyProcess { node }),
                )
            } else {
                Err(Dropped::NotApplicableToAdults)
            }),
    {
        self.handle_idata_request(IDataHandlerCall::DataCopyProcess { node })
    }
}

} // verus!
