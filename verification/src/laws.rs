//! What holds of a data handler whatever it is sent, stated over
//! `dispatch` and `after`, by which `DataHandler::handle_vault_rpc` is
//! specified.

use crate::data_handler::{after, copy_request, dispatch, idata_dispatch, DataHandlerView};
use crate::dispatch::{Dispatch, Dropped, HolderCall};
use crate::identity::PublicId;
use crate::names::{MessageId, XorName};
use crate::rpc::{IDataAddress, IDataRequest, Request, Response, Rpc, SrcLocation};
use std::collections::BTreeSet;
use vstd::prelude::*;

verus! {

/// Of two orders to copy a chunk under one id, the first yields the one
/// request to the holders, provided no copy with that id was under way; the
/// second yields nothing and changes nothing, whatever else it says.
pub proof fn law_copy_requested_once(
    state: DataHandlerView,
    message_id: MessageId,
    first_src: SrcLocation,
    first_requester: PublicId,
    first_address: IDataAddress,
    first_holders: BTreeSet<XorName>,
    second_src: SrcLocation,
    second_requester: PublicId,
    second_address: IDataAddress,
    second_holders: BTreeSet<XorName>,
)
    requires
        !state.pending.contains_key(message_id),
    ensures
        ({
            let first = Rpc::Duplicate {
                requester: first_requester,
                address: first_address,
                holders: first_holders,
                message_id,
            };
            let second = Rpc::Duplicate {
                requester: second_requester,
                address: second_address,
                holders: second_holders,
                message_id,
            };
            &&& dispatch(state, first_src, first) == Ok::<Dispatch, Dropped>(
                Dispatch::Act(copy_request(state.id, first_address, first_holders, message_id)),
            )
            &&& dispatch(after(state, first), second_src, second) == Err::<Dispatch, Dropped>(
                Dropped::CopyUnderWay,
            )
            &&& after(after(state, first), second) == after(state, first)
        }),
{
}

/// Whether a request on a chunk goes to the holder or to the elder's handler
/// is settled by who sent it, a section or a single node, and by nothing that
/// the request says: not by its kind, its chunk, its requester or its id.
pub proof fn law_idata_route_by_sender(
    state: DataHandlerView,
    src: SrcLocation,
    requester: PublicId,
    request: IDataRequest,
    message_id: MessageId,
    other_src: SrcLocation,
    other_requester: PublicId,
    other_request: IDataRequest,
    other_message_id: MessageId,
)
    ensures
        ({
            let out = dispatch(
                state,
                src,
                Rpc::Request { request: Request::IData(request), requester, message_id },
            );
            let other_out = dispatch(
                state,
                other_src,
                Rpc::Request {
                    request: Request::IData(other_request),
                    requester: other_requester,
                    message_id: other_message_id,
                },
            );
            &&& out == idata_dispatch(state.is_elder, src, requester, request, message_id)
            &&& src is Section ==> (out matches Ok(Dispatch::Holder(_)))
            &&& src is Node && state.is_elder ==> (out matches Ok(Dispatch::IDataHandler(_)))
            &&& src is Node && !state.is_elder ==> out == Err::<Dispatch, Dropped>(
                Dropped::NotApplicableToAdults,
            )
            &&& (src is Section) == (other_src is Section) ==> {
                &&& (out matches Ok(Dispatch::Holder(_))) == (other_out matches Ok(
                    Dispatch::Holder(_),
                ))
                &&& (out matches Ok(Dispatch::IDataHandler(_))) == (other_out matches Ok(
                    Dispatch::IDataHandler(_),
                ))
                &&& (out is Err) == (other_out is Err)
                &&& out is Err ==> out == other_out
            }
            &&& after(
                state,
                Rpc::Request { request: Request::IData(request), requester, message_id },
            ) == state
        }),
{
}

/// A chunk that arrives under the id of a copy under way is to be stored for
/// whoever asked for the copy, whoever sent the chunk; and the copy stays
/// under way.
pub proof fn law_copy_stored_for_requester(
    state: DataHandlerView,
    src: SrcLocation,
    data: safe_nd::IData,
    message_id: MessageId,
)
    requires
        state.pending.contains_key(message_id),
    ensures
        ({
            let reply = Rpc::Response { response: Response::GetIData(Ok(data)), message_id };
            &&& dispatch(state, src, reply) == Ok::<Dispatch, Dropped>(
                Dispatch::Holder(
                    HolderCall::StoreIData {
                        data,
                        requester: state.pending[message_id],
                        message_id,
                    },
                ),
            )
            &&& after(state, reply) == state
        }),
{
}

/// The one for whom a copied chunk is stored is the requester that the order
/// to copy named, not the node that the chunk came from.
pub proof fn law_copy_stored_for_who_ordered(
    state: DataHandlerView,
    message_id: MessageId,
    order_src: SrcLocation,
    requester: PublicId,
    address: IDataAddress,
    holders: BTreeSet<XorName>,
    reply_src: SrcLocation,
    data: safe_nd::IData,
)
    requires
        !state.pending.contains_key(message_id),
    ensures
        ({
            let order = Rpc::Duplicate { requester, address, holders, message_id };
            let reply = Rpc::Response { response: Response::GetIData(Ok(data)), message_id };
            dispatch(after(state, order), reply_src, reply) == Ok::<Dispatch, Dropped>(
                Dispatch::Holder(HolderCall::StoreIData { data, requester, message_id }),
            )
        }),
{
}

/// A failed fetch under the id of a copy under way leads to nothing, and the
/// copy stays under way for the same requester.
pub proof fn law_failed_copy_dropped(
    state: DataHandlerView,
    src: SrcLocation,
    error: safe_nd::Error,
    message_id: MessageId,
)
    requires
        state.pending.contains_key(message_id),
    ensures
        ({
            let reply = Rpc::Response { response: Response::GetIData(Err(error)), message_id };
            &&& dispatch(state, src, reply) == Err::<Dispatch, Dropped>(Dropped::CopyFailed)
            &&& after(state, reply) == state
        }),
{
}

/// On a node that is no elder, a request on mutable or on sequence data
/// leads to nothing.
pub proof fn law_adult_drops_mutable_data(
    state: DataHandlerView,
    src: SrcLocation,
    requester: PublicId,
    request: Request,
    message_id: MessageId,
)
    requires
        !state.is_elder,
        request is MData || request is SData,
    ensures
        dispatch(state, src, Rpc::Request { request, requester, message_id }) == Err::<
            Dispatch,
            Dropped,
        >(Dropped::NotApplicableToAdults),
        after(state, Rpc::Request { request, requester, message_id }) == state,
{
}

} // verus!
