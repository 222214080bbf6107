//! What a message carries and this node hands on without looking inside:
//! chunks, requests on mutable and sequence data, and the errors that come
//! back. They are the types of `safe_nd`, taken as they are.

use vstd::prelude::*;

verus! {

/// `safe_nd::IData`, a chunk of immutable data: its address is the hash of
/// what it holds, which `safe_nd` sees to whenever one is made.
#[verifier::external_type_specification]
#[verifier::external_body]
pub struct ExIData(safe_nd::IData);

/// `safe_nd::MDataRequest`, a request on mutable data.
#[verifier::external_type_specification]
#[verifier::external_body]
pub struct ExMDataRequest(safe_nd::MDataRequest);

/// `safe_nd::SDataRequest`, a request on sequence data.
#[verifier::external_type_specification]
#[verifier::external_body]
pub struct ExSDataRequest(safe_nd::SDataRequest);

/// `safe_nd::Error`, the reason a request failed.
#[verifier::external_type_specification]
#[verifier::external_body]
pub struct ExNdError(safe_nd::Error);

} // verus!
