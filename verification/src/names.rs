//! Names in the network's address space and the tokens that tie a reply to
//! the request that caused it.

use vstd::prelude::*;
use vstd::std_specs::cmp::PartialEqSpecImpl;

verus! {

/// Length in bytes of an `XorName`.
pub const XOR_NAME_LEN: usize = 32;

/// A 256-bit number, read as a point of the network's address space.
#[derive(Clone, Copy, Debug, Eq, PartialOrd, Ord, Hash)]
pub struct XorName(pub [u8; 32]);

impl PartialEq for XorName {
    fn eq(&self, other: &XorName) -> (equal: bool) {
        let mut i: usize = 0;
        while i < XOR_NAME_LEN
            invariant
                i <= XOR_NAME_LEN,
                forall|j: int| 0 <= j < i ==> self.0[j] == other.0[j],
            decreases XOR_NAME_LEN - i,
        {
            if self.0[i] != other.0[i] {
                return false;
            }
            i += 1;
        }
        assert(self.0 =~= other.0);
        true
    }
}

impl PartialEqSpecImpl for XorName {
    open spec fn obeys_eq_spec() -> bool {
        true
    }

    open spec fn eq_spec(&self, other: &XorName) -> bool {
        *self == *other
    }
}

/// Identifies one message: a reply carries the id of the request it answers.
/// Two ids are either the same or unrelated; there is no order among them.
#[derive(Clone, Copy, Debug, Eq, PartialOrd, Ord, Hash)]
pub struct MessageId(pub XorName);

impl PartialEq for MessageId {
    fn eq(&self, other: &MessageId) -> (equal: bool) {
        self.0 == other.0
    }
}

impl PartialEqSpecImpl for MessageId {
    open spec fn obeys_eq_spec() -> bool {
        true
    }

    open spec fn eq_spec(&self, other: &MessageId) -> bool {
        *self == *other
    }
}

} // verus!
