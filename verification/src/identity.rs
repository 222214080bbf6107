//! Public identities of the parties that talk to a node.

use crate::names::XorName;
use vstd::prelude::*;

verus! {

/// A public key, as the bytes of its compressed form.
#[derive(Clone, Copy, Debug, PartialEq, Eq)]
pub enum PublicKey {
    Ed25519([u8; 32]),
    Bls([u8; 48]),
    BlsShare([u8; 48]),
}

/// A signature, as the bytes of its compressed form.
#[derive(Clone, Copy, Debug, PartialEq, Eq)]
pub enum Signature {
    Ed25519([u8; 64]),
    Bls([u8; 96]),
    BlsShare([u8; 96]),
}

/// The public identity of a node: its name in the address space, its
/// Ed25519 key and, once it takes part in a section, its BLS key share.
#[derive(Clone, Copy, Debug, PartialEq, Eq)]
pub struct NodePublicId {
    pub name: XorName,
    pub ed25519: [u8; 32],
    pub bls: Option<[u8; 48]>,
}

/// The public identity of a client.
#[derive(Clone, Copy, Debug, PartialEq, Eq)]
pub struct ClientPublicId {
    pub name: XorName,
    pub public_key: PublicKey,
}

/// The public identity of an application that acts for a client.
#[derive(Clone, Copy, Debug, PartialEq, Eq)]
pub struct AppPublicId {
    pub owner: ClientPublicId,
    pub public_key: PublicKey,
}

/// Who asked: a node, a client or an application.
#[derive(Clone, Copy, Debug, PartialEq, Eq)]
pub enum PublicId {
    Node(NodePublicId),
    Client(ClientPublicId),
    App(AppPublicId),
}

} // verus!
