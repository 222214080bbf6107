use safe_vault::duplication::PendingDuplications;
use safe_vault::identity::{ClientPublicId, NodePublicId, PublicId, PublicKey};
use safe_vault::names::{MessageId, XorName, XOR_NAME_LEN};

fn requester(byte: u8) -> PublicId {
    PublicId::Client(ClientPublicId {
        name: XorName([byte; 32]),
        public_key: PublicKey::BlsShare([byte; 48]),
    })
}

fn id_ending_in(last: u8) -> MessageId {
    let mut bytes = [0u8; 32];
    bytes[31] = last;
    MessageId(XorName(bytes))
}

#[test]
fn names_are_equal_when_every_byte_is() {
    assert_eq!(XOR_NAME_LEN, 32);
    assert_eq!(XorName([5; 32]), XorName([5; 32]));
    let mut bytes = [5u8; 32];
    bytes[31] = 6;
    assert_ne!(XorName([5; 32]), XorName(bytes));
    let mut bytes = [5u8; 32];
    bytes[0] = 6;
    assert_ne!(XorName([5; 32]), XorName(bytes));
    assert_eq!(id_ending_in(1), id_ending_in(1));
    assert_ne!(id_ending_in(1), id_ending_in(2));
}

#[test]
fn nothing_is_pending_at_first() {
    let pending = PendingDuplications::new();
    assert_eq!(pending.len(), 0);
    assert_eq!(pending.resolve(&id_ending_in(0)), None);
    assert!(!pending.contains(&id_ending_in(0)));
}

#[test]
fn begin_records_the_requester_once() {
    let mut pending = PendingDuplications::new();
    assert!(pending.begin(id_ending_in(1), requester(10)));
    assert!(pending.contains(&id_ending_in(1)));
    assert_eq!(pending.resolve(&id_ending_in(1)), Some(requester(10)));
    assert_eq!(pending.len(), 1);
    assert!(!pending.begin(id_ending_in(1), requester(11)));
    assert_eq!(pending.resolve(&id_ending_in(1)), Some(requester(10)));
    assert_eq!(pending.len(), 1);
}

#[test]
fn resolve_leaves_the_entry() {
    let mut pending = PendingDuplications::new();
    assert!(pending.begin(id_ending_in(1), requester(10)));
    assert_eq!(pending.resolve(&id_ending_in(1)), Some(requester(10)));
    assert_eq!(pending.resolve(&id_ending_in(1)), Some(requester(10)));
    assert!(!pending.begin(id_ending_in(1), requester(10)));
}

#[test]
fn ids_that_differ_in_one_byte_are_kept_apart() {
    let mut pending = PendingDuplications::new();
    assert!(pending.begin(id_ending_in(1), requester(10)));
    assert!(pending.begin(id_ending_in(2), requester(20)));
    assert!(pending.begin(id_ending_in(3), PublicId::Node(NodePublicId {
        name: XorName([30; 32]),
        ed25519: [30; 32],
        bls: Some([31; 48]),
    })));
    assert_eq!(pending.resolve(&id_ending_in(1)), Some(requester(10)));
    assert_eq!(pending.resolve(&id_ending_in(2)), Some(requester(20)));
    assert_eq!(
        pending.resolve(&id_ending_in(3)),
        Some(PublicId::Node(NodePublicId { name: XorName([30; 32]), ed25519: [30; 32], bls: Some([31; 48]) }))
    );
    assert_eq!(pending.resolve(&id_ending_in(4)), None);
    assert_eq!(pending.len(), 3);
}
