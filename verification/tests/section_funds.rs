use safe_vault::names::{MessageId, XorName};
use safe_vault::section_funds::{
    ActorEvent, Message, NetworkCmd, SectionFunds, TransferInitiated, TransferValidationReceived,
};

type Funds = SectionFunds<Vec<u8>, u32, String>;

fn id(byte: u8) -> MessageId {
    MessageId(XorName([byte; 32]))
}

#[test]
fn new_funds_have_nothing_to_apply() {
    let mut funds = Funds::new();
    assert_eq!(funds.applying(), &None);
    assert_eq!(funds.applied(true, id(1)), None);
}

#[test]
fn payout_is_applied_then_announced() {
    let mut funds = Funds::new();
    let answer: Result<_, ()> = Ok(Some(TransferInitiated { signed_transfer: vec![1u8, 2, 3] }));
    assert!(funds.initiate_reward_payout(answer));
    assert_eq!(
        funds.applying(),
        &Some(ActorEvent::TransferInitiated(TransferInitiated { signed_transfer: vec![1u8, 2, 3] }))
    );
    assert_eq!(
        funds.applied(true, id(9)),
        Some(Message::NetworkCmd { cmd: NetworkCmd::InitiateRewardPayout(vec![1u8, 2, 3]), id: id(9) })
    );
    assert_eq!(funds.applying(), &None);
    assert_eq!(funds.applied(true, id(9)), None);
}

#[test]
fn payout_that_could_not_be_applied_is_not_announced() {
    let mut funds = Funds::new();
    let answer: Result<_, ()> = Ok(Some(TransferInitiated { signed_transfer: vec![1u8] }));
    assert!(funds.initiate_reward_payout(answer));
    assert_eq!(funds.applied(false, id(9)), None);
    assert_eq!(funds.applying(), &None);
}

#[test]
fn payout_without_transfer_stops() {
    let mut funds = Funds::new();
    let nothing: Result<Option<TransferInitiated<Vec<u8>>>, &str> = Ok(None);
    assert!(!funds.initiate_reward_payout(nothing));
    assert_eq!(funds.applying(), &None);
    let refused: Result<Option<TransferInitiated<Vec<u8>>>, &str> = Err("insufficient balance");
    assert!(!funds.initiate_reward_payout(refused));
    assert_eq!(funds.applying(), &None);
    assert_eq!(funds.applied(true, id(9)), None);
}

#[test]
fn validation_with_proof_finalises_payout() {
    let mut funds = Funds::new();
    let answer: Result<_, ()> =
        Ok(Some(TransferValidationReceived { validation: 7u32, proof: Some(String::from("agreed")) }));
    assert!(funds.receive(answer));
    assert_eq!(
        funds.applied(true, id(5)),
        Some(Message::NetworkCmd {
            cmd: NetworkCmd::FinaliseRewardPayout(String::from("agreed")),
            id: id(5),
        })
    );
}

#[test]
fn validation_without_proof_is_applied_in_silence() {
    let mut funds = Funds::new();
    let answer: Result<_, ()> = Ok(Some(TransferValidationReceived { validation: 7u32, proof: None }));
    assert!(funds.receive(answer));
    assert_eq!(
        funds.applying(),
        &Some(ActorEvent::TransferValidationReceived(TransferValidationReceived {
            validation: 7u32,
            proof: None,
        }))
    );
    assert_eq!(funds.applied(true, id(5)), None);
}

#[test]
fn validation_that_could_not_be_applied_is_not_announced() {
    let mut funds = Funds::new();
    let answer: Result<_, ()> =
        Ok(Some(TransferValidationReceived { validation: 7u32, proof: Some(String::from("agreed")) }));
    assert!(funds.receive(answer));
    assert_eq!(funds.applied(false, id(5)), None);
}

#[test]
fn refused_validation_stops() {
    let mut funds = Funds::new();
    let refused: Result<Option<TransferValidationReceived<u32, String>>, u8> = Err(3);
    assert!(!funds.receive(refused));
    let nothing: Result<Option<TransferValidationReceived<u32, String>>, u8> = Ok(None);
    assert!(!funds.receive(nothing));
    assert_eq!(funds.applied(true, id(5)), None);
}

#[test]
fn later_answer_replaces_the_event_not_yet_applied() {
    let mut funds = Funds::new();
    let first: Result<_, ()> = Ok(Some(TransferInitiated { signed_transfer: vec![1u8] }));
    assert!(funds.initiate_reward_payout(first));
    let nothing: Result<Option<TransferValidationReceived<u32, String>>, ()> = Ok(None);
    assert!(!funds.receive(nothing));
    assert_eq!(funds.applied(true, id(5)), None);
}
