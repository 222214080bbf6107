//! The steps by which a section pays a reward out of its funds.
//!
//! The section's account is kept by an actor that this module does not own.
//! Whoever owns it asks it for a transfer, or shows it a validation, and
//! brings the answer here; is told what to have the actor apply; and, once
//! that is done, what to send. `T` is a signed transfer, `V` a validation,
//! `P` a proof that the validators agreed.

use crate::names::MessageId;
use vstd::prelude::*;

verus! {

/// The actor has started a transfer.
#[derive(Debug, PartialEq)]
pub struct TransferInitiated<T> {
    pub signed_transfer: T,
}

/// The actor has taken a validation in; with the last one that was needed
/// comes the proof.
#[derive(Debug, PartialEq)]
pub struct TransferValidationReceived<V, P> {
    pub validation: V,
    pub proof: Option<P>,
}

/// What the actor is to apply to its own state.
#[derive(Debug, PartialEq)]
pub enum ActorEvent<T, V, P> {
    TransferInitiated(TransferInitiated<T>),
    TransferValidationReceived(TransferValidationReceived<V, P>),
}

/// An order to the nodes that validate transfers.
#[derive(Debug, PartialEq)]
pub enum NetworkCmd<T, P> {
    InitiateRewardPayout(T),
    FinaliseRewardPayout(P),
}

/// A message to send.
#[derive(Debug, PartialEq)]
pub enum Message<T, P> {
    NetworkCmd { cmd: NetworkCmd<T, P>, id: MessageId },
}

/// The event that follows from the actor's answer to a request for a
/// transfer: none where it has nothing to transfer or refuses.
pub open spec fn payout_event<T, V, P, X>(answer: Result<Option<TransferInitiated<T>>, X>) -> Option<
    ActorEvent<T, V, P>,
> {
    match answer {
        Ok(Some(event)) => Some(ActorEvent::TransferInitiated(event)),
        _ => None,
    }
}

/// The event that follows from the actor's answer to a validation.
pub open spec fn validation_event<T, V, P, X>(
    answer: Result<Option<TransferValidationReceived<V, P>>, X>,
) -> Option<ActorEvent<T, V, P>> {
    match answer {
        Ok(Some(event)) => Some(ActorEvent::TransferValidationReceived(event)),
        _ => None,
    }
}

/// What is sent once the actor was given `event` to apply: nothing if it
/// could not apply it; else the transfer, for the validators to look at, or
/// the proof that they agreed, if the validation brought one.
pub open spec fn message_after<T, V, P>(
    event: Option<ActorEvent<T, V, P>>,
    applied: bool,
    id: MessageId,
) -> Option<Message<T, P>> {
    match event {
        Some(ActorEvent::TransferInitiated(event)) if applied => Some(
            Message::NetworkCmd { cmd: NetworkCmd::InitiateRewardPayout(event.signed_transfer), id },
        ),
        Some(ActorEvent::TransferValidationReceived(event)) if applied && event.proof is Some => Some(
            Message::NetworkCmd { cmd: NetworkCmd::FinaliseRewardPayout(event.proof->0), id },
        ),
        _ => None,
    }
}

/// The payout in progress: the event that the actor is to apply next, if any.
#[derive(Debug, PartialEq)]
pub struct SectionFunds<T, V, P> {
    applying: Option<ActorEvent<T, V, P>>,
}

impl<T, V, P> View for SectionFunds<T, V, P> {
    type V = Option<ActorEvent<T, V, P>>;

    closed spec fn view(&self) -> Option<ActorEvent<T, V, P>> {
        self.applying
    }
}

impl<T, V, P> SectionFunds<T, V, P> {
    pub fn new() -> (funds: Self)
        ensures
            funds@ is None,
    {
        SectionFunds { applying: None }
    }

    /// Takes the actor's answer to a request for a transfer. Says whether
    /// there is an event for the actor to apply.
    pub fn initiate_reward_payout<X>(
        &mut self,
        answer: Result<Option<TransferInitiated<T>>, X>,
    ) -> (apply: bool)
        ensures
            final(self)@ == payout_event::<T, V, P, X>(answer),
            apply == final(self)@ is Some,
    {
        match answer {
            Ok(Some(event)) => {
                self.applying = Some(ActorEvent::TransferInitiated(event));
                true
            },
            Ok(None) => {
                self.applying = None;
                false
            },
            Err(_) => {
                self.applying = None;
                false
            },
        }
    }

    /// Takes the actor's answer to a validation. Says whether there is an
    /// event for the actor to apply.
    pub fn receive<X>(
        &mut self,
        answer: Result<Option<TransferValidationReceived<V, P>>, X>,
    ) -> (apply: bool)
        ensures
            final(self)@ == validation_event::<T, V, P, X>(answer),
            apply == final(self)@ is Some,
    {
        match answer {
            Ok(Some(event)) => {
                self.applying = Some(ActorEvent::TransferValidationReceived(event));
                true
            },
            Ok(None) => {
                self.applying = None;
                false
            },
            Err(_) => {
                self.applying = None;
                false
            },
        }
    }

    /// The event that the actor is to apply.
    pub fn applying(&self) -> (event: &Option<ActorEvent<T, V, P>>)
        ensures
            *event == self@,
    {
        &self.applying
    }

    /// Ends the step: `applied` says whether the actor could apply the event,
    /// `id` is the id for the message, if one is sent.
    pub fn applied(&mut self, applied: bool, id: MessageId) -> (message: Option<Message<T, P>>)
        ensures
            final(self)@ is None,
            message == message_after(old(self)@, applied, id),
    {
        match self.applying.take() {
            Some(ActorEvent::TransferInitiated(event)) => {
                if applied {
                    Some(
                        Message::NetworkCmd {
                            cmd: NetworkCmd::InitiateRewardPayout(event.signed_transfer),
                            id,
                        },
                    )
                } else {
                    None
                }
            },
            Some(ActorEvent::TransferValidationReceived(event)) => {
                if applied {
                    match event.proof {
                        Some(proof) => Some(
                            Message::NetworkCmd { cmd: NetworkCmd::FinaliseRewardPayout(proof), id },
                        ),
                        None => None,
                    }
                } else {
                    None
                }
            },
            None => None,
        }
    }
}

} // verus!
