//! What the participants contribute to a single tick.

use vstd::prelude::*;

verus! {

/// What one participant contributed at a tick.
#[derive(Debug, PartialEq, Eq)]
pub enum Step<T> {
    /// No real input arrived; a default step stands in for it.
    Forced,
    /// The participant is disconnected and waits to reconnect.
    WaitingForReconnect,
    /// An application-defined payload.
    Custom(T),
}

/// A payload that a transport or storage layer can rebuild from bytes.
pub trait Deserialize {
    fn deserialize(bytes: &[u8]) -> Self where Self: Sized;
}

/// One participant's step.
pub struct ParticipantStep<T> {
    pub participant_id: u8,
    pub step: Step<T>,
}

impl<T> ParticipantStep<T> {
    pub fn new(participant_id: u8, step: Step<T>) -> (r: Self)
        ensures
            r.participant_id == participant_id,
            r.step == step,
    {
        Self { participant_id, step }
    }
}

/// All contributions to one tick, in the order they were added.
pub struct ParticipantSteps<T> {
    pub steps: Vec<ParticipantStep<T>>,
}

impl<T> View for ParticipantSteps<T> {
    type V = Seq<ParticipantStep<T>>;

    /// The contributions, in order.
    open spec fn view(&self) -> Seq<ParticipantStep<T>> {
        self.steps@
    }
}

impl<T> ParticipantSteps<T> {
    pub fn new() -> (r: Self)
        ensures
            r@ == Seq::<ParticipantStep<T>>::empty(),
    {
        Self { steps: Vec::new() }
    }

    /// Appends the step of `participant_id` after those already present.
    pub fn push(&mut self, participant_id: u8, step: Step<T>)
        ensures
            final(self)@ == old(self)@.push((ParticipantStep { participant_id, step })),
    {
        self.steps.push(ParticipantStep::new(participant_id, step));
    }

    pub fn len(&self) -> (r: usize)
        ensures
            r == self@.len(),
    {
        self.steps.len()
    }

    pub fn is_empty(&self) -> (r: bool)
        ensures
            r == (self@.len() == 0),
    {
        self.steps.is_empty()
    }
}

impl<T> Default for ParticipantSteps<T> {
    fn default() -> (r: Self)
        ensures
            r@ == Seq::<ParticipantStep<T>>::empty(),
    {
        Self::new()
    }
}

} // verus!
