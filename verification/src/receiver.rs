use vstd::prelude::*;

use crate::error::AppError;

verus! {

/// Lifecycle of a data receiver: it takes data until it is stopped.
#[derive(Debug, Clone, Copy, PartialEq, Eq, Structural)]
pub enum ReceiverPhase {
    /// Its task runs and its channel is open.
    Active,
    /// It has been stopped and its task has been waited for.
    Complete,
}

/// What to do with data sent to a receiver.
#[derive(Debug, Clone, Copy, PartialEq, Eq, Structural)]
pub enum SendDecision {
    /// Put the data into the receiver's channel.
    Forward,
    /// The receiver's task has closed the channel: drop the data, and report success.
    SkipClosed,
}

/// What stopping a receiver takes.
#[derive(Debug, Clone, Copy, PartialEq, Eq, Structural)]
pub enum StopDecision {
    /// Close the channel, then wait for the task and return its result.
    CloseAndJoin,
    /// It was stopped before: nothing to wait for.
    AlreadyComplete,
}

/// Decision for data sent in `phase`; `None` when the send must fail.
pub open spec fn spec_send_decision(phase: ReceiverPhase, channel_closed: bool) -> Option<
    SendDecision,
> {
    match phase {
        ReceiverPhase::Active => if channel_closed {
            Some(SendDecision::SkipClosed)
        } else {
            Some(SendDecision::Forward)
        },
        ReceiverPhase::Complete => None,
    }
}

/// Phase after a stop, and what the stop takes.
pub open spec fn spec_stop(phase: ReceiverPhase) -> (ReceiverPhase, StopDecision) {
    match phase {
        ReceiverPhase::Active => (ReceiverPhase::Complete, StopDecision::CloseAndJoin),
        ReceiverPhase::Complete => (ReceiverPhase::Complete, StopDecision::AlreadyComplete),
    }
}

/// The decisions of a data receiver (a consumer task fed through a channel).
pub struct ReceiverState {
    phase: ReceiverPhase,
}

impl ReceiverState {
    pub closed spec fn spec_phase(&self) -> ReceiverPhase {
        self.phase
    }

    /// A receiver whose task has just been started.
    pub fn new() -> (res: Self)
        ensures
            res.spec_phase() == ReceiverPhase::Active,
    {
        ReceiverState { phase: ReceiverPhase::Active }
    }

    pub fn phase(&self) -> (res: ReceiverPhase)
        ensures
            res == self.spec_phase(),
    {
        self.phase
    }

    /// Decides what to do with data sent to the receiver; a stopped receiver
    /// refuses it with `ReceiverSendError`.
    pub fn send_decision(&self, channel_closed: bool) -> (res: Result<SendDecision, AppError>)
        ensures
            match spec_send_decision(self.spec_phase(), channel_closed) {
                Some(d) => res == Ok::<SendDecision, AppError>(d),
                None => res matches Err(e) && e is ReceiverSendError,
            },
    {
        match self.phase {
            ReceiverPhase::Active => {
                if channel_closed {
                    Ok(SendDecision::SkipClosed)
                } else {
                    Ok(SendDecision::Forward)
                }
            },
            ReceiverPhase::Complete => Err(AppError::ReceiverSendError),
        }
    }

    /// Stops the receiver.
    pub fn stop(&mut self) -> (res: StopDecision)
        ensures
            (final(self).spec_phase(), res) == spec_stop(old(self).spec_phase()),
    {
        match self.phase {
            ReceiverPhase::Active => {
                self.phase = ReceiverPhase::Complete;
                StopDecision::CloseAndJoin
            },
            ReceiverPhase::Complete => StopDecision::AlreadyComplete,
        }
    }

    /// Whether the receiver may be dropped: only once it has been stopped.
    pub fn may_drop(&self) -> (res: bool)
        ensures
            res == (self.spec_phase() == ReceiverPhase::Complete),
    {
        match self.phase {
            ReceiverPhase::Active => false,
            ReceiverPhase::Complete => true,
        }
    }
}

/// Once stopped, a receiver refuses all data, may be dropped, and a second
/// stop has nothing left to do.
pub proof fn lemma_stopped_receiver(phase: ReceiverPhase, channel_closed: bool)
    ensures
        spec_send_decision(spec_stop(phase).0, channel_closed) is None,
        spec_stop(phase).0 == ReceiverPhase::Complete,
        spec_stop(spec_stop(phase).0) == (ReceiverPhase::Complete, StopDecision::AlreadyComplete),
{
}

/// A running receiver takes data, and its first stop waits for its task.
pub proof fn lemma_active_receiver(channel_closed: bool)
    ensures
        spec_send_decision(ReceiverPhase::Active, channel_closed) is Some,
        spec_stop(ReceiverPhase::Active).1 == StopDecision::CloseAndJoin,
{
}

} // verus!
