//! The busy-wait delay: clear the counter, start it, poll it until it has
//! reached the tick count, stop it.

use crate::action::{Action, Reply};
use crate::registers::RegisterWrite;
use vstd::prelude::*;

verus! {

/// What a delay does next.
#[derive(Clone, Copy, Debug, PartialEq, Eq, Structural)]
pub enum Stage {
    /// Set the counter to zero.
    Clear,
    /// Start the counter.
    Start,
    /// Read the counter.
    Poll,
    /// Stop the counter.
    Stop,
}

/// A delay in progress. How long a tick takes depends on prescalers that were
/// never matched to a clock speed: the delay is approximate.
#[derive(Clone, Copy, Debug, PartialEq, Eq, Structural)]
pub struct Delay {
    /// The count to wait for.
    pub ticks: u16,
    /// What the delay does next.
    pub stage: Stage,
}

impl Delay {
    /// A delay of `ticks` that has not begun.
    pub open spec fn spec_new(ticks: u16) -> Delay {
        Delay { ticks, stage: Stage::Clear }
    }

    /// A delay of `ticks` that has not begun: its first step clears the
    /// counter.
    #[verifier::when_used_as_spec(spec_new)]
    pub fn new(ticks: u16) -> (d: Delay)
        ensures
            d == Delay::spec_new(ticks),
    {
        Delay { ticks, stage: Stage::Clear }
    }

    /// What the delay asks for in its stage.
    pub open spec fn spec_action(self) -> Action {
        match self.stage {
            Stage::Clear => Action::Write(RegisterWrite::ClearCount),
            Stage::Start => Action::Write(RegisterWrite::RunTimer(true)),
            Stage::Poll => Action::ReadCount,
            Stage::Stop => Action::Write(RegisterWrite::RunTimer(false)),
        }
    }

    /// What the delay asks for in its stage.
    #[verifier::when_used_as_spec(spec_action)]
    pub fn action(self) -> (a: Action)
        ensures
            a == self.spec_action(),
    {
        match self.stage {
            Stage::Clear => Action::Write(RegisterWrite::ClearCount),
            Stage::Start => Action::Write(RegisterWrite::RunTimer(true)),
            Stage::Poll => Action::ReadCount,
            Stage::Stop => Action::Write(RegisterWrite::RunTimer(false)),
        }
    }

    /// The delay after `reply`, or `None` when the delay is over.
    ///
    /// The counter is cleared, then started. A count below `ticks` is polled
    /// again; any other count leads to the stop, and the stop ends the delay.
    /// A reply that does not answer the stage's action changes nothing.
    pub open spec fn spec_advance(self, reply: Reply) -> Option<Delay> {
        if !reply.spec_answers(self.spec_action()) {
            Some(self)
        } else {
            match self.stage {
                Stage::Clear => Some(Delay { ticks: self.ticks, stage: Stage::Start }),
                Stage::Start => Some(Delay { ticks: self.ticks, stage: Stage::Poll }),
                Stage::Poll => if reply->Count_0 < self.ticks {
                    Some(self)
                } else {
                    Some(Delay { ticks: self.ticks, stage: Stage::Stop })
                },
                Stage::Stop => None,
            }
        }
    }

    /// The delay after each of `replies` in turn, or `None` once it is over.
    pub open spec fn spec_after(self, replies: Seq<Reply>) -> Option<Delay>
        decreases replies.len(),
    {
        if replies.len() == 0 {
            Some(self)
        } else {
            match self.spec_after(replies.drop_last()) {
                Some(delay) => delay.spec_advance(replies.last()),
                None => None,
            }
        }
    }

    /// Takes the reply to the stage's action and gives the delay that is
    /// left, or `None` when the delay is over.
    #[verifier::when_used_as_spec(spec_advance)]
    pub fn advance(self, reply: Reply) -> (next: Option<Delay>)
        ensures
            next == self.spec_advance(reply),
    {
        match (self.stage, reply) {
            (Stage::Clear, Reply::Done) => Some(Delay { ticks: self.ticks, stage: Stage::Start }),
            (Stage::Start, Reply::Done) => Some(Delay { ticks: self.ticks, stage: Stage::Poll }),
            (Stage::Poll, Reply::Count(count)) => if count < self.ticks {
                Some(self)
            } else {
                Some(Delay { ticks: self.ticks, stage: Stage::Stop })
            },
            (Stage::Stop, Reply::Done) => None,
            _ => Some(self),
        }
    }
}

} // verus!
