//! What the firmware asks of the hardware, and what the hardware answers.

use crate::registers::RegisterWrite;
use vstd::prelude::*;

verus! {

/// One thing for the caller to do on the hardware.
#[derive(Clone, Copy, Debug, PartialEq, Eq, Structural)]
pub enum Action {
    /// Take exclusive ownership of the peripherals. It can be had once.
    Acquire,
    /// Perform a register write.
    Write(RegisterWrite),
    /// Read the timer's counter.
    ReadCount,
    /// Do nothing.
    Idle,
}

/// What came of an action.
#[derive(Clone, Copy, Debug, PartialEq, Eq, Structural)]
pub enum Reply {
    /// The peripherals are now owned.
    Acquired,
    /// The peripherals were already taken.
    Unavailable,
    /// A write or an idle step is over.
    Done,
    /// The timer's counter held this value.
    Count(u16),
}

impl Reply {
    /// Whether the reply is one that `action` can end in.
    pub open spec fn spec_answers(self, action: Action) -> bool {
        match action {
            Action::Acquire => self == Reply::Acquired || self == Reply::Unavailable,
            Action::Write(_) => self == Reply::Done,
            Action::ReadCount => self is Count,
            Action::Idle => self == Reply::Done,
        }
    }

    /// Whether the reply is one that `action` can end in.
    #[verifier::when_used_as_spec(spec_answers)]
    pub fn answers(self, action: Action) -> (b: bool)
        ensures
            b == self.spec_answers(action),
    {
        match action {
            Action::Acquire => match self {
                Reply::Acquired | Reply::Unavailable => true,
                _ => false,
            },
            Action::Write(_) | Action::Idle => match self {
                Reply::Done => true,
                _ => false,
            },
            Action::ReadCount => match self {
                Reply::Count(_) => true,
                _ => false,
            },
        }
    }
}

} // verus!
