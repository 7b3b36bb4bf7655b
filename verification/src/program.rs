//! The firmware as a state machine: acquire the peripherals, set up the timer
//! and the pin, then drive the pin high and low in turn with a delay after
//! each change.

use crate::action::{Action, Reply};
use crate::delay::Delay;
use crate::registers::RegisterWrite;
use vstd::prelude::*;

verus! {

/// The count that each half period of the blink waits for. It stands for no
/// known duration.
pub const BLINK_TICKS: u16 = 50000;

/// A step of the setup, in the order in which the steps are taken.
#[derive(Clone, Copy, Debug, PartialEq, Eq, Structural)]
pub enum InitStep {
    /// Open the timer's clock gate.
    TimerClock,
    /// Set the timer's prescaler.
    TimerPrescaler,
    /// Set the prescaler of the timer's bus.
    BusPrescaler,
    /// Open the port's clock gate.
    PortClock,
    /// Make the pin a push-pull output.
    PinMode,
}

impl InitStep {
    /// The register write that the step stands for.
    pub open spec fn spec_write(self) -> RegisterWrite {
        match self {
            InitStep::TimerClock => RegisterWrite::EnableTimerClock,
            InitStep::TimerPrescaler => RegisterWrite::SetTimerPrescaler,
            InitStep::BusPrescaler => RegisterWrite::SetBusPrescaler,
            InitStep::PortClock => RegisterWrite::EnablePortClock,
            InitStep::PinMode => RegisterWrite::ConfigurePin,
        }
    }

    /// The register write that the step stands for.
    #[verifier::when_used_as_spec(spec_write)]
    pub fn write(self) -> (w: RegisterWrite)
        ensures
            w == self.spec_write(),
    {
        match self {
            InitStep::TimerClock => RegisterWrite::EnableTimerClock,
            InitStep::TimerPrescaler => RegisterWrite::SetTimerPrescaler,
            InitStep::BusPrescaler => RegisterWrite::SetBusPrescaler,
            InitStep::PortClock => RegisterWrite::EnablePortClock,
            InitStep::PinMode => RegisterWrite::ConfigurePin,
        }
    }

    /// The step that follows, or `None` after the last.
    pub open spec fn spec_next(self) -> Option<InitStep> {
        match self {
            InitStep::TimerClock => Some(InitStep::TimerPrescaler),
            InitStep::TimerPrescaler => Some(InitStep::BusPrescaler),
            InitStep::BusPrescaler => Some(InitStep::PortClock),
            InitStep::PortClock => Some(InitStep::PinMode),
            InitStep::PinMode => None,
        }
    }

    /// The step that follows, or `None` after the last.
    #[verifier::when_used_as_spec(spec_next)]
    pub fn next(self) -> (n: Option<InitStep>)
        ensures
            n == self.spec_next(),
    {
        match self {
            InitStep::TimerClock => Some(InitStep::TimerPrescaler),
            InitStep::TimerPrescaler => Some(InitStep::BusPrescaler),
            InitStep::BusPrescaler => Some(InitStep::PortClock),
            InitStep::PortClock => Some(InitStep::PinMode),
            InitStep::PinMode => None,
        }
    }
}

/// Where the firmware stands.
#[derive(Clone, Copy, Debug, PartialEq, Eq, Structural)]
pub enum Program {
    /// Nothing has been done yet: the peripherals are to be acquired.
    Boot,
    /// The peripherals are owned and this setup step comes next.
    Init(InitStep),
    /// The pin is to be driven to this level.
    Drive(bool),
    /// The pin is at this level and a delay is in progress.
    Wait(bool, Delay),
    /// The peripherals could not be had. Nothing more is done, for ever.
    Halted,
}

impl Program {
    /// The firmware at power-on.
    pub open spec fn spec_boot() -> Program {
        Program::Boot
    }

    /// The firmware at power-on.
    #[verifier::when_used_as_spec(spec_boot)]
    pub fn boot() -> (p: Program)
        ensures
            p == Program::spec_boot(),
    {
        Program::Boot
    }

    /// What the firmware asks for in this state.
    pub open spec fn spec_action(self) -> Action {
        match self {
            Program::Boot => Action::Acquire,
            Program::Init(step) => Action::Write(step.spec_write()),
            Program::Drive(level) => Action::Write(RegisterWrite::DrivePin(level)),
            Program::Wait(_, delay) => delay.spec_action(),
            Program::Halted => Action::Idle,
        }
    }

    /// What the firmware asks for in this state.
    #[verifier::when_used_as_spec(spec_action)]
    pub fn action(self) -> (a: Action)
        ensures
            a == self.spec_action(),
    {
        match self {
            Program::Boot => Action::Acquire,
            Program::Init(step) => Action::Write(step.write()),
            Program::Drive(level) => Action::Write(RegisterWrite::DrivePin(level)),
            Program::Wait(_, delay) => delay.action(),
            Program::Halted => Action::Idle,
        }
    }

    /// The state after `reply`.
    ///
    /// With the peripherals acquired the setup begins; without them the
    /// firmware halts and stays halted. The setup steps follow one another and
    /// the last leads to driving the pin high. Each drive is followed by a
    /// delay of `BLINK_TICKS`, and the end of the delay by a drive to the
    /// other level. A reply that does not answer the state's action changes
    /// nothing.
    pub open spec fn spec_advance(self, reply: Reply) -> Program {
        if !reply.spec_answers(self.spec_action()) {
            self
        } else {
            match self {
                Program::Boot => if reply == Reply::Acquired {
                    Program::Init(InitStep::TimerClock)
                } else {
                    Program::Halted
                },
                Program::Init(step) => match step.spec_next() {
                    Some(next) => Program::Init(next),
                    None => Program::Drive(true),
                },
                Program::Drive(level) => Program::Wait(level, Delay::spec_new(BLINK_TICKS)),
                Program::Wait(level, delay) => match delay.spec_advance(reply) {
                    Some(rest) => Program::Wait(level, rest),
                    None => Program::Drive(!level),
                },
                Program::Halted => Program::Halted,
            }
        }
    }

    /// The state after each of `replies` in turn.
    pub open spec fn spec_after(self, replies: Seq<Reply>) -> Program
        decreases replies.len(),
    {
        if replies.len() == 0 {
            self
        } else {
            self.spec_after(replies.drop_last()).spec_advance(replies.last())
        }
    }

    /// Takes the reply to the state's action and gives the next state.
    #[verifier::when_used_as_spec(spec_advance)]
    pub fn advance(self, reply: Reply) -> (next: Program)
        ensures
            next == self.spec_advance(reply),
    {
        if !reply.answers(self.action()) {
            return self;
        }
        match self {
            Program::Boot => match reply {
                Reply::Acquired => Program::Init(InitStep::TimerClock),
                _ => Program::Halted,
            },
            Program::Init(step) => match step.next() {
                Some(next) => Program::Init(next),
                None => Program::Drive(true),
            },
            Program::Drive(level) => Program::Wait(level, Delay::new(BLINK_TICKS)),
            Program::Wait(level, delay) => match delay.advance(reply) {
                Some(rest) => Program::Wait(level, rest),
                None => Program::Drive(!level),
            },
            Program::Halted => Program::Halted,
        }
    }
}

} // verus!
