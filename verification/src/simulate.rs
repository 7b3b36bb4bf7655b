//! Runs the firmware's state machines on the simulated board.

use crate::action::Reply;
use crate::board::{Board, BoardView};
use crate::delay::{Delay, Stage};
use crate::program::{InitStep, Program, BLINK_TICKS};
use crate::registers::{written_fields_read_back, RegisterWrite};
use vstd::prelude::*;

verus! {

/// What a delay on the simulated board came to.
#[derive(Clone, Copy, Debug, PartialEq, Eq, Structural)]
pub struct Waited {
    /// How often the counter was read.
    pub polls: u32,
    /// The count that the last read gave.
    pub last_count: u16,
}

impl BoardView {
    /// The board after a delay of `ticks`: the timer is stopped, the counter
    /// stands one past `ticks` (at zero after the largest count), and the log
    /// has grown by the clearing of the counter, its start and its stop. All
    /// else is as before.
    pub open spec fn after_delay(self, ticks: u16) -> BoardView {
        BoardView {
            cr1: RegisterWrite::RunTimer(false).spec_value(),
            count: BoardView::next_count(ticks),
            log: self.log + seq![
                RegisterWrite::ClearCount,
                RegisterWrite::RunTimer(true),
                RegisterWrite::RunTimer(false),
            ],
            ..self
        }
    }

    /// The board after the setup of the timer: its clock gate opened, its
    /// prescaler and then that of its bus set.
    pub open spec fn after_timer_setup(self) -> BoardView {
        self.write(RegisterWrite::EnableTimerClock).write(RegisterWrite::SetTimerPrescaler).write(
            RegisterWrite::SetBusPrescaler,
        )
    }

    /// The board after the setup of the port: its clock gate opened, then the
    /// pin made a push-pull output.
    pub open spec fn after_port_setup(self) -> BoardView {
        self.write(RegisterWrite::EnablePortClock).write(RegisterWrite::ConfigurePin)
    }

    /// The board after the setup: the five writes of the setup, in their
    /// order.
    pub open spec fn after_init(self) -> BoardView {
        self.write(RegisterWrite::EnableTimerClock).write(RegisterWrite::SetTimerPrescaler).write(
            RegisterWrite::SetBusPrescaler,
        ).write(RegisterWrite::EnablePortClock).write(RegisterWrite::ConfigurePin)
    }

    /// The board after half a period of the blink: the pin is driven to
    /// `level`, then a delay of `BLINK_TICKS` runs.
    pub open spec fn after_half_cycle(self, level: bool) -> BoardView {
        self.write(RegisterWrite::DrivePin(level)).after_delay(BLINK_TICKS)
    }

    /// The board after `half_cycles` half periods of the blink, the first of
    /// which drives the pin high. After at least one, the pin stands at the
    /// level of the last, high after an odd number and low after an even one,
    /// the timer is stopped and the counter stands one past `BLINK_TICKS`; the
    /// log has grown by `blink_log(half_cycles)`.
    pub open spec fn after_blink(self, half_cycles: nat) -> BoardView {
        if half_cycles == 0 {
            self
        } else {
            BoardView {
                odr: RegisterWrite::DrivePin(half_cycles % 2 == 1).spec_value(),
                cr1: RegisterWrite::RunTimer(false).spec_value(),
                count: BoardView::next_count(BLINK_TICKS),
                log: self.log + blink_log(half_cycles),
                ..self
            }
        }
    }

    /// The board after the firmware has booted on it and blinked for
    /// `half_cycles` half periods. Where the peripherals were already taken,
    /// the firmware halts and the board stays as it was.
    pub open spec fn after_run(self, half_cycles: nat) -> BoardView {
        if self.taken {
            self
        } else {
            (BoardView { taken: true, ..self }).after_init().after_blink(half_cycles)
        }
    }

    /// How often a delay of `ticks` reads the counter on this board: once for
    /// each count from zero to `ticks`, whatever the board held before.
    pub open spec fn delay_polls(self, ticks: u16) -> nat {
        (ticks + 1) as nat
    }
}

/// The write at place `i` of what a blink logs. Each half period logs four
/// writes: the pin, high in the even half periods and low in the odd ones
/// (counted from zero), then the clearing, the start and the stop of the
/// counter.
pub open spec fn blink_write(i: int) -> RegisterWrite {
    if i % 4 == 0 {
        RegisterWrite::DrivePin((i / 4) % 2 == 0)
    } else if i % 4 == 1 {
        RegisterWrite::ClearCount
    } else if i % 4 == 2 {
        RegisterWrite::RunTimer(true)
    } else {
        RegisterWrite::RunTimer(false)
    }
}

/// What `half_cycles` half periods of the blink add to the log.
pub open spec fn blink_log(half_cycles: nat) -> Seq<RegisterWrite> {
    Seq::new(4 * half_cycles, |i: int| blink_write(i))
}

/// The state in which the firmware stands after a run of `half_cycles` half
/// periods on a board whose peripherals were `taken` or not: halted, or about
/// to drive the pin to the level of the next half period.
pub open spec fn state_after_run(taken: bool, half_cycles: nat) -> Program {
    if taken {
        Program::Halted
    } else {
        Program::Drive(half_cycles % 2 == 0)
    }
}

/// The board on which the setup, begun on `start`, is about to take `step`.
spec fn initialising(start: BoardView, step: InitStep) -> BoardView {
    let first = start.write(RegisterWrite::EnableTimerClock);
    let second = first.write(RegisterWrite::SetTimerPrescaler);
    let third = second.write(RegisterWrite::SetBusPrescaler);
    match step {
        InitStep::TimerClock => start,
        InitStep::TimerPrescaler => first,
        InitStep::BusPrescaler => second,
        InitStep::PortClock => third,
        InitStep::PinMode => third.write(RegisterWrite::EnablePortClock),
    }
}

/// Whether the firmware, booted on `start`, stands in `program` with the
/// board as `now`, before the blink has begun: halted on an untouched board,
/// or on its way through the setup, or at the setup's end.
spec fn setting_up(start: BoardView, program: Program, now: BoardView) -> bool {
    let owned = BoardView { taken: true, ..start };
    if start.taken {
        program == Program::Halted && now == start
    } else {
        match program {
            Program::Init(step) => now == initialising(owned, step),
            _ => program == Program::Drive(true) && now == owned.after_init(),
        }
    }
}

/// How many steps of the setup `program` has before it.
spec fn setup_steps_left(program: Program) -> int {
    match program {
        Program::Init(InitStep::TimerClock) => 5,
        Program::Init(InitStep::TimerPrescaler) => 4,
        Program::Init(InitStep::BusPrescaler) => 3,
        Program::Init(InitStep::PortClock) => 2,
        Program::Init(InitStep::PinMode) => 1,
        _ => 0,
    }
}

/// Whether `now` is what a delay begun on `start` has made of the board when
/// it stands in `delay.stage` after `polls` reads of the counter.
spec fn delaying(start: BoardView, delay: Delay, polls: nat, now: BoardView) -> bool {
    let cleared = start.write(RegisterWrite::ClearCount);
    let started = cleared.write(RegisterWrite::RunTimer(true));
    match delay.stage {
        Stage::Clear => polls == 0 && now == start,
        Stage::Start => polls == 0 && now == cleared,
        Stage::Poll => polls <= delay.ticks && now == (BoardView {
            count: polls as u16,
            ..started
        }),
        Stage::Stop => polls == delay.ticks + 1 && now == (BoardView {
            count: BoardView::next_count(delay.ticks),
            ..started
        }),
    }
}

/// A bound on the steps that a delay has before it after `polls` reads: the
/// reads that are left, and one step for each stage.
spec fn steps_left(delay: Delay, polls: nat) -> int {
    match delay.stage {
        Stage::Clear => delay.ticks + 4,
        Stage::Start => delay.ticks + 3,
        Stage::Poll => delay.ticks + 2 - polls,
        Stage::Stop => 1,
    }
}

/// One step of a delay keeps the board as `delaying` describes it, and the
/// last step leaves it as `after_delay` says.
proof fn delay_step(start: BoardView, delay: Delay, polls: nat, now: BoardView)
    requires
        delaying(start, delay, polls, now),
    ensures
        ({
            let action = delay.spec_action();
            let reply = now.reply(action);
            let polled: nat = if delay.stage == Stage::Poll {
                polls + 1
            } else {
                polls
            };
            &&& reply.spec_answers(action)
            &&& delay.stage == Stage::Poll ==> reply == Reply::Count(polls as u16)
            &&& match delay.spec_advance(reply) {
                Some(rest) => {
                    &&& rest.ticks == delay.ticks
                    &&& delaying(start, rest, polled, now.after(action))
                    &&& 0 <= steps_left(rest, polled) < steps_left(delay, polls)
                },
                None => {
                    &&& now.after(action) == start.after_delay(delay.ticks)
                    &&& polled == delay.ticks + 1
                },
            }
        }),
{
    written_fields_read_back(RegisterWrite::RunTimer(true));
    assert(0u32 & 0xffffu32 == 0u32) by (bit_vector);
    let cleared = start.write(RegisterWrite::ClearCount);
    let started = cleared.write(RegisterWrite::RunTimer(true));
    if delay.stage == Stage::Stop {
        assert(now.after(delay.spec_action()).log =~= start.after_delay(delay.ticks).log);
    }
}

/// Waits for `ticks` on the simulated board: clears the counter, starts it,
/// reads it until a read gives `ticks` or more, and stops it.
pub fn delay(board: &mut Board, ticks: u16) -> (waited: Waited)
    ensures
        final(board)@ == old(board)@.after_delay(ticks),
        !final(board)@.timer_running(),
        waited.polls == old(board)@.delay_polls(ticks),
        waited.last_count == ticks,
{
    let ghost start = board@;
    let mut delay = Delay::new(ticks);
    let mut polls: u32 = 0;
    let mut last_count: u16 = 0;
    loop
        invariant_except_break
            delay.ticks == ticks,
            delaying(start, delay, polls as nat, board@),
            delay.stage == Stage::Stop ==> last_count == ticks,
        ensures
            board@ == start.after_delay(ticks),
            polls == ticks + 1,
            last_count == ticks,
        decreases steps_left(delay, polls as nat),
    {
        proof {
            delay_step(start, delay, polls as nat, board@);
        }
        let reply = board.perform(delay.action());
        match reply {
            Reply::Count(count) => {
                polls = polls + 1;
                last_count = count;
            },
            _ => {},
        }
        match delay.advance(reply) {
            Some(rest) => {
                delay = rest;
            },
            None => {
                break ;
            },
        }
    }
    proof {
        written_fields_read_back(RegisterWrite::RunTimer(false));
    }
    Waited { polls, last_count }
}

/// Carries out the action of `program` on the board and gives the state that
/// the board's reply leads to.
pub fn step(board: &mut Board, program: Program) -> (next: Program)
    ensures
        final(board)@ == old(board)@.after(program.spec_action()),
        next == program.spec_advance(old(board)@.reply(program.spec_action())),
{
    let reply = board.perform(program.action());
    program.advance(reply)
}

/// Runs half a period of the blink on the board: from the state that drives
/// the pin to `level`, through the delay, to the state that drives it to the
/// other level.
pub fn half_cycle(board: &mut Board, level: bool) -> (next: Program)
    ensures
        final(board)@ == old(board)@.after_half_cycle(level),
        next == Program::Drive(!level),
{
    let mut program = step(board, Program::Drive(level));
    let ghost start = board@;
    let ghost mut delay = Delay::spec_new(BLINK_TICKS);
    let ghost mut polls: nat = 0;
    loop
        invariant_except_break
            program == Program::Wait(level, delay),
            delay.ticks == BLINK_TICKS,
            delaying(start, delay, polls, board@),
        ensures
            program == Program::Drive(!level),
            board@ == start.after_delay(BLINK_TICKS),
        decreases steps_left(delay, polls),
    {
        proof {
            delay_step(start, delay, polls, board@);
        }
        let ghost reply = board@.reply(delay.spec_action());
        program = step(board, program);
        match program {
            Program::Wait(_, _) => {
                proof {
                    if delay.stage == Stage::Poll {
                        polls = polls + 1;
                    }
                    delay = delay.spec_advance(reply)->Some_0;
                }
            },
            _ => {
                break ;
            },
        }
    }
    program
}

/// Boots the firmware on the board and lets it blink for `half_cycles` half
/// periods. On a board whose peripherals are already taken the firmware halts
/// at once and writes nothing.
pub fn run(board: &mut Board, half_cycles: u32) -> (program: Program)
    ensures
        final(board)@ == old(board)@.after_run(half_cycles as nat),
        program == state_after_run(old(board)@.taken, half_cycles as nat),
{
    let ghost start = board@;
    let mut program = step(board, Program::boot());
    loop
        invariant
            setting_up(start, program, board@),
        ensures
            !(program is Init),
        decreases setup_steps_left(program),
    {
        match program {
            Program::Init(_) => {
                program = step(board, program);
            },
            _ => {
                break ;
            },
        }
    }
    match program {
        Program::Halted => {
            return program;
        },
        _ => {},
    }
    let ghost ready = board@;
    let mut done: u32 = 0;
    while done < half_cycles
        invariant
            done <= half_cycles,
            !start.taken,
            program == state_after_run(false, done as nat),
            board@ == ready.after_blink(done as nat),
        decreases half_cycles - done,
    {
        match program {
            Program::Drive(level) => {
                proof {
                    blink_grows(ready, done as nat);
                }
                program = half_cycle(board, level);
            },
            _ => {},
        }
        done = done + 1;
    }
    program
}

/// One more half period takes the board from `after_blink(done)` to
/// `after_blink(done + 1)`.
proof fn blink_grows(ready: BoardView, done: nat)
    ensures
        ready.after_blink(done).after_half_cycle(done % 2 == 0) == ready.after_blink(done + 1),
{
    let level = done % 2 == 0;
    let before = ready.after_blink(done);
    let after = before.after_half_cycle(level);
    let wanted = ready.after_blink(done + 1);
    assert(blink_log(done + 1) =~= blink_log(done) + seq![
        RegisterWrite::DrivePin(level),
        RegisterWrite::ClearCount,
        RegisterWrite::RunTimer(true),
        RegisterWrite::RunTimer(false),
    ]);
    assert(after.log =~= wanted.log);
}

} // verus!
