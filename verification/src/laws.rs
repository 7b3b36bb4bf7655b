//! What holds of the firmware on every input.

use crate::action::{Action, Reply};
use crate::board::BoardView;
use crate::delay::{Delay, Stage};
use crate::program::{Program, BLINK_TICKS};
use crate::registers::{Peripheral, RegisterWrite};
use crate::simulate::{blink_log, blink_write};
use vstd::prelude::*;

verus! {

/// The replies that a delay gets from hardware whose counter reads `counts`
/// in turn: one to the clearing, one to the start, one to each read, one to
/// the stop.
pub open spec fn replies_to_delay(counts: Seq<u16>) -> Seq<Reply> {
    seq![Reply::Done, Reply::Done] + Seq::new(counts.len(), |i: int| Reply::Count(counts[i]))
        + seq![Reply::Done]
}

/// What a delay asks for when it reads the counter `polls` times: the
/// clearing of the counter, its start, the reads, its stop.
pub open spec fn actions_of_delay(polls: nat) -> Seq<Action> {
    seq![Action::Write(RegisterWrite::ClearCount), Action::Write(RegisterWrite::RunTimer(true))]
        + Seq::new(polls, |i: int| Action::ReadCount) + seq![
        Action::Write(RegisterWrite::RunTimer(false)),
    ]
}

/// The stage in which a delay stands after `k` of the replies to `polls`
/// reads, the last of which alone ends the polling.
spec fn stage_after(polls: nat, k: int) -> Stage {
    if k == 0 {
        Stage::Clear
    } else if k == 1 {
        Stage::Start
    } else if k < polls + 2 {
        Stage::Poll
    } else {
        Stage::Stop
    }
}

/// After `k` of its replies the delay stands in `stage_after`.
proof fn delay_stands(ticks: u16, counts: Seq<u16>, k: int)
    requires
        counts.len() > 0,
        forall|i: int| 0 <= i < counts.len() - 1 ==> counts[i] < ticks,
        counts.last() >= ticks,
        0 <= k <= counts.len() + 2,
    ensures
        Delay::spec_new(ticks).spec_after(replies_to_delay(counts).take(k)) == Some(
            Delay { ticks, stage: stage_after(counts.len(), k) },
        ),
    decreases k,
{
    let replies = replies_to_delay(counts);
    if k > 0 {
        delay_stands(ticks, counts, k - 1);
        assert(replies.take(k).drop_last() =~= replies.take(k - 1));
        assert(replies.take(k).last() == replies[k - 1]);
    }
}

/// A delay of `ticks` clears the counter before it starts it, reads it until
/// a read gives `ticks` or more, and then stops it: where every count but the
/// last is below `ticks` and the last is not, the delay asks for exactly
/// `actions_of_delay`, one action before each reply, and is over after the
/// last reply and not before.
pub proof fn delay_polls_until_reached(ticks: u16, counts: Seq<u16>)
    requires
        counts.len() > 0,
        forall|i: int| 0 <= i < counts.len() - 1 ==> counts[i] < ticks,
        counts.last() >= ticks,
    ensures
        replies_to_delay(counts).len() == actions_of_delay(counts.len()).len(),
        forall|k: int|
            0 <= k < replies_to_delay(counts).len() ==> (#[trigger] Delay::spec_new(
                ticks,
            ).spec_after(replies_to_delay(counts).take(k)) matches Some(delay)
                && delay.spec_action() == actions_of_delay(counts.len())[k]),
        Delay::spec_new(ticks).spec_after(replies_to_delay(counts)) is None,
{
    let replies = replies_to_delay(counts);
    let n = counts.len() as int;
    assert forall|k: int| 0 <= k < replies.len() implies (#[trigger] Delay::spec_new(
        ticks,
    ).spec_after(replies.take(k)) matches Some(delay) && delay.spec_action()
        == actions_of_delay(counts.len())[k]) by {
        delay_stands(ticks, counts, k);
    }
    delay_stands(ticks, counts, n + 2);
    assert(replies.drop_last() =~= replies.take(n + 2));
}

/// While every count is below `ticks` the delay goes on reading the counter.
pub proof fn delay_keeps_polling(ticks: u16, counts: Seq<u16>)
    requires
        forall|i: int| 0 <= i < counts.len() ==> counts[i] < ticks,
    ensures
        Delay::spec_new(ticks).spec_after(
            seq![Reply::Done, Reply::Done] + Seq::new(
                counts.len(),
                |i: int| Reply::Count(counts[i]),
            ),
        ) == Some(Delay { ticks, stage: Stage::Poll }),
    decreases counts.len(),
{
    let replies = seq![Reply::Done, Reply::Done] + Seq::new(
        counts.len(),
        |i: int| Reply::Count(counts[i]),
    );
    if counts.len() == 0 {
        let one = seq![Reply::Done];
        assert(replies.drop_last() =~= one);
        assert(one.drop_last() =~= Seq::<Reply>::empty());
        assert(Delay::spec_new(ticks).spec_after(one.drop_last()) == Some(Delay::spec_new(ticks)));
        assert(Delay::spec_new(ticks).spec_after(one) == Some(
            Delay { ticks, stage: Stage::Start },
        ));
    } else {
        let fewer = counts.drop_last();
        delay_keeps_polling(ticks, fewer);
        assert(replies.drop_last() =~= seq![Reply::Done, Reply::Done] + Seq::new(
            fewer.len(),
            |i: int| Reply::Count(fewer[i]),
        ));
    }
}

/// A second delay of the same length reads the counter as often as the
/// first, whatever the board held before the first, and leaves every
/// register as the first left it.
pub proof fn delay_repeats(board: BoardView, ticks: u16)
    ensures
        board.after_delay(ticks).delay_polls(ticks) == board.delay_polls(ticks),
        board.after_delay(ticks).after_delay(ticks).same_registers(board.after_delay(ticks)),
{
}

/// The setup of the timer and the setup of the port do not touch one
/// another: in either order they leave the same words in the registers, and
/// the setup as the firmware runs it is the timer's followed by the port's.
pub proof fn setups_commute(board: BoardView)
    ensures
        board.after_timer_setup().after_port_setup().same_registers(
            board.after_port_setup().after_timer_setup(),
        ),
        board.after_init() == board.after_timer_setup().after_port_setup(),
{
}

/// What a run of `half_cycles` half periods logs on a board whose
/// peripherals were free: the setup, then the blink.
pub open spec fn run_log(half_cycles: nat) -> Seq<RegisterWrite> {
    seq![
        RegisterWrite::EnableTimerClock,
        RegisterWrite::SetTimerPrescaler,
        RegisterWrite::SetBusPrescaler,
        RegisterWrite::EnablePortClock,
        RegisterWrite::ConfigurePin,
    ] + blink_log(half_cycles)
}

/// No register of the timer or of the port is written before the clock of
/// its peripheral is enabled: in what a run logs, a write to the timer comes
/// after the write that opens the timer's clock gate, and a write to the port
/// after the one that opens the port's.
pub proof fn clock_enabled_before_use(half_cycles: nat, i: int)
    requires
        0 <= i < run_log(half_cycles).len(),
    ensures
        run_log(half_cycles)[i].spec_register().spec_peripheral() == Peripheral::Tim2 ==> exists|
            j: int,
        |
            0 <= j < i && run_log(half_cycles)[j] == RegisterWrite::EnableTimerClock,
        run_log(half_cycles)[i].spec_register().spec_peripheral() == Peripheral::Gpiod ==> exists|
            j: int,
        |
            0 <= j < i && run_log(half_cycles)[j] == RegisterWrite::EnablePortClock,
{
    let log = run_log(half_cycles);
    assert(log[0] == RegisterWrite::EnableTimerClock);
    assert(log[3] == RegisterWrite::EnablePortClock);
}

/// A run on a board whose peripherals were free adds `run_log` to the log.
pub proof fn run_logs(board: BoardView, half_cycles: nat)
    requires
        !board.taken,
    ensures
        board.after_run(half_cycles).log == board.log + run_log(half_cycles),
{
    assert(board.after_run(half_cycles).log =~= board.log + run_log(half_cycles));
}

/// The levels to which the writes in `log` drive the pin, oldest first.
pub open spec fn pin_levels(log: Seq<RegisterWrite>) -> Seq<bool>
    decreases log.len(),
{
    if log.len() == 0 {
        Seq::empty()
    } else {
        match log.last() {
            RegisterWrite::DrivePin(level) => pin_levels(log.drop_last()).push(level),
            _ => pin_levels(log.drop_last()),
        }
    }
}

/// The setup leaves the pin alone.
proof fn setup_drives_nothing()
    ensures
        pin_levels(run_log(0)) == Seq::<bool>::empty(),
{
    let log = run_log(0);
    assert(blink_log(0) =~= Seq::<RegisterWrite>::empty());
    let four = log.drop_last();
    let three = four.drop_last();
    let two = three.drop_last();
    let one = two.drop_last();
    assert(one.drop_last().len() == 0);
    assert(pin_levels(one.drop_last()) == Seq::<bool>::empty());
    assert(pin_levels(one) == Seq::<bool>::empty());
    assert(pin_levels(two) == Seq::<bool>::empty());
    assert(pin_levels(three) == Seq::<bool>::empty());
    assert(pin_levels(four) == Seq::<bool>::empty());
}

/// A run of `half_cycles` half periods drives the pin `half_cycles` times,
/// to high and low in turn and to high first. The pin is low after a reset,
/// so every one of these writes changes its level.
pub proof fn pin_alternates(half_cycles: nat)
    ensures
        pin_levels(run_log(half_cycles)) == Seq::new(half_cycles, |k: int| k % 2 == 0),
        forall|k: int|
            0 <= k < half_cycles ==> #[trigger] run_log(half_cycles)[5 + 4 * k]
                == RegisterWrite::DrivePin(k % 2 == 0),
    decreases half_cycles,
{
    if half_cycles == 0 {
        setup_drives_nothing();
        assert(pin_levels(run_log(0)) =~= Seq::new(0, |k: int| k % 2 == 0));
    } else {
        let fewer = (half_cycles - 1) as nat;
        let base = 4 * fewer as int;
        pin_alternates(fewer);
        let log = run_log(half_cycles);
        let three = log.drop_last();
        let two = three.drop_last();
        let one = two.drop_last();
        assert(one.drop_last() =~= run_log(fewer));
        assert(log.last() == blink_write(base + 3));
        assert(three.last() == blink_write(base + 2));
        assert(two.last() == blink_write(base + 1));
        assert(one.last() == blink_write(base));
        assert(pin_levels(one) == pin_levels(run_log(fewer)).push(fewer % 2 == 0));
        assert(pin_levels(two) == pin_levels(one));
        assert(pin_levels(three) == pin_levels(two));
        assert(pin_levels(log) == pin_levels(three));
        assert(pin_levels(log) =~= Seq::new(half_cycles, |k: int| k % 2 == 0));
        assert forall|k: int| 0 <= k < half_cycles implies #[trigger] log[5 + 4 * k]
            == RegisterWrite::DrivePin(k % 2 == 0) by {
            assert(log[5 + 4 * k] == blink_write(4 * k));
        }
    }
}

/// Once halted, the firmware stays halted whatever it is told, and asks for
/// nothing but idling: it writes no register again.
pub proof fn halted_for_ever(replies: Seq<Reply>)
    ensures
        Program::Halted.spec_after(replies) == Program::Halted,
        Program::Halted.spec_after(replies).spec_action() == Action::Idle,
    decreases replies.len(),
{
    if replies.len() > 0 {
        halted_for_ever(replies.drop_last());
    }
}

/// Where the peripherals cannot be had, the firmware halts at once and stays
/// halted: after the refusal and whatever follows it, it asks for nothing but
/// idling.
pub proof fn halts_without_peripherals(replies: Seq<Reply>)
    requires
        replies.len() > 0,
        replies[0] == Reply::Unavailable,
    ensures
        Program::spec_boot().spec_after(replies) == Program::Halted,
        Program::spec_boot().spec_after(replies).spec_action() == Action::Idle,
    decreases replies.len(),
{
    if replies.len() == 1 {
        assert(replies.drop_last().len() == 0);
        assert(Program::spec_boot().spec_after(replies.drop_last()) == Program::Boot);
    } else {
        halts_without_peripherals(replies.drop_last());
    }
}

/// The levels to which the firmware, begun in `program`, has driven the pin
/// when it has had `replies`: one level for each drive that was answered,
/// oldest first.
pub open spec fn levels_driven(program: Program, replies: Seq<Reply>) -> Seq<bool>
    decreases replies.len(),
{
    if replies.len() == 0 {
        Seq::empty()
    } else {
        let earlier = levels_driven(program, replies.drop_last());
        match program.spec_after(replies.drop_last()) {
            Program::Drive(level) => if replies.last() == Reply::Done {
                earlier.push(level)
            } else {
                earlier
            },
            _ => earlier,
        }
    }
}

/// Whether one of `replies` says that the peripherals were acquired.
pub open spec fn acquired(replies: Seq<Reply>) -> bool {
    exists|k: int| 0 <= k < replies.len() && replies[k] == Reply::Acquired
}

/// On any hardware, whatever its counter reads: the firmware drives the pin
/// to high and low in turn and to high first, every delay it waits for is one
/// of `BLINK_TICKS`, the level it holds while it waits is the one it drove
/// last, and it asks for a register only once it was told that the
/// peripherals were acquired. A halted firmware has never driven the pin.
pub proof fn blinks_on_any_hardware(replies: Seq<Reply>)
    ensures
        levels_driven(Program::spec_boot(), replies) == Seq::new(
            levels_driven(Program::spec_boot(), replies).len(),
            |k: int| k % 2 == 0,
        ),
        match Program::spec_boot().spec_after(replies) {
            Program::Boot => levels_driven(Program::spec_boot(), replies).len() == 0 && !acquired(
                replies,
            ),
            Program::Halted => levels_driven(Program::spec_boot(), replies).len() == 0,
            Program::Init(_) => levels_driven(Program::spec_boot(), replies).len() == 0 && acquired(
                replies,
            ),
            Program::Drive(level) => level == (levels_driven(Program::spec_boot(), replies).len()
                % 2 == 0) && acquired(replies),
            Program::Wait(level, delay) => delay.ticks == BLINK_TICKS && levels_driven(
                Program::spec_boot(),
                replies,
            ).len() > 0 && level == levels_driven(Program::spec_boot(), replies).last()
                && acquired(replies),
        },
    decreases replies.len(),
{
    let boot = Program::spec_boot();
    let levels = levels_driven(boot, replies);
    if replies.len() == 0 {
        assert(levels =~= Seq::new(0, |k: int| k % 2 == 0));
    } else {
        let fewer = replies.drop_last();
        blinks_on_any_hardware(fewer);
        let before = boot.spec_after(fewer);
        let earlier = levels_driven(boot, fewer);
        assert(levels =~= Seq::new(levels.len(), |k: int| k % 2 == 0));
        if acquired(fewer) {
            let k = choose|k: int| 0 <= k < fewer.len() && fewer[k] == Reply::Acquired;
            assert(replies[k] == Reply::Acquired);
        }
        if before == Program::Boot && replies.last() == Reply::Acquired {
            assert(replies[replies.len() - 1] == Reply::Acquired);
        }
        if acquired(replies) && !acquired(fewer) {
            let k = choose|k: int| 0 <= k < replies.len() && replies[k] == Reply::Acquired;
            if k < fewer.len() {
                assert(fewer[k] == Reply::Acquired);
            }
            assert(replies.last() == Reply::Acquired);
        }
    }
}

/// The board after each of `actions` in turn.
pub open spec fn after_all(board: BoardView, actions: Seq<Action>) -> BoardView
    decreases actions.len(),
{
    if actions.len() == 0 {
        board
    } else {
        after_all(board, actions.drop_last()).after(actions.last())
    }
}

/// The peripherals can be had once: the board answers the first request with
/// ownership and, whatever is done on it afterwards, every later one with a
/// refusal.
pub proof fn peripherals_are_had_once(board: BoardView, actions: Seq<Action>)
    ensures
        board.reply(Action::Acquire) == Reply::Acquired <==> !board.taken,
        after_all(board.after(Action::Acquire), actions).reply(Action::Acquire)
            == Reply::Unavailable,
    decreases actions.len(),
{
    if actions.len() > 0 {
        peripherals_are_had_once(board, actions.drop_last());
    }
}

} // verus!
