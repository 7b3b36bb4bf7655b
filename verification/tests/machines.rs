use blinky::action::{Action, Reply};
use blinky::delay::{Delay, Stage};
use blinky::program::{InitStep, Program, BLINK_TICKS};
use blinky::registers::RegisterWrite;

/// Feeds the delay the counts in turn and gives the actions it asked for, and
/// what is left of the delay after the last reply.
fn drive_delay(ticks: u16, counts: &[u16]) -> (Vec<Action>, Option<Delay>) {
    let mut delay = Delay::new(ticks);
    let mut asked = Vec::new();
    let mut counts = counts.iter();
    loop {
        let action = delay.action();
        asked.push(action);
        let reply = match action {
            Action::ReadCount => match counts.next() {
                Some(count) => Reply::Count(*count),
                None => return (asked, Some(delay)),
            },
            _ => Reply::Done,
        };
        match delay.advance(reply) {
            Some(rest) => delay = rest,
            None => return (asked, None),
        }
    }
}

#[test]
fn blink_ticks_value() {
    assert_eq!(BLINK_TICKS, 50000);
}

#[test]
fn reply_answers_action() {
    let write = Action::Write(RegisterWrite::ClearCount);
    assert!(Reply::Acquired.answers(Action::Acquire));
    assert!(Reply::Unavailable.answers(Action::Acquire));
    assert!(!Reply::Done.answers(Action::Acquire));
    assert!(!Reply::Count(0).answers(Action::Acquire));
    assert!(Reply::Done.answers(write));
    assert!(!Reply::Acquired.answers(write));
    assert!(!Reply::Count(3).answers(write));
    assert!(Reply::Count(3).answers(Action::ReadCount));
    assert!(!Reply::Done.answers(Action::ReadCount));
    assert!(Reply::Done.answers(Action::Idle));
    assert!(!Reply::Unavailable.answers(Action::Idle));
}

#[test]
fn new_delay_clears_first() {
    let delay = Delay::new(7);
    assert_eq!(delay, Delay { ticks: 7, stage: Stage::Clear });
    assert_eq!(delay.action(), Action::Write(RegisterWrite::ClearCount));
}

#[test]
fn delay_stage_actions() {
    let at = |stage| Delay { ticks: 9, stage }.action();
    assert_eq!(at(Stage::Clear), Action::Write(RegisterWrite::ClearCount));
    assert_eq!(at(Stage::Start), Action::Write(RegisterWrite::RunTimer(true)));
    assert_eq!(at(Stage::Poll), Action::ReadCount);
    assert_eq!(at(Stage::Stop), Action::Write(RegisterWrite::RunTimer(false)));
}

#[test]
fn delay_clears_before_it_starts_and_stops_last() {
    let (asked, left) = drive_delay(3, &[0, 1, 2, 3]);
    assert_eq!(
        asked,
        vec![
            Action::Write(RegisterWrite::ClearCount),
            Action::Write(RegisterWrite::RunTimer(true)),
            Action::ReadCount,
            Action::ReadCount,
            Action::ReadCount,
            Action::ReadCount,
            Action::Write(RegisterWrite::RunTimer(false)),
        ]
    );
    assert_eq!(left, None);
}

#[test]
fn delay_polls_while_count_is_below_ticks() {
    let (asked, left) = drive_delay(100, &[0, 5, 5, 99, 42]);
    assert_eq!(asked.len(), 2 + 5 + 1);
    assert_eq!(left, Some(Delay { ticks: 100, stage: Stage::Poll }));
}

#[test]
fn delay_stops_on_a_count_above_ticks() {
    let (asked, left) = drive_delay(100, &[0, 250]);
    assert_eq!(asked.len(), 5);
    assert_eq!(asked[4], Action::Write(RegisterWrite::RunTimer(false)));
    assert_eq!(left, None);
}

#[test]
fn delay_of_zero_reads_once() {
    let (asked, left) = drive_delay(0, &[0]);
    assert_eq!(
        asked,
        vec![
            Action::Write(RegisterWrite::ClearCount),
            Action::Write(RegisterWrite::RunTimer(true)),
            Action::ReadCount,
            Action::Write(RegisterWrite::RunTimer(false)),
        ]
    );
    assert_eq!(left, None);
}

#[test]
fn delay_of_largest_count_waits_for_it() {
    let polling = Delay { ticks: 0xffff, stage: Stage::Poll };
    assert_eq!(polling.advance(Reply::Count(0xfffe)), Some(polling));
    assert_eq!(
        polling.advance(Reply::Count(0xffff)),
        Some(Delay { ticks: 0xffff, stage: Stage::Stop })
    );
}

#[test]
fn delay_advances_stage_by_stage() {
    let clear = Delay::new(10);
    let start = clear.advance(Reply::Done).unwrap();
    assert_eq!(start, Delay { ticks: 10, stage: Stage::Start });
    let poll = start.advance(Reply::Done).unwrap();
    assert_eq!(poll, Delay { ticks: 10, stage: Stage::Poll });
    assert_eq!(poll.advance(Reply::Count(9)), Some(poll));
    let stop = poll.advance(Reply::Count(10)).unwrap();
    assert_eq!(stop, Delay { ticks: 10, stage: Stage::Stop });
    assert_eq!(stop.advance(Reply::Done), None);
}

#[test]
fn delay_ignores_a_reply_that_does_not_answer() {
    for stage in [Stage::Clear, Stage::Start, Stage::Stop] {
        let delay = Delay { ticks: 4, stage };
        assert_eq!(delay.advance(Reply::Count(9)), Some(delay));
        assert_eq!(delay.advance(Reply::Acquired), Some(delay));
        assert_eq!(delay.advance(Reply::Unavailable), Some(delay));
    }
    let poll = Delay { ticks: 4, stage: Stage::Poll };
    assert_eq!(poll.advance(Reply::Done), Some(poll));
    assert_eq!(poll.advance(Reply::Acquired), Some(poll));
}

#[test]
fn init_steps_in_order() {
    assert_eq!(InitStep::TimerClock.next(), Some(InitStep::TimerPrescaler));
    assert_eq!(InitStep::TimerPrescaler.next(), Some(InitStep::BusPrescaler));
    assert_eq!(InitStep::BusPrescaler.next(), Some(InitStep::PortClock));
    assert_eq!(InitStep::PortClock.next(), Some(InitStep::PinMode));
    assert_eq!(InitStep::PinMode.next(), None);
}

#[test]
fn init_step_writes() {
    assert_eq!(InitStep::TimerClock.write(), RegisterWrite::EnableTimerClock);
    assert_eq!(InitStep::TimerPrescaler.write(), RegisterWrite::SetTimerPrescaler);
    assert_eq!(InitStep::BusPrescaler.write(), RegisterWrite::SetBusPrescaler);
    assert_eq!(InitStep::PortClock.write(), RegisterWrite::EnablePortClock);
    assert_eq!(InitStep::PinMode.write(), RegisterWrite::ConfigurePin);
}

#[test]
fn program_boots_by_acquiring() {
    assert_eq!(Program::boot(), Program::Boot);
    assert_eq!(Program::boot().action(), Action::Acquire);
    assert_eq!(Program::Boot.advance(Reply::Acquired), Program::Init(InitStep::TimerClock));
}

#[test]
fn program_sets_up_then_drives_high() {
    let mut program = Program::Boot.advance(Reply::Acquired);
    let mut writes = Vec::new();
    while let Program::Init(_) = program {
        match program.action() {
            Action::Write(write) => writes.push(write),
            other => panic!("the setup asked for {:?}", other),
        }
        program = program.advance(Reply::Done);
    }
    assert_eq!(
        writes,
        vec![
            RegisterWrite::EnableTimerClock,
            RegisterWrite::SetTimerPrescaler,
            RegisterWrite::SetBusPrescaler,
            RegisterWrite::EnablePortClock,
            RegisterWrite::ConfigurePin,
        ]
    );
    assert_eq!(program, Program::Drive(true));
    assert_eq!(program.action(), Action::Write(RegisterWrite::DrivePin(true)));
}

#[test]
fn program_waits_blink_ticks_after_each_drive() {
    for level in [true, false] {
        let waiting = Program::Drive(level).advance(Reply::Done);
        assert_eq!(waiting, Program::Wait(level, Delay::new(50000)));
        assert_eq!(waiting.action(), Action::Write(RegisterWrite::ClearCount));
    }
}

#[test]
fn program_drives_the_other_level_after_the_delay() {
    for level in [true, false] {
        let mut program = Program::Drive(level).advance(Reply::Done);
        program = program.advance(Reply::Done);
        assert_eq!(program.action(), Action::Write(RegisterWrite::RunTimer(true)));
        program = program.advance(Reply::Done);
        assert_eq!(program.action(), Action::ReadCount);
        program = program.advance(Reply::Count(49999));
        assert_eq!(program.action(), Action::ReadCount);
        program = program.advance(Reply::Count(50000));
        assert_eq!(program.action(), Action::Write(RegisterWrite::RunTimer(false)));
        program = program.advance(Reply::Done);
        assert_eq!(program, Program::Drive(!level));
    }
}

#[test]
fn program_ignores_a_reply_that_does_not_answer() {
    assert_eq!(Program::Boot.advance(Reply::Done), Program::Boot);
    assert_eq!(Program::Boot.advance(Reply::Count(1)), Program::Boot);
    let init = Program::Init(InitStep::BusPrescaler);
    assert_eq!(init.advance(Reply::Acquired), init);
    assert_eq!(init.advance(Reply::Count(0)), init);
    assert_eq!(Program::Drive(true).advance(Reply::Unavailable), Program::Drive(true));
    let polling = Program::Wait(false, Delay { ticks: 50000, stage: Stage::Poll });
    assert_eq!(polling.advance(Reply::Done), polling);
}

#[test]
fn program_halts_without_peripherals() {
    let program = Program::boot().advance(Reply::Unavailable);
    assert_eq!(program, Program::Halted);
    assert_eq!(program.action(), Action::Idle);
}

#[test]
fn program_stays_halted() {
    let mut program = Program::Halted;
    let replies = [
        Reply::Done,
        Reply::Acquired,
        Reply::Count(50000),
        Reply::Unavailable,
        Reply::Done,
        Reply::Done,
    ];
    for reply in replies.iter().cycle().take(1000) {
        assert_eq!(program.action(), Action::Idle);
        program = program.advance(*reply);
        assert_eq!(program, Program::Halted);
    }
}

#[test]
fn program_blinks_whatever_the_counter_reads() {
    let counts: [u16; 7] = [0, 49999, 3, 50000, 65535, 12, 50001];
    let mut next_count = counts.iter().cycle();
    let mut program = Program::boot();
    let mut levels = Vec::new();
    let mut acquired = false;
    for _ in 0..2000 {
        let reply = match program.action() {
            Action::Acquire => {
                acquired = true;
                Reply::Acquired
            }
            Action::Write(write) => {
                assert!(acquired);
                if let RegisterWrite::DrivePin(level) = write {
                    levels.push(level);
                }
                Reply::Done
            }
            Action::ReadCount => {
                assert!(acquired);
                Reply::Count(*next_count.next().unwrap())
            }
            Action::Idle => panic!("the firmware idles though the peripherals were acquired"),
        };
        program = program.advance(reply);
        if let Program::Wait(level, delay) = program {
            assert_eq!(delay.ticks, 50000);
            assert_eq!(Some(&level), levels.last());
        }
    }
    assert!(levels.len() > 100);
    for (k, level) in levels.iter().enumerate() {
        assert_eq!(*level, k % 2 == 0);
    }
}
