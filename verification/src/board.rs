//! A board in simulation: the registers that the firmware touches, held as
//! plain words, with a counter that advances by one each time it is read
//! while it runs.

use crate::action::{Action, Reply};
use crate::registers::{Field, Register, RegisterWrite};
use vstd::prelude::*;

verus! {

/// The simulated board.
#[derive(Clone, Debug, PartialEq, Eq)]
pub struct Board {
    /// Whether the peripherals have been acquired.
    pub taken: bool,
    /// Clock configuration register of the RCC.
    pub cfgr: u32,
    /// APB2 peripheral clock enable register of the RCC.
    pub apb2enr: u32,
    /// APB1 peripheral clock enable register of the RCC.
    pub apb1enr: u32,
    /// Port configuration register high of port D.
    pub crh: u32,
    /// Port output data register of port D.
    pub odr: u32,
    /// Control register 1 of timer 2.
    pub cr1: u32,
    /// The sixteen bits of the counter of timer 2.
    pub count: u16,
    /// Prescaler of timer 2.
    pub psc: u32,
    /// Every write performed so far, oldest first.
    pub log: Vec<RegisterWrite>,
}

/// What a simulated board holds.
pub struct BoardView {
    /// Whether the peripherals have been acquired.
    pub taken: bool,
    /// Clock configuration register of the RCC.
    pub cfgr: u32,
    /// APB2 peripheral clock enable register of the RCC.
    pub apb2enr: u32,
    /// APB1 peripheral clock enable register of the RCC.
    pub apb1enr: u32,
    /// Port configuration register high of port D.
    pub crh: u32,
    /// Port output data register of port D.
    pub odr: u32,
    /// Control register 1 of timer 2.
    pub cr1: u32,
    /// The sixteen bits of the counter of timer 2.
    pub count: u16,
    /// Prescaler of timer 2.
    pub psc: u32,
    /// Every write performed so far, oldest first.
    pub log: Seq<RegisterWrite>,
}

impl View for Board {
    type V = BoardView;

    open spec fn view(&self) -> BoardView {
        BoardView {
            taken: self.taken,
            cfgr: self.cfgr,
            apb2enr: self.apb2enr,
            apb1enr: self.apb1enr,
            crh: self.crh,
            odr: self.odr,
            cr1: self.cr1,
            count: self.count,
            psc: self.psc,
            log: self.log@,
        }
    }
}

impl BoardView {
    /// The board after a reset: every register at its reset value, the
    /// peripherals free, nothing written.
    pub open spec fn power_on() -> BoardView {
        BoardView {
            taken: false,
            cfgr: Register::RccCfgr.spec_reset_value(),
            apb2enr: Register::RccApb2enr.spec_reset_value(),
            apb1enr: Register::RccApb1enr.spec_reset_value(),
            crh: Register::GpiodCrh.spec_reset_value(),
            odr: Register::GpiodOdr.spec_reset_value(),
            cr1: Register::Tim2Cr1.spec_reset_value(),
            count: 0,
            psc: Register::Tim2Psc.spec_reset_value(),
            log: Seq::empty(),
        }
    }

    /// The word in `register`.
    pub open spec fn read(self, register: Register) -> u32 {
        match register {
            Register::RccCfgr => self.cfgr,
            Register::RccApb2enr => self.apb2enr,
            Register::RccApb1enr => self.apb1enr,
            Register::GpiodCrh => self.crh,
            Register::GpiodOdr => self.odr,
            Register::Tim2Cr1 => self.cr1,
            Register::Tim2Cnt => self.count as u32,
            Register::Tim2Psc => self.psc,
        }
    }

    /// Whether two boards hold the same word in every register.
    pub open spec fn same_registers(self, other: BoardView) -> bool {
        forall|register: Register| self.read(register) == other.read(register)
    }

    /// Whether the timer's counter is enabled.
    pub open spec fn timer_running(self) -> bool {
        Field::Cen.spec_extract(self.cr1) == 1
    }

    /// Whether pin 13 is driven high.
    pub open spec fn pin_high(self) -> bool {
        Field::Odr13.spec_extract(self.odr) == 1
    }

    /// The board after `write`: the written register holds the write's word,
    /// the other registers what they held, and the log has grown by the write.
    /// Of a word written to the counter its low sixteen bits are kept.
    pub open spec fn write(self, write: RegisterWrite) -> BoardView {
        let word = write.spec_value();
        let logged = BoardView { log: self.log.push(write), ..self };
        match write.spec_register() {
            Register::RccCfgr => BoardView { cfgr: word, ..logged },
            Register::RccApb2enr => BoardView { apb2enr: word, ..logged },
            Register::RccApb1enr => BoardView { apb1enr: word, ..logged },
            Register::GpiodCrh => BoardView { crh: word, ..logged },
            Register::GpiodOdr => BoardView { odr: word, ..logged },
            Register::Tim2Cr1 => BoardView { cr1: word, ..logged },
            Register::Tim2Cnt => BoardView { count: (word & 0xffff) as u16, ..logged },
            Register::Tim2Psc => BoardView { psc: word, ..logged },
        }
    }

    /// The count that follows `count` on a running counter: one more, and zero
    /// after the largest.
    pub open spec fn next_count(count: u16) -> u16 {
        if count == 0xffff {
            0
        } else {
            (count + 1) as u16
        }
    }

    /// The board after its counter was read: a running counter has advanced
    /// by one, a stopped one has kept its count.
    pub open spec fn polled(self) -> BoardView {
        if self.timer_running() {
            BoardView { count: Self::next_count(self.count), ..self }
        } else {
            self
        }
    }

    /// The board after `action`.
    pub open spec fn after(self, action: Action) -> BoardView {
        match action {
            Action::Acquire => BoardView { taken: true, ..self },
            Action::Write(write) => self.write(write),
            Action::ReadCount => self.polled(),
            Action::Idle => self,
        }
    }

    /// The board's reply to `action`. The peripherals can be acquired once; a
    /// read of the counter gives the count before it advances.
    pub open spec fn reply(self, action: Action) -> Reply {
        match action {
            Action::Acquire => if self.taken {
                Reply::Unavailable
            } else {
                Reply::Acquired
            },
            Action::Write(_) => Reply::Done,
            Action::ReadCount => Reply::Count(self.count),
            Action::Idle => Reply::Done,
        }
    }
}

impl Board {
    /// A board after a reset.
    pub fn power_on() -> (board: Board)
        ensures
            board@ == BoardView::power_on(),
    {
        Board {
            taken: false,
            cfgr: Register::RccCfgr.reset_value(),
            apb2enr: Register::RccApb2enr.reset_value(),
            apb1enr: Register::RccApb1enr.reset_value(),
            crh: Register::GpiodCrh.reset_value(),
            odr: Register::GpiodOdr.reset_value(),
            cr1: Register::Tim2Cr1.reset_value(),
            count: 0,
            psc: Register::Tim2Psc.reset_value(),
            log: Vec::new(),
        }
    }

    /// Reads `register` without any effect on the board.
    pub fn read(&self, register: Register) -> (word: u32)
        ensures
            word == self@.read(register),
    {
        match register {
            Register::RccCfgr => self.cfgr,
            Register::RccApb2enr => self.apb2enr,
            Register::RccApb1enr => self.apb1enr,
            Register::GpiodCrh => self.crh,
            Register::GpiodOdr => self.odr,
            Register::Tim2Cr1 => self.cr1,
            Register::Tim2Cnt => self.count as u32,
            Register::Tim2Psc => self.psc,
        }
    }

    /// Whether the timer's counter is enabled.
    pub fn timer_running(&self) -> (running: bool)
        ensures
            running == self@.timer_running(),
    {
        Field::Cen.extract(self.cr1) == 1
    }

    /// Whether pin 13 is driven high.
    pub fn pin_high(&self) -> (high: bool)
        ensures
            high == self@.pin_high(),
    {
        Field::Odr13.extract(self.odr) == 1
    }

    /// Performs `write` and logs it.
    pub fn write(&mut self, write: RegisterWrite)
        ensures
            final(self)@ == old(self)@.write(write),
    {
        let word = write.value();
        match write.register() {
            Register::RccCfgr => self.cfgr = word,
            Register::RccApb2enr => self.apb2enr = word,
            Register::RccApb1enr => self.apb1enr = word,
            Register::GpiodCrh => self.crh = word,
            Register::GpiodOdr => self.odr = word,
            Register::Tim2Cr1 => self.cr1 = word,
            Register::Tim2Cnt => self.count = (word & 0xffff) as u16,
            Register::Tim2Psc => self.psc = word,
        }
        self.log.push(write);
    }

    /// Carries out `action` and gives the board's reply.
    pub fn perform(&mut self, action: Action) -> (reply: Reply)
        ensures
            reply == old(self)@.reply(action),
            final(self)@ == old(self)@.after(action),
    {
        match action {
            Action::Acquire => {
                let taken = self.taken;
                self.taken = true;
                if taken {
                    Reply::Unavailable
                } else {
                    Reply::Acquired
                }
            },
            Action::Write(write) => {
                self.write(write);
                Reply::Done
            },
            Action::ReadCount => {
                let count = self.count;
                if self.timer_running() {
                    self.count = if count == 0xffff {
                        0
                    } else {
                        count + 1
                    };
                }
                Reply::Count(count)
            },
            Action::Idle => Reply::Done,
        }
    }
}

} // verus!
