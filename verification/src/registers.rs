//! The memory-mapped registers that the firmware touches, and their bit
//! fields.

use vstd::prelude::*;

verus! {

/// A peripheral of the microcontroller that the firmware uses.
#[derive(Clone, Copy, Debug, PartialEq, Eq, Structural)]
pub enum Peripheral {
    /// Reset and clock control.
    Rcc,
    /// General-purpose I/O port D.
    Gpiod,
    /// General-purpose timer 2.
    Tim2,
}

impl Peripheral {
    /// The address of the peripheral's first register.
    pub open spec fn spec_base(self) -> u32 {
        match self {
            Peripheral::Rcc => 0x4002_1000,
            Peripheral::Gpiod => 0x4001_1400,
            Peripheral::Tim2 => 0x4000_0000,
        }
    }

    /// The address of the peripheral's first register.
    #[verifier::when_used_as_spec(spec_base)]
    pub fn base(self) -> (a: u32)
        ensures
            a == self.spec_base(),
    {
        match self {
            Peripheral::Rcc => 0x4002_1000,
            Peripheral::Gpiod => 0x4001_1400,
            Peripheral::Tim2 => 0x4000_0000,
        }
    }
}

/// A 32-bit register that the firmware reads or writes.
#[derive(Clone, Copy, Debug, PartialEq, Eq, Structural)]
pub enum Register {
    /// Clock configuration register of the RCC.
    RccCfgr,
    /// APB2 peripheral clock enable register of the RCC.
    RccApb2enr,
    /// APB1 peripheral clock enable register of the RCC.
    RccApb1enr,
    /// Port configuration register high of port D (pins 8 to 15).
    GpiodCrh,
    /// Port output data register of port D.
    GpiodOdr,
    /// Control register 1 of timer 2.
    Tim2Cr1,
    /// Counter of timer 2.
    Tim2Cnt,
    /// Prescaler of timer 2.
    Tim2Psc,
}

impl Register {
    /// The peripheral that the register belongs to.
    pub open spec fn spec_peripheral(self) -> Peripheral {
        match self {
            Register::RccCfgr | Register::RccApb2enr | Register::RccApb1enr => Peripheral::Rcc,
            Register::GpiodCrh | Register::GpiodOdr => Peripheral::Gpiod,
            Register::Tim2Cr1 | Register::Tim2Cnt | Register::Tim2Psc => Peripheral::Tim2,
        }
    }

    /// The peripheral that the register belongs to.
    #[verifier::when_used_as_spec(spec_peripheral)]
    pub fn peripheral(self) -> (p: Peripheral)
        ensures
            p == self.spec_peripheral(),
    {
        match self {
            Register::RccCfgr | Register::RccApb2enr | Register::RccApb1enr => Peripheral::Rcc,
            Register::GpiodCrh | Register::GpiodOdr => Peripheral::Gpiod,
            Register::Tim2Cr1 | Register::Tim2Cnt | Register::Tim2Psc => Peripheral::Tim2,
        }
    }

    /// The register's distance in bytes from its peripheral's base.
    pub open spec fn spec_offset(self) -> u32 {
        match self {
            Register::RccCfgr => 0x04,
            Register::RccApb2enr => 0x18,
            Register::RccApb1enr => 0x1c,
            Register::GpiodCrh => 0x04,
            Register::GpiodOdr => 0x0c,
            Register::Tim2Cr1 => 0x00,
            Register::Tim2Cnt => 0x24,
            Register::Tim2Psc => 0x28,
        }
    }

    /// The register's distance in bytes from its peripheral's base.
    #[verifier::when_used_as_spec(spec_offset)]
    pub fn offset(self) -> (o: u32)
        ensures
            o == self.spec_offset(),
    {
        match self {
            Register::RccCfgr => 0x04,
            Register::RccApb2enr => 0x18,
            Register::RccApb1enr => 0x1c,
            Register::GpiodCrh => 0x04,
            Register::GpiodOdr => 0x0c,
            Register::Tim2Cr1 => 0x00,
            Register::Tim2Cnt => 0x24,
            Register::Tim2Psc => 0x28,
        }
    }

    /// The register's address: its peripheral's base plus its offset.
    pub open spec fn spec_address(self) -> u32 {
        (self.spec_peripheral().spec_base() + self.spec_offset()) as u32
    }

    /// The register's address in the memory map.
    #[verifier::when_used_as_spec(spec_address)]
    pub fn address(self) -> (a: u32)
        ensures
            a == self.spec_address(),
            a == self.spec_peripheral().spec_base() + self.spec_offset(),
    {
        self.peripheral().base() + self.offset()
    }

    /// The word that the register holds after a reset.
    pub open spec fn spec_reset_value(self) -> u32 {
        match self {
            Register::GpiodCrh => 0x4444_4444,
            _ => 0,
        }
    }

    /// The word that the register holds after a reset.
    #[verifier::when_used_as_spec(spec_reset_value)]
    pub fn reset_value(self) -> (w: u32)
        ensures
            w == self.spec_reset_value(),
    {
        match self {
            Register::GpiodCrh => 0x4444_4444,
            _ => 0,
        }
    }
}

/// No two registers share an address, and every address is word-aligned.
pub proof fn addresses_distinct_and_aligned(a: Register, b: Register)
    ensures
        a.spec_address() % 4 == 0,
        a.spec_address() == b.spec_address() ==> a == b,
{
}

/// A bit field of one of the registers.
#[derive(Clone, Copy, Debug, PartialEq, Eq, Structural)]
pub enum Field {
    /// APB1 prescaler, in the clock configuration register.
    Ppre1,
    /// Clock enable of I/O port D, in the APB2 clock enable register.
    Iopden,
    /// Clock enable of timer 2, in the APB1 clock enable register.
    Tim2en,
    /// Mode of pin 13, in the port's configuration register high.
    Mode13,
    /// Configuration of pin 13, in the port's configuration register high.
    Cnf13,
    /// Output level of pin 13, in the port's output data register.
    Odr13,
    /// Counter enable, in the timer's control register 1.
    Cen,
    /// Counter value, in the timer's counter register.
    Cnt,
    /// Prescaler value, in the timer's prescaler register.
    Psc,
}

/// Value of `Ppre1` that divides the bus clock by 16.
pub const PPRE1_DIV16: u32 = 7;

/// Value of `Mode13` for an output of at most 10 MHz.
pub const MODE_OUTPUT: u32 = 1;

/// Value of `Cnf13` that drives an output push-pull.
pub const CNF_PUSH_PULL: u32 = 0;

/// The largest prescaler value.
pub const PSC_MAX: u32 = 0xffff;

impl Field {
    /// The register that holds the field.
    pub open spec fn spec_register(self) -> Register {
        match self {
            Field::Ppre1 => Register::RccCfgr,
            Field::Iopden => Register::RccApb2enr,
            Field::Tim2en => Register::RccApb1enr,
            Field::Mode13 | Field::Cnf13 => Register::GpiodCrh,
            Field::Odr13 => Register::GpiodOdr,
            Field::Cen => Register::Tim2Cr1,
            Field::Cnt => Register::Tim2Cnt,
            Field::Psc => Register::Tim2Psc,
        }
    }

    /// The register that holds the field.
    #[verifier::when_used_as_spec(spec_register)]
    pub fn register(self) -> (r: Register)
        ensures
            r == self.spec_register(),
    {
        match self {
            Field::Ppre1 => Register::RccCfgr,
            Field::Iopden => Register::RccApb2enr,
            Field::Tim2en => Register::RccApb1enr,
            Field::Mode13 | Field::Cnf13 => Register::GpiodCrh,
            Field::Odr13 => Register::GpiodOdr,
            Field::Cen => Register::Tim2Cr1,
            Field::Cnt => Register::Tim2Cnt,
            Field::Psc => Register::Tim2Psc,
        }
    }

    /// The position of the field's lowest bit in its register.
    pub open spec fn spec_shift(self) -> u32 {
        match self {
            Field::Ppre1 => 8,
            Field::Iopden => 5,
            Field::Tim2en => 0,
            Field::Mode13 => 20,
            Field::Cnf13 => 22,
            Field::Odr13 => 13,
            Field::Cen => 0,
            Field::Cnt => 0,
            Field::Psc => 0,
        }
    }

    /// The position of the field's lowest bit in its register.
    #[verifier::when_used_as_spec(spec_shift)]
    pub fn shift(self) -> (s: u32)
        ensures
            s == self.spec_shift(),
    {
        match self {
            Field::Ppre1 => 8,
            Field::Iopden => 5,
            Field::Tim2en => 0,
            Field::Mode13 => 20,
            Field::Cnf13 => 22,
            Field::Odr13 => 13,
            Field::Cen => 0,
            Field::Cnt => 0,
            Field::Psc => 0,
        }
    }

    /// The number of bits in the field.
    pub open spec fn spec_width(self) -> u32 {
        match self {
            Field::Ppre1 => 3,
            Field::Mode13 | Field::Cnf13 => 2,
            Field::Cnt | Field::Psc => 16,
            Field::Iopden | Field::Tim2en | Field::Odr13 | Field::Cen => 1,
        }
    }

    /// The number of bits in the field.
    #[verifier::when_used_as_spec(spec_width)]
    pub fn width(self) -> (w: u32)
        ensures
            w == self.spec_width(),
    {
        match self {
            Field::Ppre1 => 3,
            Field::Mode13 | Field::Cnf13 => 2,
            Field::Cnt | Field::Psc => 16,
            Field::Iopden | Field::Tim2en | Field::Odr13 | Field::Cen => 1,
        }
    }

    /// The largest value that fits the field: its width in ones.
    pub open spec fn spec_mask(self) -> u32 {
        0xffff_ffffu32 >> ((32 - self.spec_width()) as u32)
    }

    /// The largest value that fits the field: its width in ones.
    #[verifier::when_used_as_spec(spec_mask)]
    pub fn mask(self) -> (m: u32)
        ensures
            m == self.spec_mask(),
    {
        0xffff_ffffu32 >> (32 - self.width())
    }

    /// `word` with the field replaced by the low bits of `value`.
    pub open spec fn spec_insert(self, word: u32, value: u32) -> u32 {
        (word & !(self.spec_mask() << self.spec_shift())) | ((value & self.spec_mask())
            << self.spec_shift())
    }

    /// Replaces the field in `word` by the low bits of `value` and leaves
    /// every other bit as it is.
    #[verifier::when_used_as_spec(spec_insert)]
    pub fn insert(self, word: u32, value: u32) -> (r: u32)
        ensures
            r == self.spec_insert(word, value),
    {
        let mask = self.mask();
        let shift = self.shift();
        (word & !(mask << shift)) | ((value & mask) << shift)
    }

    /// The field's value in `word`.
    pub open spec fn spec_extract(self, word: u32) -> u32 {
        (word >> self.spec_shift()) & self.spec_mask()
    }

    /// Reads the field's value out of `word`.
    #[verifier::when_used_as_spec(spec_extract)]
    pub fn extract(self, word: u32) -> (v: u32)
        ensures
            v == self.spec_extract(word),
    {
        (word >> self.shift()) & self.mask()
    }
}

/// A field holds what was last inserted, cut to the field's width, and an
/// insertion changes no bit outside the field.
pub proof fn insert_then_extract(field: Field, word: u32, value: u32)
    ensures
        field.spec_extract(field.spec_insert(word, value)) == value & field.spec_mask(),
        field.spec_insert(word, value) & !(field.spec_mask() << field.spec_shift()) == word & !(
        field.spec_mask() << field.spec_shift()),
{
    let s = field.spec_shift();
    let w = field.spec_width();
    assert(1 <= w && s + w <= 32);
    let d: u32 = (32 - w) as u32;
    let m: u32 = 0xffff_ffffu32 >> d;
    assert((((word & !(m << s)) | ((value & m) << s)) >> s) & m == value & m) by (bit_vector)
        requires
            m == 0xffff_ffffu32 >> d,
            s <= d,
            d < 32,
    ;
    assert(((word & !(m << s)) | ((value & m) << s)) & !(m << s) == word & !(m << s))
        by (bit_vector);
}

/// A register write that the firmware performs. Each one replaces the whole
/// register: the named fields take the given values, every other field its
/// reset value.
#[derive(Clone, Copy, Debug, PartialEq, Eq, Structural)]
pub enum RegisterWrite {
    /// Opens the clock gate of timer 2.
    EnableTimerClock,
    /// Sets the timer's prescaler to its largest divisor.
    SetTimerPrescaler,
    /// Divides the clock of the bus that the timer sits on by 16.
    SetBusPrescaler,
    /// Opens the clock gate of I/O port D.
    EnablePortClock,
    /// Makes pin 13 a push-pull output.
    ConfigurePin,
    /// Drives pin 13 high (`true`) or low (`false`).
    DrivePin(bool),
    /// Sets the timer's counter to zero.
    ClearCount,
    /// Starts (`true`) or stops (`false`) the timer's counter.
    RunTimer(bool),
}

impl RegisterWrite {
    /// The register that is written.
    pub open spec fn spec_register(self) -> Register {
        match self {
            RegisterWrite::EnableTimerClock => Register::RccApb1enr,
            RegisterWrite::SetTimerPrescaler => Register::Tim2Psc,
            RegisterWrite::SetBusPrescaler => Register::RccCfgr,
            RegisterWrite::EnablePortClock => Register::RccApb2enr,
            RegisterWrite::ConfigurePin => Register::GpiodCrh,
            RegisterWrite::DrivePin(_) => Register::GpiodOdr,
            RegisterWrite::ClearCount => Register::Tim2Cnt,
            RegisterWrite::RunTimer(_) => Register::Tim2Cr1,
        }
    }

    /// The register that is written.
    #[verifier::when_used_as_spec(spec_register)]
    pub fn register(self) -> (r: Register)
        ensures
            r == self.spec_register(),
    {
        match self {
            RegisterWrite::EnableTimerClock => Register::RccApb1enr,
            RegisterWrite::SetTimerPrescaler => Register::Tim2Psc,
            RegisterWrite::SetBusPrescaler => Register::RccCfgr,
            RegisterWrite::EnablePortClock => Register::RccApb2enr,
            RegisterWrite::ConfigurePin => Register::GpiodCrh,
            RegisterWrite::DrivePin(_) => Register::GpiodOdr,
            RegisterWrite::ClearCount => Register::Tim2Cnt,
            RegisterWrite::RunTimer(_) => Register::Tim2Cr1,
        }
    }

    /// The word that is written.
    pub open spec fn spec_value(self) -> u32 {
        match self {
            RegisterWrite::EnableTimerClock => 0x0000_0001,
            RegisterWrite::SetTimerPrescaler => 0x0000_ffff,
            RegisterWrite::SetBusPrescaler => 0x0000_0700,
            RegisterWrite::EnablePortClock => 0x0000_0020,
            RegisterWrite::ConfigurePin => 0x4414_4444,
            RegisterWrite::DrivePin(level) => if level { 0x0000_2000 } else { 0 },
            RegisterWrite::ClearCount => 0,
            RegisterWrite::RunTimer(run) => if run { 0x0000_0001 } else { 0 },
        }
    }

    /// The word that is written: the register's reset value with the
    /// write's fields inserted.
    #[verifier::when_used_as_spec(spec_value)]
    pub fn value(self) -> (w: u32)
        ensures
            w == self.spec_value(),
    {
        let reset = self.register().reset_value();
        proof {
            fields_compose(self);
        }
        match self {
            RegisterWrite::EnableTimerClock => Field::Tim2en.insert(reset, 1),
            RegisterWrite::SetTimerPrescaler => Field::Psc.insert(reset, PSC_MAX),
            RegisterWrite::SetBusPrescaler => Field::Ppre1.insert(reset, PPRE1_DIV16),
            RegisterWrite::EnablePortClock => Field::Iopden.insert(reset, 1),
            RegisterWrite::ConfigurePin => Field::Cnf13.insert(
                Field::Mode13.insert(reset, MODE_OUTPUT),
                CNF_PUSH_PULL,
            ),
            RegisterWrite::DrivePin(level) => Field::Odr13.insert(reset, bit(level)),
            RegisterWrite::ClearCount => Field::Cnt.insert(reset, 0),
            RegisterWrite::RunTimer(run) => Field::Cen.insert(reset, bit(run)),
        }
    }
}

/// One for `true`, zero for `false`.
pub open spec fn spec_bit(b: bool) -> u32 {
    if b {
        1
    } else {
        0
    }
}

/// One for `true`, zero for `false`.
#[verifier::when_used_as_spec(spec_bit)]
pub fn bit(b: bool) -> (v: u32)
    ensures
        v == spec_bit(b),
{
    if b {
        1
    } else {
        0
    }
}

/// The word of each write is its register's reset value with the write's
/// fields set: the clock enables and the counter enable to one, the prescalers
/// to their divisors, the pin's mode and configuration to a push-pull output,
/// the pin's level and the counter's run bit to the value asked for, the count
/// to zero.
pub proof fn fields_compose(write: RegisterWrite)
    ensures
        write.spec_value() == match write {
            RegisterWrite::EnableTimerClock => Field::Tim2en.spec_insert(0, 1),
            RegisterWrite::SetTimerPrescaler => Field::Psc.spec_insert(0, PSC_MAX),
            RegisterWrite::SetBusPrescaler => Field::Ppre1.spec_insert(0, PPRE1_DIV16),
            RegisterWrite::EnablePortClock => Field::Iopden.spec_insert(0, 1),
            RegisterWrite::ConfigurePin => Field::Cnf13.spec_insert(
                Field::Mode13.spec_insert(0x4444_4444, MODE_OUTPUT),
                CNF_PUSH_PULL,
            ),
            RegisterWrite::DrivePin(level) => Field::Odr13.spec_insert(0, spec_bit(level)),
            RegisterWrite::ClearCount => Field::Cnt.spec_insert(0, 0),
            RegisterWrite::RunTimer(run) => Field::Cen.spec_insert(0, spec_bit(run)),
        },
{
    assert(0xffff_ffffu32 >> 31u32 == 1u32) by (bit_vector);
    assert(0xffff_ffffu32 >> 30u32 == 3u32) by (bit_vector);
    assert(0xffff_ffffu32 >> 29u32 == 7u32) by (bit_vector);
    assert(0xffff_ffffu32 >> 16u32 == 0xffffu32) by (bit_vector);
    match write {
        RegisterWrite::EnableTimerClock | RegisterWrite::RunTimer(true) => {
            assert((0u32 & !(1u32 << 0u32)) | ((1u32 & 1u32) << 0u32) == 1u32) by (bit_vector);
        },
        RegisterWrite::RunTimer(false) => {
            assert((0u32 & !(1u32 << 0u32)) | ((0u32 & 1u32) << 0u32) == 0u32) by (bit_vector);
        },
        RegisterWrite::SetTimerPrescaler => {
            assert((0u32 & !(0xffffu32 << 0u32)) | ((0xffffu32 & 0xffffu32) << 0u32) == 0xffffu32)
                by (bit_vector);
        },
        RegisterWrite::ClearCount => {
            assert((0u32 & !(0xffffu32 << 0u32)) | ((0u32 & 0xffffu32) << 0u32) == 0u32)
                by (bit_vector);
        },
        RegisterWrite::SetBusPrescaler => {
            assert((0u32 & !(7u32 << 8u32)) | ((7u32 & 7u32) << 8u32) == 0x700u32)
                by (bit_vector);
        },
        RegisterWrite::EnablePortClock => {
            assert((0u32 & !(1u32 << 5u32)) | ((1u32 & 1u32) << 5u32) == 0x20u32) by (bit_vector);
        },
        RegisterWrite::ConfigurePin => {
            assert((0x4444_4444u32 & !(3u32 << 20u32)) | ((1u32 & 3u32) << 20u32) == 0x4454_4444u32)
                by (bit_vector);
            assert((0x4454_4444u32 & !(3u32 << 22u32)) | ((0u32 & 3u32) << 22u32) == 0x4414_4444u32)
                by (bit_vector);
        },
        RegisterWrite::DrivePin(true) => {
            assert((0u32 & !(1u32 << 13u32)) | ((1u32 & 1u32) << 13u32) == 0x2000u32)
                by (bit_vector);
        },
        RegisterWrite::DrivePin(false) => {
            assert((0u32 & !(1u32 << 13u32)) | ((0u32 & 1u32) << 13u32) == 0u32) by (bit_vector);
        },
    }
}

/// The fields that a write names read back from its word with the values
/// that the write gave them.
pub proof fn written_fields_read_back(write: RegisterWrite)
    ensures
        match write {
            RegisterWrite::EnableTimerClock => Field::Tim2en.spec_extract(write.spec_value()) == 1,
            RegisterWrite::SetTimerPrescaler => Field::Psc.spec_extract(write.spec_value())
                == PSC_MAX,
            RegisterWrite::SetBusPrescaler => Field::Ppre1.spec_extract(write.spec_value())
                == PPRE1_DIV16,
            RegisterWrite::EnablePortClock => Field::Iopden.spec_extract(write.spec_value()) == 1,
            RegisterWrite::ConfigurePin => Field::Mode13.spec_extract(write.spec_value())
                == MODE_OUTPUT && Field::Cnf13.spec_extract(write.spec_value()) == CNF_PUSH_PULL,
            RegisterWrite::DrivePin(level) => Field::Odr13.spec_extract(write.spec_value())
                == spec_bit(level),
            RegisterWrite::ClearCount => Field::Cnt.spec_extract(write.spec_value()) == 0,
            RegisterWrite::RunTimer(run) => Field::Cen.spec_extract(write.spec_value()) == spec_bit(
                run,
            ),
        },
{
    assert(0xffff_ffffu32 >> 31u32 == 1u32) by (bit_vector);
    assert(0xffff_ffffu32 >> 30u32 == 3u32) by (bit_vector);
    assert(0xffff_ffffu32 >> 29u32 == 7u32) by (bit_vector);
    assert(0xffff_ffffu32 >> 16u32 == 0xffffu32) by (bit_vector);
    assert((1u32 >> 0u32) & 1u32 == 1u32) by (bit_vector);
    assert((0u32 >> 0u32) & 1u32 == 0u32) by (bit_vector);
    assert((0xffffu32 >> 0u32) & 0xffffu32 == 0xffffu32) by (bit_vector);
    assert((0u32 >> 0u32) & 0xffffu32 == 0u32) by (bit_vector);
    assert((0x700u32 >> 8u32) & 7u32 == 7u32) by (bit_vector);
    assert((0x20u32 >> 5u32) & 1u32 == 1u32) by (bit_vector);
    assert((0x4414_4444u32 >> 20u32) & 3u32 == 1u32) by (bit_vector);
    assert((0x4414_4444u32 >> 22u32) & 3u32 == 0u32) by (bit_vector);
    assert((0x2000u32 >> 13u32) & 1u32 == 1u32) by (bit_vector);
    assert((0u32 >> 13u32) & 1u32 == 0u32) by (bit_vector);
}

} // verus!
