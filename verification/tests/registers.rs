use blinky::registers::{
    bit, Field, Peripheral, Register, RegisterWrite, CNF_PUSH_PULL, MODE_OUTPUT, PPRE1_DIV16,
    PSC_MAX,
};

const REGISTERS: [Register; 8] = [
    Register::RccCfgr,
    Register::RccApb2enr,
    Register::RccApb1enr,
    Register::GpiodCrh,
    Register::GpiodOdr,
    Register::Tim2Cr1,
    Register::Tim2Cnt,
    Register::Tim2Psc,
];

const FIELDS: [Field; 9] = [
    Field::Ppre1,
    Field::Iopden,
    Field::Tim2en,
    Field::Mode13,
    Field::Cnf13,
    Field::Odr13,
    Field::Cen,
    Field::Cnt,
    Field::Psc,
];

#[test]
fn peripheral_bases() {
    assert_eq!(Peripheral::Rcc.base(), 0x4002_1000);
    assert_eq!(Peripheral::Gpiod.base(), 0x4001_1400);
    assert_eq!(Peripheral::Tim2.base(), 0x4000_0000);
}

#[test]
fn register_addresses() {
    assert_eq!(Register::RccCfgr.address(), 0x4002_1004);
    assert_eq!(Register::RccApb2enr.address(), 0x4002_1018);
    assert_eq!(Register::RccApb1enr.address(), 0x4002_101c);
    assert_eq!(Register::GpiodCrh.address(), 0x4001_1404);
    assert_eq!(Register::GpiodOdr.address(), 0x4001_140c);
    assert_eq!(Register::Tim2Cr1.address(), 0x4000_0000);
    assert_eq!(Register::Tim2Cnt.address(), 0x4000_0024);
    assert_eq!(Register::Tim2Psc.address(), 0x4000_0028);
}

#[test]
fn register_addresses_are_distinct_and_word_aligned() {
    for (i, a) in REGISTERS.iter().enumerate() {
        assert_eq!(a.address() % 4, 0);
        assert_eq!(a.address(), a.peripheral().base() + a.offset());
        for b in REGISTERS.iter().skip(i + 1) {
            assert_ne!(a.address(), b.address());
        }
    }
}

#[test]
fn register_reset_values() {
    for register in REGISTERS {
        let expected = if register == Register::GpiodCrh { 0x4444_4444 } else { 0 };
        assert_eq!(register.reset_value(), expected);
    }
}

#[test]
fn field_positions() {
    let expected: [(Register, u32, u32); 9] = [
        (Register::RccCfgr, 8, 3),
        (Register::RccApb2enr, 5, 1),
        (Register::RccApb1enr, 0, 1),
        (Register::GpiodCrh, 20, 2),
        (Register::GpiodCrh, 22, 2),
        (Register::GpiodOdr, 13, 1),
        (Register::Tim2Cr1, 0, 1),
        (Register::Tim2Cnt, 0, 16),
        (Register::Tim2Psc, 0, 16),
    ];
    for (field, (register, shift, width)) in FIELDS.iter().zip(expected) {
        assert_eq!(field.register(), register);
        assert_eq!(field.shift(), shift);
        assert_eq!(field.width(), width);
    }
}

#[test]
fn field_masks() {
    assert_eq!(Field::Ppre1.mask(), 0b111);
    assert_eq!(Field::Mode13.mask(), 0b11);
    assert_eq!(Field::Cnf13.mask(), 0b11);
    assert_eq!(Field::Odr13.mask(), 1);
    assert_eq!(Field::Cnt.mask(), 0xffff);
    assert_eq!(Field::Psc.mask(), 0xffff);
}

#[test]
fn insert_replaces_only_the_field() {
    assert_eq!(Field::Mode13.insert(0x4444_4444, 1), 0x4454_4444);
    assert_eq!(Field::Cnf13.insert(0x4454_4444, 0), 0x4414_4444);
    assert_eq!(Field::Odr13.insert(0xffff_ffff, 0), 0xffff_dfff);
    assert_eq!(Field::Ppre1.insert(0, 7), 0x0000_0700);
    assert_eq!(Field::Ppre1.insert(0xffff_ffff, 0b010), 0xffff_faff);
}

#[test]
fn insert_cuts_the_value_to_the_width() {
    assert_eq!(Field::Odr13.insert(0, 0xffff_ffff), 0x0000_2000);
    assert_eq!(Field::Ppre1.insert(0, 0xf), 0x0000_0700);
    assert_eq!(Field::Cnt.insert(0, 0x1_2345), 0x0000_2345);
}

#[test]
fn extract_reads_the_field() {
    assert_eq!(Field::Mode13.extract(0x4414_4444), 1);
    assert_eq!(Field::Cnf13.extract(0x4414_4444), 0);
    assert_eq!(Field::Cnf13.extract(0x4444_4444), 1);
    assert_eq!(Field::Odr13.extract(0x0000_2000), 1);
    assert_eq!(Field::Odr13.extract(0xffff_dfff), 0);
    assert_eq!(Field::Cnt.extract(0xabcd_1234), 0x1234);
}

#[test]
fn extract_after_insert_gives_the_value_back() {
    let words = [0u32, 0xffff_ffff, 0x4444_4444, 0x1234_5678, 0x8000_0001];
    let values = [0u32, 1, 2, 3, 7, 0xffff, 0x1_0000, 0xffff_ffff];
    for field in FIELDS {
        let place = field.mask() << field.shift();
        for word in words {
            for value in values {
                let written = field.insert(word, value);
                assert_eq!(field.extract(written), value & field.mask());
                assert_eq!(written & !place, word & !place);
            }
        }
    }
}

#[test]
fn bit_of_bool() {
    assert_eq!(bit(true), 1);
    assert_eq!(bit(false), 0);
}

#[test]
fn field_values() {
    assert_eq!(PPRE1_DIV16, 7);
    assert_eq!(MODE_OUTPUT, 1);
    assert_eq!(CNF_PUSH_PULL, 0);
    assert_eq!(PSC_MAX, 0xffff);
}

#[test]
fn write_registers() {
    assert_eq!(RegisterWrite::EnableTimerClock.register(), Register::RccApb1enr);
    assert_eq!(RegisterWrite::SetTimerPrescaler.register(), Register::Tim2Psc);
    assert_eq!(RegisterWrite::SetBusPrescaler.register(), Register::RccCfgr);
    assert_eq!(RegisterWrite::EnablePortClock.register(), Register::RccApb2enr);
    assert_eq!(RegisterWrite::ConfigurePin.register(), Register::GpiodCrh);
    assert_eq!(RegisterWrite::DrivePin(true).register(), Register::GpiodOdr);
    assert_eq!(RegisterWrite::DrivePin(false).register(), Register::GpiodOdr);
    assert_eq!(RegisterWrite::ClearCount.register(), Register::Tim2Cnt);
    assert_eq!(RegisterWrite::RunTimer(true).register(), Register::Tim2Cr1);
    assert_eq!(RegisterWrite::RunTimer(false).register(), Register::Tim2Cr1);
}

#[test]
fn write_values() {
    assert_eq!(RegisterWrite::EnableTimerClock.value(), 0x0000_0001);
    assert_eq!(RegisterWrite::SetTimerPrescaler.value(), 0x0000_ffff);
    assert_eq!(RegisterWrite::SetBusPrescaler.value(), 0x0000_0700);
    assert_eq!(RegisterWrite::EnablePortClock.value(), 0x0000_0020);
    assert_eq!(RegisterWrite::ConfigurePin.value(), 0x4414_4444);
    assert_eq!(RegisterWrite::DrivePin(true).value(), 0x0000_2000);
    assert_eq!(RegisterWrite::DrivePin(false).value(), 0);
    assert_eq!(RegisterWrite::ClearCount.value(), 0);
    assert_eq!(RegisterWrite::RunTimer(true).value(), 0x0000_0001);
    assert_eq!(RegisterWrite::RunTimer(false).value(), 0);
}

#[test]
fn written_fields_read_back() {
    assert_eq!(Field::Tim2en.extract(RegisterWrite::EnableTimerClock.value()), 1);
    assert_eq!(Field::Psc.extract(RegisterWrite::SetTimerPrescaler.value()), PSC_MAX);
    assert_eq!(Field::Ppre1.extract(RegisterWrite::SetBusPrescaler.value()), PPRE1_DIV16);
    assert_eq!(Field::Iopden.extract(RegisterWrite::EnablePortClock.value()), 1);
    assert_eq!(Field::Mode13.extract(RegisterWrite::ConfigurePin.value()), MODE_OUTPUT);
    assert_eq!(Field::Cnf13.extract(RegisterWrite::ConfigurePin.value()), CNF_PUSH_PULL);
    assert_eq!(Field::Odr13.extract(RegisterWrite::DrivePin(true).value()), 1);
    assert_eq!(Field::Odr13.extract(RegisterWrite::DrivePin(false).value()), 0);
    assert_eq!(Field::Cnt.extract(RegisterWrite::ClearCount.value()), 0);
    assert_eq!(Field::Cen.extract(RegisterWrite::RunTimer(true).value()), 1);
    assert_eq!(Field::Cen.extract(RegisterWrite::RunTimer(false).value()), 0);
}

#[test]
fn configuring_the_pin_leaves_the_other_pins_at_reset() {
    let word = RegisterWrite::ConfigurePin.value();
    let pin_13 = 0xfu32 << 20;
    assert_eq!(word & !pin_13, Register::GpiodCrh.reset_value() & !pin_13);
}
