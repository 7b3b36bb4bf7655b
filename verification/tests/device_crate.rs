use blinky::registers::{Peripheral, Register, CNF_PUSH_PULL, MODE_OUTPUT, PPRE1_DIV16};
use stm32f1::stm32f107::gpioa::crh::{CNF13_A, CRH_SPEC, MODE13_A};
use stm32f1::stm32f107::gpioa::odr::ODR_SPEC;
use stm32f1::stm32f107::rcc::apb1enr::APB1ENR_SPEC;
use stm32f1::stm32f107::rcc::apb2enr::APB2ENR_SPEC;
use stm32f1::stm32f107::rcc::cfgr::{CFGR_SPEC, PPRE1_A};
use stm32f1::stm32f107::tim2::cnt::CNT_SPEC;
use stm32f1::stm32f107::tim2::cr1::{CEN_A, CR1_SPEC};
use stm32f1::stm32f107::tim2::psc::PSC_SPEC;
use stm32f1::stm32f107::{GPIOD, RCC, TIM2};
use stm32f1::Resettable;

#[test]
fn reset_values_agree_with_the_device_crate() {
    assert_eq!(Register::RccCfgr.reset_value(), CFGR_SPEC::reset_value());
    assert_eq!(Register::RccApb2enr.reset_value(), APB2ENR_SPEC::reset_value());
    assert_eq!(Register::RccApb1enr.reset_value(), APB1ENR_SPEC::reset_value());
    assert_eq!(Register::GpiodCrh.reset_value(), CRH_SPEC::reset_value());
    assert_eq!(Register::GpiodOdr.reset_value(), ODR_SPEC::reset_value());
    assert_eq!(Register::Tim2Cr1.reset_value(), CR1_SPEC::reset_value());
    assert_eq!(Register::Tim2Cnt.reset_value(), CNT_SPEC::reset_value());
    assert_eq!(Register::Tim2Psc.reset_value(), PSC_SPEC::reset_value());
}

#[test]
fn field_values_agree_with_the_device_crate() {
    assert_eq!(PPRE1_DIV16, u32::from(u8::from(PPRE1_A::Div16)));
    assert_eq!(MODE_OUTPUT, u32::from(u8::from(MODE13_A::Output)));
    assert_eq!(CNF_PUSH_PULL, u32::from(u8::from(CNF13_A::PushPull)));
    assert!(bool::from(CEN_A::Enabled));
    assert!(!bool::from(CEN_A::Disabled));
}

#[test]
fn bases_agree_with_the_device_crate() {
    assert_eq!(Peripheral::Rcc.base() as usize, RCC::ptr() as usize);
    assert_eq!(Peripheral::Gpiod.base() as usize, GPIOD::ptr() as usize);
    assert_eq!(Peripheral::Tim2.base() as usize, TIM2::ptr() as usize);
}
