//! Tests for the board-level plumbing: pin ownership, the pin banks,
//! and the display command builders.

use silicon::hal::spidisplay::{
    ClockDivCommand, CommandLockCommand, ContrastAbcCommand, DisplayGpioConfig, DisplayOnCommand,
    DisplayOffsetCommand, FunctionSelectCommand, FunctionSelectParallelOption, MuxRatioCommand,
    PrechargeCommand, SetColumnCommand, SetGpioCommand, SetRowCommand, SetVslCommand,
    Ssd1351Command, Ssd1351CommandId, StartLineCommand, VcomhCommand,
};
use silicon::peripheral::{BtnBank, LedBank};
use silicon::utils::VoidUnwrap;

#[test]
fn pins_come_out_of_the_gpio_table_exactly_once() {
    let mut p = silicon::hal::init();
    assert!(p.gpio.take_all_leds().is_some());
    assert!(p.gpio.take_all_leds().is_none());
    assert!(p.gpio.take_all_btns().is_some());
    assert!(p.gpio.take_all_btns().is_none());
    assert!(p.gpio.take_spi_sd().is_some());
    assert!(p.gpio.take_spi_sd().is_none());
    assert!(p.gpio.take_spi_sd_cs().is_some());
    assert!(p.gpio.take_spi_sd_cs().is_none());
    assert!(p.gpio.take_oled().is_some());
    assert!(p.gpio.take_oled().is_none());
}

#[test]
fn led_bank_drives_all_lines() {
    let mut p = silicon::hal::init();
    let (l0, l1, l2, l3, l4, l5, l6, l7) = p.gpio.take_all_leds().unwrap();
    let mut bank = LedBank::from_gpio_pins(l0, l1, l2, l3, l4, l5, l6, l7);
    bank.set_all_high();
    assert_eq!(bank.led3.is_set_high().void_unwrap(), true);
    bank.set_all_low();
    assert_eq!(bank.led3.is_set_high().void_unwrap(), false);
    bank.set_all_states([true, false, true, false, false, false, false, true]);
    assert_eq!(bank.led0.is_set_high().void_unwrap(), true);
    assert_eq!(bank.led1.is_set_high().void_unwrap(), false);
    assert_eq!(bank.led2.is_set_high().void_unwrap(), true);
    assert_eq!(bank.led7.is_set_high().void_unwrap(), true);
}

#[test]
fn button_bank_maps_lines_to_transport_controls() {
    let mut p = silicon::hal::init();
    let (b1, b2, b3, mut b4, b5, mut b6) = p.gpio.take_all_btns().unwrap();
    b4.drive(true);
    b6.drive(true);
    let bank = BtnBank::from_gpio_pins(b1, b2, b3, b4, b5, b6);
    let c = bank.read_controls();
    assert!(c.pause);
    assert!(c.forward);
    assert!(!c.back);
    assert!(!c.backward);
    assert!(!c.vol_up);
    assert!(!c.vol_down);
}

#[test]
fn sd_spi_pins_write_and_read_together() {
    let mut p = silicon::hal::init();
    let mut pins = p.gpio.take_spi_sd().unwrap();
    pins.set_outputs(true, false).void_unwrap();
    let (miso, mosi, clk) = pins.read_states().void_unwrap();
    assert!(!miso);
    assert!(mosi);
    assert!(!clk);
    let (mosi_pin, clk_pin, miso_pin) = pins.into_pins();
    let pins = silicon::hal::gpio::SpiSdPins::from_pins(mosi_pin, clk_pin, miso_pin);
    let (_, mosi, _) = pins.read_states().void_unwrap();
    assert!(mosi);
}

#[test]
fn display_command_opcodes_match_the_datasheet() {
    assert_eq!(Ssd1351CommandId::SetColumn.code(), 0x15);
    assert_eq!(Ssd1351CommandId::WriteRam.code(), 0x5c);
    assert_eq!(Ssd1351CommandId::DisplayOn.code(), 0xaf);
    assert_eq!(Ssd1351CommandId::CommandLock.code(), 0xfd);
    assert_eq!(Ssd1351CommandId::ContrastMaster.code(), 0xc7);
}

#[test]
fn display_commands_build_their_exact_bytes() {
    assert!(matches!(DisplayOnCommand.command_id(), Ssd1351CommandId::DisplayOn));
    assert_eq!(DisplayOnCommand.command_data(), Vec::<u8>::new());
    assert_eq!(CommandLockCommand::UnlockIC.command_data(), vec![0x12]);
    assert_eq!(CommandLockCommand::LockRestricted.command_data(), vec![0xb0]);
    assert_eq!(ClockDivCommand::new(0x12, 0x34).command_data(), vec![0x42]);
    assert_eq!(PrechargeCommand::new(0x02, 0x03).command_data(), vec![0x32]);
    assert_eq!(VcomhCommand::new(0xff).command_data(), vec![0x07]);
    assert_eq!(ContrastAbcCommand::new(0xc8, 0x80, 0xc8).command_data(), vec![0xc8, 0x80, 0xc8]);
    assert_eq!(SetVslCommand.command_data(), vec![0xa0, 0xb5, 0x55]);
    assert_eq!(StartLineCommand::new(200).command_data(), vec![200 & 0x7f]);
    assert_eq!(
        SetGpioCommand::new(DisplayGpioConfig::OutputLow, DisplayGpioConfig::InputEnabled)
            .command_data(),
        vec![(0x01 << 2) | 0x02],
    );
    assert_eq!(
        FunctionSelectCommand::new(FunctionSelectParallelOption::Parallel8Bit, true)
            .command_data(),
        vec![0x01],
    );
}

#[test]
fn ranged_display_commands_refuse_bad_arguments() {
    assert!(MuxRatioCommand::new(14).is_err());
    assert!(MuxRatioCommand::new(128).is_err());
    assert_eq!(MuxRatioCommand::new(127).void_unwrap().command_data(), vec![127]);
    assert!(DisplayOffsetCommand::new(128).is_err());
    assert_eq!(DisplayOffsetCommand::new(96).void_unwrap().command_data(), vec![96]);
    assert!(SetColumnCommand::new(5, 3).is_err());
    assert!(SetColumnCommand::new(0, 128).is_err());
    assert_eq!(SetColumnCommand::new(3, 5).void_unwrap().command_data(), vec![3, 5]);
    assert!(SetRowCommand::new(130, 131).is_err());
    assert_eq!(SetRowCommand::new(0, 127).void_unwrap().command_data(), vec![0, 127]);
}

#[test]
fn dac_handle_drives_the_analog_outputs() {
    let mut p = silicon::hal::init();
    p.dac.write_left_sample(10);
    p.dac.write_right_sample(20);
    p.dac.write_stereo_sample(30, 40);
}
