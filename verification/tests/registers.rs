//! Tests for the register codecs and the register-file models.

use silicon::pac;

#[test]
fn audio_control_reader_decodes_every_flag() {
    let r = pac::audio_control::R::new(0b0010_0101);
    assert!(r.enable());
    assert!(!r.mode());
    assert!(r.queue_full());
    assert!(!r.queue_almost_full());
    assert!(!r.queue_almost_empty());
    assert!(r.queue_empty());
    assert_eq!(r.bits(), 0b0010_0101);
}

#[test]
fn audio_control_writer_chains_fields() {
    let w = pac::audio_control::W::zero().enable(true).mode(true);
    assert_eq!(w.bits(), 0b11);
    let w = w.mode(false);
    assert_eq!(w.bits(), 0b01);
    let w = w.enable(false);
    assert_eq!(w.bits(), 0b00);
}

#[test]
fn mono_sample_write_packs_sample_and_id() {
    let w = pac::audio_data_mono_single::W::zero().sample0(0xaa).wid(0x03);
    assert_eq!(w.bits(), 0x03aa);
}

#[test]
fn stereo_sample_write_packs_both_channels() {
    let w = pac::audio_data_stereo_single::W::zero().sample_left(0x12).sample_right(0x34);
    assert_eq!(w.bits(), 0x3412);
}

#[test]
fn quad_mono_write_packs_four_samples() {
    let w = pac::audio_data_mono_quad::W::zero().sample0(1).sample1(2).sample2(3).sample3(4);
    assert_eq!(w.bits(), 0x0403_0201);
}

#[test]
fn led_register_honours_the_write_mask() {
    let mut gpio = pac::gpio::RegisterBlock::new();
    // Set LED 3 high with only its mask bit set.
    gpio.write_led(pac::gpio_led::W::zero().led_mask3(true).led_output3(true));
    assert!(gpio.led().led_output3());
    assert!(!gpio.led().led_output0());
    // Set LED 0 high; LED 3 keeps its level because its mask bit is
    // clear in this write even though its output bit is zero.
    gpio.write_led(pac::gpio_led::W::zero().led_mask0(true).led_output0(true));
    assert!(gpio.led().led_output0());
    assert!(gpio.led().led_output3());
    // Clear LED 3 alone.
    gpio.write_led(pac::gpio_led::W::zero().led_mask3(true).led_output3(false));
    assert!(!gpio.led().led_output3());
    assert!(gpio.led().led_output0());
}

#[test]
fn led_register_indexed_and_plain_accessors_agree() {
    let mut gpio = pac::gpio::RegisterBlock::new();
    gpio.write_led(pac::gpio_led::W::zero().led_mask(5, true).led_output(5, true));
    let r = gpio.led();
    assert!(r.led_output(5));
    assert!(r.led_output5());
    let levels = r.led_output_iter();
    assert_eq!(levels, vec![false, false, false, false, false, true, false, false]);
}

#[test]
fn button_register_reflects_the_lines() {
    let mut gpio = pac::gpio::RegisterBlock::new();
    gpio.set_btn_inputs(0b0010_0110);
    let r = gpio.btn();
    assert!(!r.btn_input0());
    assert!(r.btn_input1());
    assert!(r.btn_input2());
    assert!(r.btn_input5());
    assert!(!r.btn_input7());
    assert_eq!(r.btn_input_iter(), vec![false, true, true, false, false, true, false, false]);
}

#[test]
fn sdcard_spi_register_mixes_outputs_and_miso() {
    let mut gpio = pac::gpio::RegisterBlock::new();
    gpio.write_spi_sdcard(
        pac::gpio_spi_sdcard::W::zero().mosi_mask(true).mosi_output(true).clk_mask(true)
            .clk_output(true),
    );
    gpio.set_miso_input(true);
    let r = gpio.spi_sdcard();
    assert!(!r.cs_output());
    assert!(r.mosi_output());
    assert!(r.clk_output());
    assert!(r.miso_input());
}

#[test]
fn spi_engine_round_trips_one_byte() {
    let mut spi = pac::spi0::RegisterBlock::new();
    assert!(!spi.status().busy());
    spi.set_write_data(pac::spi0_write_data::W::zero().data(0x5a));
    assert!(spi.status().busy());
    assert!(!spi.status().ready());
    spi.complete_transfer(0xa5);
    let r = spi.read_and_status();
    assert!(!r.busy());
    assert!(r.ready());
    assert_eq!(r.data(), 0xa5);
    assert_eq!(spi.read_data().data(), 0xa5);
}

#[test]
fn timer_counter_advances_only_while_enabled() {
    let mut t = pac::timer0::RegisterBlock::new();
    t.advance(100);
    assert_eq!(t.lo_value().bits(), 0);
    t.write_ctrl(pac::timer0_ctrl::W::zero().enable(true));
    t.advance(100);
    assert_eq!(t.lo_value().bits(), 100);
    assert_eq!(t.hi_value().bits(), 0);
}

#[test]
fn timer_reset_bit_clears_the_counter() {
    let mut t = pac::timer0::RegisterBlock::new();
    t.write_ctrl(pac::timer0_ctrl::W::zero().enable(true));
    t.advance(42);
    t.write_ctrl(pac::timer0_ctrl::W::zero().enable(true).reset(true));
    assert_eq!(t.lo_value().bits(), 0);
    assert_eq!(t.ctrl().enable(), true);
}

#[test]
fn timer_handle_reads_the_split_counter() {
    let mut t = silicon::hal::timer::Timer::new_timer0();
    assert_eq!(t.get_counter(), 0);
    t.advance(0x1_2345_6789);
    assert_eq!(t.get_counter(), 0x1_2345_6789);
    assert_eq!(t.get_counter_low(), 0x2345_6789);
}

#[test]
fn dac_register_block_drives_both_channels() {
    let mut dac = pac::dac::RegisterBlock::new();
    dac.write_output(pac::dac_output::W::zero().left_output(0x11).right_output(0x22));
    assert_eq!(dac.left_output(), 0x11);
    assert_eq!(dac.right_output(), 0x22);
    dac.write_left_output(pac::dac_left_output::W::zero().value(0x33));
    assert_eq!(dac.left_output(), 0x33);
    assert_eq!(dac.right_output(), 0x22);
}

#[test]
fn display_register_block_latches_transfers() {
    let mut d = pac::display::RegisterBlock::new();
    d.write_transfer(pac::display_transfer::W::zero().byte(0xaf).type_(false));
    assert_eq!(d.transfer(), 0x00af);
    d.write_transfer(pac::display_transfer::W::zero().byte(0x12).type_(true));
    assert_eq!(d.transfer(), 0x0112);
    d.write_ctrl(pac::display_ctrl::W::zero().enable_hw_fb(true));
    assert!(d.ctrl().enable_hw_fb());
    assert!(!d.ctrl().reset());
}

#[test]
fn audio_streamer_register_block_latches_control() {
    let mut a = pac::audio_streamer::RegisterBlock::new();
    a.write_control(pac::audio_control::W::zero().enable(true).mode(true));
    let r = a.control();
    assert!(r.enable());
    assert!(r.mode());
}
