//! Peripheral access layer: value-level codecs for every memory-mapped
//! register of the system-on-chip.
//!
//! Each register module defines a reader `R` and/or a writer `W` over the
//! raw register word, one accessor per field, bit-exact with the hardware
//! layout.  Readers wrap a word that was read from the bus; writers build,
//! field by field, the word that is to be put on the bus.  The `*Spec`
//! marker types name the register layouts.
//!
//! Register blocks hold the last word written to each register as plain
//! state, so that the effect of a write is a value the verifier can see.

pub mod audio_control;
pub mod audio_data_mono_double;
pub mod audio_data_mono_quad;
pub mod audio_data_mono_single;
pub mod audio_data_stereo_double;
pub mod audio_data_stereo_single;
pub mod dac_left_output;
pub mod dac_output;
pub mod display_control;
pub mod display_ctrl;
pub mod display_transfer;
pub mod gpio_audio_viz;
pub mod gpio_btn;
pub mod gpio_led;
pub mod gpio_spi_cs;
pub mod gpio_spi_oled;
pub mod gpio_spi_sdcard;
pub mod spi0_ctrl;
pub mod spi0_read_and_status;
pub mod spi0_read_data;
pub mod spi0_status;
pub mod spi0_write_data;
pub mod timer0_ctrl;
pub mod timer0_hi_value;
pub mod timer0_lo_value;
pub mod timer0_timer_ctrl;
pub mod timer0_timer_hi_value;
pub mod timer0_timer_lo_value;
pub mod audio_streamer;
pub mod dac;
pub mod display;
pub mod gpio;
pub mod spi0;
pub mod timer0;
