//! SSD1351 OLED display commands.
//!
//! Every command the display controller understands is a small value: an
//! opcode byte and up to three argument bytes.  The builders here
//! validate or mask their arguments exactly as the controller's datasheet
//! prescribes, and each command states the bytes it will put on the wire.

use vstd::prelude::*;

verus! {

/// SSD1351 OLED display command opcodes.
#[derive(Debug, Clone, Copy, PartialEq, Eq)]
pub enum Ssd1351CommandId {
    SetColumn,
    SetRow,
    WriteRam,
    ReadRam,
    SetRemap,
    StartLine,
    DisplayOffset,
    DisplayAllOff,
    DisplayAllOn,
    NormalDisplay,
    InvertDisplay,
    FunctionSelect,
    DisplayOff,
    DisplayOn,
    Precharge,
    DisplayEnhance,
    ClockDiv,
    SetVsl,
    SetGpio,
    Precharge2,
    SetGray,
    UseLut,
    PrechargeLevel,
    Vcomh,
    ContrastAbc,
    ContrastMaster,
    MuxRatio,
    CommandLock,
    HorizScroll,
    StopScroll,
    StartScroll,
}

impl Ssd1351CommandId {
    /// The opcode byte of this command.
    pub open spec fn spec_code(&self) -> u8 {
        match self {
            Ssd1351CommandId::SetColumn => 0x15,
            Ssd1351CommandId::SetRow => 0x75,
            Ssd1351CommandId::WriteRam => 0x5c,
            Ssd1351CommandId::ReadRam => 0x5d,
            Ssd1351CommandId::SetRemap => 0xa0,
            Ssd1351CommandId::StartLine => 0xa1,
            Ssd1351CommandId::DisplayOffset => 0xa2,
            Ssd1351CommandId::DisplayAllOff => 0xa4,
            Ssd1351CommandId::DisplayAllOn => 0xa5,
            Ssd1351CommandId::NormalDisplay => 0xa6,
            Ssd1351CommandId::InvertDisplay => 0xa7,
            Ssd1351CommandId::FunctionSelect => 0xab,
            Ssd1351CommandId::DisplayOff => 0xae,
            Ssd1351CommandId::DisplayOn => 0xaf,
            Ssd1351CommandId::Precharge => 0xb1,
            Ssd1351CommandId::DisplayEnhance => 0xb2,
            Ssd1351CommandId::ClockDiv => 0xb3,
            Ssd1351CommandId::SetVsl => 0xb4,
            Ssd1351CommandId::SetGpio => 0xb5,
            Ssd1351CommandId::Precharge2 => 0xb6,
            Ssd1351CommandId::SetGray => 0xb8,
            Ssd1351CommandId::UseLut => 0xb9,
            Ssd1351CommandId::PrechargeLevel => 0xbb,
            Ssd1351CommandId::Vcomh => 0xbe,
            Ssd1351CommandId::ContrastAbc => 0xc1,
            Ssd1351CommandId::ContrastMaster => 0xc7,
            Ssd1351CommandId::MuxRatio => 0xca,
            Ssd1351CommandId::CommandLock => 0xfd,
            Ssd1351CommandId::HorizScroll => 0x96,
            Ssd1351CommandId::StopScroll => 0x9e,
            Ssd1351CommandId::StartScroll => 0x9f,
        }
    }

    /// The opcode byte of this command.
    pub fn code(&self) -> (r: u8)
        ensures
            r == self.spec_code(),
    {
        match self {
            Ssd1351CommandId::SetColumn => 0x15,
            Ssd1351CommandId::SetRow => 0x75,
            Ssd1351CommandId::WriteRam => 0x5c,
            Ssd1351CommandId::ReadRam => 0x5d,
            Ssd1351CommandId::SetRemap => 0xa0,
            Ssd1351CommandId::StartLine => 0xa1,
            Ssd1351CommandId::DisplayOffset => 0xa2,
            Ssd1351CommandId::DisplayAllOff => 0xa4,
            Ssd1351CommandId::DisplayAllOn => 0xa5,
            Ssd1351CommandId::NormalDisplay => 0xa6,
            Ssd1351CommandId::InvertDisplay => 0xa7,
            Ssd1351CommandId::FunctionSelect => 0xab,
            Ssd1351CommandId::DisplayOff => 0xae,
            Ssd1351CommandId::DisplayOn => 0xaf,
            Ssd1351CommandId::Precharge => 0xb1,
            Ssd1351CommandId::DisplayEnhance => 0xb2,
            Ssd1351CommandId::ClockDiv => 0xb3,
            Ssd1351CommandId::SetVsl => 0xb4,
            Ssd1351CommandId::SetGpio => 0xb5,
            Ssd1351CommandId::Precharge2 => 0xb6,
            Ssd1351CommandId::SetGray => 0xb8,
            Ssd1351CommandId::UseLut => 0xb9,
            Ssd1351CommandId::PrechargeLevel => 0xbb,
            Ssd1351CommandId::Vcomh => 0xbe,
            Ssd1351CommandId::ContrastAbc => 0xc1,
            Ssd1351CommandId::ContrastMaster => 0xc7,
            Ssd1351CommandId::MuxRatio => 0xca,
            Ssd1351CommandId::CommandLock => 0xfd,
            Ssd1351CommandId::HorizScroll => 0x96,
            Ssd1351CommandId::StopScroll => 0x9e,
            Ssd1351CommandId::StartScroll => 0x9f,
        }
    }
}

/// A command for the SSD1351 display: an opcode and its argument bytes.
pub trait Ssd1351Command {
    /// The opcode this command is sent under.
    spec fn spec_command_id(&self) -> Ssd1351CommandId;

    /// The argument bytes this command carries.
    spec fn spec_command_data(&self) -> Seq<u8>;

    /// The opcode this command is sent under.
    fn command_id(&self) -> (r: Ssd1351CommandId)
        ensures
            r == self.spec_command_id(),
    ;

    /// The argument bytes this command carries.
    fn command_data(&self) -> (r: Vec<u8>)
        ensures
            r@ == self.spec_command_data(),
    ;
}

/// Command to turn the display on.
pub struct DisplayOnCommand;

impl Ssd1351Command for DisplayOnCommand {
    open spec fn spec_command_id(&self) -> Ssd1351CommandId {
        Ssd1351CommandId::DisplayOn
    }

    open spec fn spec_command_data(&self) -> Seq<u8> {
        Seq::empty()
    }

    fn command_id(&self) -> (r: Ssd1351CommandId) {
        Ssd1351CommandId::DisplayOn
    }

    fn command_data(&self) -> (r: Vec<u8>) {
        let r: Vec<u8> = Vec::new();
        assert(r@ =~= Seq::<u8>::empty());
        r
    }
}

/// Command to turn the display off.
pub struct DisplayOffCommand;

impl Ssd1351Command for DisplayOffCommand {
    open spec fn spec_command_id(&self) -> Ssd1351CommandId {
        Ssd1351CommandId::DisplayOff
    }

    open spec fn spec_command_data(&self) -> Seq<u8> {
        Seq::empty()
    }

    fn command_id(&self) -> (r: Ssd1351CommandId) {
        Ssd1351CommandId::DisplayOff
    }

    fn command_data(&self) -> (r: Vec<u8>) {
        let r: Vec<u8> = Vec::new();
        assert(r@ =~= Seq::<u8>::empty());
        r
    }
}

/// Command to (un)lock the command interface or its restricted subset.
#[derive(Debug, Clone, Copy, PartialEq, Eq)]
pub enum CommandLockCommand {
    /// Unlock the command interface.
    UnlockIC,
    /// Lock the command interface: until unlocked again, this is the
    /// only command accepted.
    LockIC,
    /// Lock the restricted (mostly configuration) command subset.
    LockRestricted,
    /// Unlock the restricted command subset.
    UnlockRestricted,
}

impl CommandLockCommand {
    /// The argument byte each lock setting is encoded as.
    pub open spec fn spec_lock_code(&self) -> u8 {
        match self {
            CommandLockCommand::UnlockIC => 0x12,
            CommandLockCommand::LockIC => 0x16,
            CommandLockCommand::LockRestricted => 0xb0,
            CommandLockCommand::UnlockRestricted => 0xb1,
        }
    }
}

impl Ssd1351Command for CommandLockCommand {
    open spec fn spec_command_id(&self) -> Ssd1351CommandId {
        Ssd1351CommandId::CommandLock
    }

    open spec fn spec_command_data(&self) -> Seq<u8> {
        seq![self.spec_lock_code()]
    }

    fn command_id(&self) -> (r: Ssd1351CommandId) {
        Ssd1351CommandId::CommandLock
    }

    fn command_data(&self) -> (r: Vec<u8>) {
        let code: u8 = match self {
            CommandLockCommand::UnlockIC => 0x12,
            CommandLockCommand::LockIC => 0x16,
            CommandLockCommand::LockRestricted => 0xb0,
            CommandLockCommand::UnlockRestricted => 0xb1,
        };
        let mut r: Vec<u8> = Vec::new();
        r.push(code);
        assert(r@ =~= seq![self.spec_lock_code()]);
        r
    }
}

/// Command to configure the internal clock divider and oscillator
/// frequency.  Only the low four bits of each argument are used.
pub struct ClockDivCommand {
    divider: u8,
    osc_freq: u8,
}

impl ClockDivCommand {
    /// Build the command; the low four bits of `divider` and `osc_freq`
    /// are kept, the rest is masked away.
    pub fn new(divider: u8, osc_freq: u8) -> (r: ClockDivCommand)
        ensures
            r.spec_command_data() == seq![((osc_freq & 0x0f) << 4) | (divider & 0x0f)],
    {
        ClockDivCommand { divider: divider & 0x0f, osc_freq: osc_freq & 0x0f }
    }
}

impl Ssd1351Command for ClockDivCommand {
    open spec fn spec_command_id(&self) -> Ssd1351CommandId {
        Ssd1351CommandId::ClockDiv
    }

    closed spec fn spec_command_data(&self) -> Seq<u8> {
        seq![(self.osc_freq << 4) | self.divider]
    }

    fn command_id(&self) -> (r: Ssd1351CommandId) {
        Ssd1351CommandId::ClockDiv
    }

    fn command_data(&self) -> (r: Vec<u8>) {
        let mut r: Vec<u8> = Vec::new();
        r.push((self.osc_freq << 4) | self.divider);
        assert(r@ =~= self.spec_command_data());
        r
    }
}

/// Command to set the multiplex ratio (valid values are 15 to 127).
pub struct MuxRatioCommand {
    ratio: u8,
}

impl MuxRatioCommand {
    /// Build the command; a ratio outside 15..=127 is refused.
    pub fn new(ratio: u8) -> (r: Result<MuxRatioCommand, ()>)
        ensures
            r is Ok <==> 15 <= ratio <= 127,
            r matches Ok(c) ==> c.spec_command_data() == seq![ratio],
    {
        if ratio < 15 || ratio > 127 {
            Err(())
        } else {
            Ok(MuxRatioCommand { ratio })
        }
    }
}

impl Ssd1351Command for MuxRatioCommand {
    open spec fn spec_command_id(&self) -> Ssd1351CommandId {
        Ssd1351CommandId::MuxRatio
    }

    closed spec fn spec_command_data(&self) -> Seq<u8> {
        seq![self.ratio]
    }

    fn command_id(&self) -> (r: Ssd1351CommandId) {
        Ssd1351CommandId::MuxRatio
    }

    fn command_data(&self) -> (r: Vec<u8>) {
        let mut r: Vec<u8> = Vec::new();
        r.push(self.ratio);
        assert(r@ =~= self.spec_command_data());
        r
    }
}

/// Command to set the display offset (0 through 127).
pub struct DisplayOffsetCommand {
    offset: u8,
}

impl DisplayOffsetCommand {
    /// Build the command; an offset above 127 is refused.
    pub fn new(offset: u8) -> (r: Result<DisplayOffsetCommand, ()>)
        ensures
            r is Ok <==> offset <= 127,
            r matches Ok(c) ==> c.spec_command_data() == seq![offset],
    {
        if offset > 127 {
            Err(())
        } else {
            Ok(DisplayOffsetCommand { offset })
        }
    }
}

impl Ssd1351Command for DisplayOffsetCommand {
    open spec fn spec_command_id(&self) -> Ssd1351CommandId {
        Ssd1351CommandId::DisplayOffset
    }

    closed spec fn spec_command_data(&self) -> Seq<u8> {
        seq![self.offset]
    }

    fn command_id(&self) -> (r: Ssd1351CommandId) {
        Ssd1351CommandId::DisplayOffset
    }

    fn command_data(&self) -> (r: Vec<u8>) {
        let mut r: Vec<u8> = Vec::new();
        r.push(self.offset);
        assert(r@ =~= self.spec_command_data());
        r
    }
}

/// GPIO pin configurations the display controller understands.
#[derive(Debug, Clone, Copy, PartialEq, Eq)]
pub enum DisplayGpioConfig {
    InputDisabled,
    InputEnabled,
    OutputLow,
    OutputHigh,
}

impl DisplayGpioConfig {
    /// The two-bit encoding of this configuration.
    pub open spec fn spec_value(&self) -> u8 {
        match self {
            DisplayGpioConfig::InputDisabled => 0x00,
            DisplayGpioConfig::InputEnabled => 0x01,
            DisplayGpioConfig::OutputLow => 0x02,
            DisplayGpioConfig::OutputHigh => 0x03,
        }
    }

    /// The two-bit encoding of this configuration.
    pub fn value(&self) -> (r: u8)
        ensures
            r == self.spec_value(),
    {
        match self {
            DisplayGpioConfig::InputDisabled => 0x00,
            DisplayGpioConfig::InputEnabled => 0x01,
            DisplayGpioConfig::OutputLow => 0x02,
            DisplayGpioConfig::OutputHigh => 0x03,
        }
    }
}

/// Command to configure the controller's two GPIO pins.
pub struct SetGpioCommand {
    gpio0: DisplayGpioConfig,
    gpio1: DisplayGpioConfig,
}

impl SetGpioCommand {
    /// Build the command from the configuration of each pin.
    pub fn new(gpio0: DisplayGpioConfig, gpio1: DisplayGpioConfig) -> (r: SetGpioCommand)
        ensures
            r.spec_command_data() == seq![(gpio1.spec_value() << 2) | gpio0.spec_value()],
    {
        SetGpioCommand { gpio0, gpio1 }
    }
}

impl Ssd1351Command for SetGpioCommand {
    open spec fn spec_command_id(&self) -> Ssd1351CommandId {
        Ssd1351CommandId::SetGpio
    }

    closed spec fn spec_command_data(&self) -> Seq<u8> {
        seq![(self.gpio1.spec_value() << 2) | self.gpio0.spec_value()]
    }

    fn command_id(&self) -> (r: Ssd1351CommandId) {
        Ssd1351CommandId::SetGpio
    }

    fn command_data(&self) -> (r: Vec<u8>) {
        let mut r: Vec<u8> = Vec::new();
        r.push((self.gpio1.value() << 2) | self.gpio0.value());
        assert(r@ =~= self.spec_command_data());
        r
    }
}

/// Parallel-interface widths selectable through `FunctionSelectCommand`.
#[derive(Debug, Clone, Copy, PartialEq, Eq)]
pub enum FunctionSelectParallelOption {
    Parallel8Bit,
    Parallel16Bit,
    Parallel18Bit,
}

impl FunctionSelectParallelOption {
    /// The two-bit encoding of this width.
    pub open spec fn spec_value(&self) -> u8 {
        match self {
            FunctionSelectParallelOption::Parallel8Bit => 0x00,
            FunctionSelectParallelOption::Parallel16Bit => 0x01,
            FunctionSelectParallelOption::Parallel18Bit => 0x03,
        }
    }

    /// The two-bit encoding of this width.
    pub fn value(&self) -> (r: u8)
        ensures
            r == self.spec_value(),
    {
        match self {
            FunctionSelectParallelOption::Parallel8Bit => 0x00,
            FunctionSelectParallelOption::Parallel16Bit => 0x01,
            FunctionSelectParallelOption::Parallel18Bit => 0x03,
        }
    }
}

/// Command to select the interface width and the VDD source.
pub struct FunctionSelectCommand {
    parallel_option: FunctionSelectParallelOption,
    external_vdd: bool,
}

impl FunctionSelectCommand {
    /// Build the command: bits 7:6 carry the width, bit 0 the VDD
    /// source.
    pub fn new(parallel_option: FunctionSelectParallelOption, external_vdd: bool) -> (r:
        FunctionSelectCommand)
        ensures
            r.spec_command_data() == seq![
                (parallel_option.spec_value() << 6) | (if external_vdd { 1u8 } else { 0u8 }),
            ],
    {
        FunctionSelectCommand { parallel_option, external_vdd }
    }
}

impl Ssd1351Command for FunctionSelectCommand {
    open spec fn spec_command_id(&self) -> Ssd1351CommandId {
        Ssd1351CommandId::FunctionSelect
    }

    closed spec fn spec_command_data(&self) -> Seq<u8> {
        seq![
            (self.parallel_option.spec_value() << 6) | (if self.external_vdd { 1u8 } else { 0u8 }),
        ]
    }

    fn command_id(&self) -> (r: Ssd1351CommandId) {
        Ssd1351CommandId::FunctionSelect
    }

    fn command_data(&self) -> (r: Vec<u8>) {
        let mut r: Vec<u8> = Vec::new();
        let vdd: u8 = if self.external_vdd { 1 } else { 0 };
        r.push((self.parallel_option.value() << 6) | vdd);
        assert(r@ =~= self.spec_command_data());
        r
    }
}

/// Command to set the pre-charge periods for phase 1 and phase 2.  Only
/// the low four bits of each phase are used.
pub struct PrechargeCommand {
    phase1: u8,
    phase2: u8,
}

impl PrechargeCommand {
    /// Build the command; the low four bits of each phase are kept.
    pub fn new(phase1: u8, phase2: u8) -> (r: PrechargeCommand)
        ensures
            r.spec_command_data() == seq![((phase2 & 0x0f) << 4) | (phase1 & 0x0f)],
    {
        PrechargeCommand { phase1: phase1 & 0x0f, phase2: phase2 & 0x0f }
    }
}

impl Ssd1351Command for PrechargeCommand {
    open spec fn spec_command_id(&self) -> Ssd1351CommandId {
        Ssd1351CommandId::Precharge
    }

    closed spec fn spec_command_data(&self) -> Seq<u8> {
        seq![(self.phase2 << 4) | self.phase1]
    }

    fn command_id(&self) -> (r: Ssd1351CommandId) {
        Ssd1351CommandId::Precharge
    }

    fn command_data(&self) -> (r: Vec<u8>) {
        let mut r: Vec<u8> = Vec::new();
        r.push((self.phase2 << 4) | self.phase1);
        assert(r@ =~= self.spec_command_data());
        r
    }
}

/// Command to set the VCOMH voltage level (0 through 7).
pub struct VcomhCommand {
    level: u8,
}

impl VcomhCommand {
    /// Build the command; the low three bits of the level are kept.
    pub fn new(level: u8) -> (r: VcomhCommand)
        ensures
            r.spec_command_data() == seq![level & 0x07],
    {
        VcomhCommand { level: level & 0x07 }
    }
}

impl Ssd1351Command for VcomhCommand {
    open spec fn spec_command_id(&self) -> Ssd1351CommandId {
        Ssd1351CommandId::Vcomh
    }

    closed spec fn spec_command_data(&self) -> Seq<u8> {
        seq![self.level]
    }

    fn command_id(&self) -> (r: Ssd1351CommandId) {
        Ssd1351CommandId::Vcomh
    }

    fn command_data(&self) -> (r: Vec<u8>) {
        let mut r: Vec<u8> = Vec::new();
        r.push(self.level);
        assert(r@ =~= self.spec_command_data());
        r
    }
}

/// Command to set the contrast of the three color channels.
pub struct ContrastAbcCommand {
    /// Contrast for the A channel.
    pub channel_a: u8,
    /// Contrast for the B channel.
    pub channel_b: u8,
    /// Contrast for the C channel.
    pub channel_c: u8,
}

impl ContrastAbcCommand {
    /// Build the command from the three channel contrasts.
    pub fn new(channel_a: u8, channel_b: u8, channel_c: u8) -> (r: ContrastAbcCommand)
        ensures
            r.spec_command_data() == seq![channel_a, channel_b, channel_c],
    {
        ContrastAbcCommand { channel_a, channel_b, channel_c }
    }
}

impl Ssd1351Command for ContrastAbcCommand {
    open spec fn spec_command_id(&self) -> Ssd1351CommandId {
        Ssd1351CommandId::ContrastAbc
    }

    open spec fn spec_command_data(&self) -> Seq<u8> {
        seq![self.channel_a, self.channel_b, self.channel_c]
    }

    fn command_id(&self) -> (r: Ssd1351CommandId) {
        Ssd1351CommandId::ContrastAbc
    }

    fn command_data(&self) -> (r: Vec<u8>) {
        let mut r: Vec<u8> = Vec::new();
        r.push(self.channel_a);
        r.push(self.channel_b);
        r.push(self.channel_c);
        assert(r@ =~= self.spec_command_data());
        r
    }
}

/// Command to show the display contents normally.
pub struct NormalDisplayCommand;

impl Ssd1351Command for NormalDisplayCommand {
    open spec fn spec_command_id(&self) -> Ssd1351CommandId {
        Ssd1351CommandId::NormalDisplay
    }

    open spec fn spec_command_data(&self) -> Seq<u8> {
        Seq::empty()
    }

    fn command_id(&self) -> (r: Ssd1351CommandId) {
        Ssd1351CommandId::NormalDisplay
    }

    fn command_data(&self) -> (r: Vec<u8>) {
        let r: Vec<u8> = Vec::new();
        assert(r@ =~= Seq::<u8>::empty());
        r
    }
}

/// Command to show the display contents inverted.
pub struct InvertDisplayCommand;

impl Ssd1351Command for InvertDisplayCommand {
    open spec fn spec_command_id(&self) -> Ssd1351CommandId {
        Ssd1351CommandId::InvertDisplay
    }

    open spec fn spec_command_data(&self) -> Seq<u8> {
        Seq::empty()
    }

    fn command_id(&self) -> (r: Ssd1351CommandId) {
        Ssd1351CommandId::InvertDisplay
    }

    fn command_data(&self) -> (r: Vec<u8>) {
        let r: Vec<u8> = Vec::new();
        assert(r@ =~= Seq::<u8>::empty());
        r
    }
}

/// Command to set the master contrast ratio (k/16, k = 0..=15).
pub struct ContrastMasterCommand {
    level: u8,
}

impl ContrastMasterCommand {
    /// Build the command; the low four bits of the level are kept.
    pub fn new(level: u8) -> (r: ContrastMasterCommand)
        ensures
            r.spec_command_data() == seq![level & 0x0f],
    {
        ContrastMasterCommand { level: level & 0x0f }
    }
}

impl Ssd1351Command for ContrastMasterCommand {
    open spec fn spec_command_id(&self) -> Ssd1351CommandId {
        Ssd1351CommandId::ContrastMaster
    }

    closed spec fn spec_command_data(&self) -> Seq<u8> {
        seq![self.level]
    }

    fn command_id(&self) -> (r: Ssd1351CommandId) {
        Ssd1351CommandId::ContrastMaster
    }

    fn command_data(&self) -> (r: Vec<u8>) {
        let mut r: Vec<u8> = Vec::new();
        r.push(self.level);
        assert(r@ =~= self.spec_command_data());
        r
    }
}

/// Command to set the segment low voltage: the three argument bytes are
/// fixed by the controller's datasheet.
pub struct SetVslCommand;

impl Ssd1351Command for SetVslCommand {
    open spec fn spec_command_id(&self) -> Ssd1351CommandId {
        Ssd1351CommandId::SetVsl
    }

    open spec fn spec_command_data(&self) -> Seq<u8> {
        seq![0xa0u8, 0xb5u8, 0x55u8]
    }

    fn command_id(&self) -> (r: Ssd1351CommandId) {
        Ssd1351CommandId::SetVsl
    }

    fn command_data(&self) -> (r: Vec<u8>) {
        let mut r: Vec<u8> = Vec::new();
        r.push(0xa0);
        r.push(0xb5);
        r.push(0x55);
        assert(r@ =~= self.spec_command_data());
        r
    }
}

/// Command to set the second pre-charge period (0 through 15).
pub struct Precharge2Command {
    period: u8,
}

impl Precharge2Command {
    /// Build the command; the low four bits of the period are kept.
    pub fn new(period: u8) -> (r: Precharge2Command)
        ensures
            r.spec_command_data() == seq![period & 0x0f],
    {
        Precharge2Command { period: period & 0x0f }
    }
}

impl Ssd1351Command for Precharge2Command {
    open spec fn spec_command_id(&self) -> Ssd1351CommandId {
        Ssd1351CommandId::Precharge2
    }

    closed spec fn spec_command_data(&self) -> Seq<u8> {
        seq![self.period]
    }

    fn command_id(&self) -> (r: Ssd1351CommandId) {
        Ssd1351CommandId::Precharge2
    }

    fn command_data(&self) -> (r: Vec<u8>) {
        let mut r: Vec<u8> = Vec::new();
        r.push(self.period);
        assert(r@ =~= self.spec_command_data());
        r
    }
}

/// Command to set the display start line (0 through 127).
pub struct StartLineCommand {
    line: u8,
}

impl StartLineCommand {
    /// Build the command; the low seven bits of the line are kept.
    pub fn new(line: u8) -> (r: StartLineCommand)
        ensures
            r.spec_command_data() == seq![line & 0x7f],
    {
        StartLineCommand { line: line & 0x7f }
    }
}

impl Ssd1351Command for StartLineCommand {
    open spec fn spec_command_id(&self) -> Ssd1351CommandId {
        Ssd1351CommandId::StartLine
    }

    closed spec fn spec_command_data(&self) -> Seq<u8> {
        seq![self.line]
    }

    fn command_id(&self) -> (r: Ssd1351CommandId) {
        Ssd1351CommandId::StartLine
    }

    fn command_data(&self) -> (r: Vec<u8>) {
        let mut r: Vec<u8> = Vec::new();
        r.push(self.line);
        assert(r@ =~= self.spec_command_data());
        r
    }
}

/// Command to set the column address window.
pub struct SetColumnCommand {
    start: u8,
    end: u8,
}

impl SetColumnCommand {
    /// Build the command; columns above 127 or an inverted window are
    /// refused.
    pub fn new(start: u8, end: u8) -> (r: Result<SetColumnCommand, ()>)
        ensures
            r is Ok <==> (start <= 127 && end <= 127 && start <= end),
            r matches Ok(c) ==> c.spec_command_data() == seq![start, end],
    {
        if start > 127 || end > 127 || start > end {
            Err(())
        } else {
            Ok(SetColumnCommand { start, end })
        }
    }
}

impl Ssd1351Command for SetColumnCommand {
    open spec fn spec_command_id(&self) -> Ssd1351CommandId {
        Ssd1351CommandId::SetColumn
    }

    closed spec fn spec_command_data(&self) -> Seq<u8> {
        seq![self.start, self.end]
    }

    fn command_id(&self) -> (r: Ssd1351CommandId) {
        Ssd1351CommandId::SetColumn
    }

    fn command_data(&self) -> (r: Vec<u8>) {
        let mut r: Vec<u8> = Vec::new();
        r.push(self.start);
        r.push(self.end);
        assert(r@ =~= self.spec_command_data());
        r
    }
}

/// Command to set the row address window.
pub struct SetRowCommand {
    start: u8,
    end: u8,
}

impl SetRowCommand {
    /// Build the command; rows above 127 or an inverted window are
    /// refused.
    pub fn new(start: u8, end: u8) -> (r: Result<SetRowCommand, ()>)
        ensures
            r is Ok <==> (start <= 127 && end <= 127 && start <= end),
            r matches Ok(c) ==> c.spec_command_data() == seq![start, end],
    {
        if start > 127 || end > 127 || start > end {
            Err(())
        } else {
            Ok(SetRowCommand { start, end })
        }
    }
}

impl Ssd1351Command for SetRowCommand {
    open spec fn spec_command_id(&self) -> Ssd1351CommandId {
        Ssd1351CommandId::SetRow
    }

    closed spec fn spec_command_data(&self) -> Seq<u8> {
        seq![self.start, self.end]
    }

    fn command_id(&self) -> (r: Ssd1351CommandId) {
        Ssd1351CommandId::SetRow
    }

    fn command_data(&self) -> (r: Vec<u8>) {
        let mut r: Vec<u8> = Vec::new();
        r.push(self.start);
        r.push(self.end);
        assert(r@ =~= self.spec_command_data());
        r
    }
}

/// Command announcing that pixel data writes follow.
pub struct WriteRamCommand;

impl Ssd1351Command for WriteRamCommand {
    open spec fn spec_command_id(&self) -> Ssd1351CommandId {
        Ssd1351CommandId::WriteRam
    }

    open spec fn spec_command_data(&self) -> Seq<u8> {
        Seq::empty()
    }

    fn command_id(&self) -> (r: Ssd1351CommandId) {
        Ssd1351CommandId::WriteRam
    }

    fn command_data(&self) -> (r: Vec<u8>) {
        let r: Vec<u8> = Vec::new();
        assert(r@ =~= Seq::<u8>::empty());
        r
    }
}

/// Command announcing that pixel data reads follow.
pub struct ReadRamCommand;

impl Ssd1351Command for ReadRamCommand {
    open spec fn spec_command_id(&self) -> Ssd1351CommandId {
        Ssd1351CommandId::ReadRam
    }

    open spec fn spec_command_data(&self) -> Seq<u8> {
        Seq::empty()
    }

    fn command_id(&self) -> (r: Ssd1351CommandId) {
        Ssd1351CommandId::ReadRam
    }

    fn command_data(&self) -> (r: Vec<u8>) {
        let r: Vec<u8> = Vec::new();
        assert(r@ =~= Seq::<u8>::empty());
        r
    }
}

} // verus!
