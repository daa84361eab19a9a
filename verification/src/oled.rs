//! Commands of the SSD1351 display controller behind the 96x96 OLED panel.
//!
//! A [`DisplayCommand`] is one message of the controller's protocol. This
//! module decides which messages are legal and what bytes each one puts on the
//! wire: a command code, sent with the data/command line low, followed by the
//! payload, sent with the line high. Moving those bytes is the caller's job.

use vstd::prelude::*;

verus! {

/// Direction in which the RAM address advances after each pixel.
#[derive(Clone, Copy, Debug, PartialEq, Eq, Structural, Hash, PartialOrd, Ord)]
pub enum AddressIncrement {
    Horizontal,
    Vertical,
}

impl AddressIncrement {
    /// The one-bit field value.
    pub open spec fn bits(self) -> u8 {
        match self {
            AddressIncrement::Horizontal => 0b0,
            AddressIncrement::Vertical => 0b1,
        }
    }

    /// The field value as the controller expects it.
    pub fn as_bits(&self) -> (r: u8)
        ensures
            r == self.bits(),
            r < 2,
    {
        match self {
            Self::Horizontal => 0b0,
            Self::Vertical => 0b1,
        }
    }
}

/// Colour depth and pixel format.
#[derive(Clone, Copy, Debug, PartialEq, Eq, Structural, Hash, PartialOrd, Ord)]
pub enum ColorDepth {
    Colors65k,
    Colors262k,
    Colors262k16BitFormat2,
}

impl ColorDepth {
    /// The two-bit field value.
    pub open spec fn bits(self) -> u8 {
        match self {
            ColorDepth::Colors65k => 0b00,
            ColorDepth::Colors262k => 0b10,
            ColorDepth::Colors262k16BitFormat2 => 0b11,
        }
    }

    /// The field value as the controller expects it.
    pub fn as_bits(&self) -> (r: u8)
        ensures
            r == self.bits(),
            r < 4,
    {
        match self {
            Self::Colors65k => 0b00,
            Self::Colors262k => 0b10,
            Self::Colors262k16BitFormat2 => 0b11,
        }
    }
}

/// Width of the controller's parallel interface.
#[derive(Clone, Copy, Debug, PartialEq, Eq, Structural, Hash, PartialOrd, Ord)]
pub enum ParallelInterface {
    EightBit,
    SixteenBit,
    EighteenBit,
}

impl ParallelInterface {
    /// The two-bit field value.
    pub open spec fn bits(self) -> u8 {
        match self {
            ParallelInterface::EightBit => 0b00,
            ParallelInterface::SixteenBit => 0b01,
            ParallelInterface::EighteenBit => 0b11,
        }
    }

    /// The field value as the controller expects it.
    pub fn as_bits(&self) -> (r: u8)
        ensures
            r == self.bits(),
            r < 4,
    {
        match self {
            Self::EightBit => 0b00,
            Self::SixteenBit => 0b01,
            Self::EighteenBit => 0b11,
        }
    }
}

/// State of one of the controller's general-purpose pins.
#[derive(Clone, Copy, Debug, PartialEq, Eq, Structural, Hash, PartialOrd, Ord)]
pub enum GpioState {
    HiZInputDisabled,
    HiZInputEnabled,
    OutputLow,
    OutputHigh,
}

impl GpioState {
    /// The two-bit field value.
    pub open spec fn bits(self) -> u8 {
        match self {
            GpioState::HiZInputDisabled => 0b00,
            GpioState::HiZInputEnabled => 0b01,
            GpioState::OutputLow => 0b10,
            GpioState::OutputHigh => 0b11,
        }
    }

    /// The field value as the controller expects it.
    pub fn as_bits(&self) -> (r: u8)
        ensures
            r == self.bits(),
            r < 4,
    {
        match self {
            Self::HiZInputDisabled => 0b00,
            Self::HiZInputEnabled => 0b01,
            Self::OutputLow => 0b10,
            Self::OutputHigh => 0b11,
        }
    }
}

/// Which commands the controller accepts.
#[derive(Clone, Copy, Debug, PartialEq, Eq, Structural, Hash, PartialOrd, Ord)]
pub enum LockState {
    CommandsUnlocked,
    CommandsLocked,
    AdvancedCommandsLocked,
    AdvancedCommandsUnlocked,
}

impl LockState {
    /// The magic byte that selects this state.
    pub open spec fn bits(self) -> u8 {
        match self {
            LockState::CommandsUnlocked => 0x12,
            LockState::CommandsLocked => 0x16,
            LockState::AdvancedCommandsLocked => 0xB0,
            LockState::AdvancedCommandsUnlocked => 0x1B,
        }
    }

    /// The byte as the controller expects it.
    pub fn as_bits(&self) -> (r: u8)
        ensures
            r == self.bits(),
    {
        match self {
            Self::CommandsUnlocked => 0x12,
            Self::CommandsLocked => 0x16,
            Self::AdvancedCommandsLocked => 0xB0,
            Self::AdvancedCommandsUnlocked => 0x1B,
        }
    }
}

/// Interval between horizontal scroll steps.
#[derive(Clone, Copy, Debug, PartialEq, Eq, Structural, Hash, PartialOrd, Ord)]
pub enum ScrollSpeed {
    TestMode,
    Normal,
    Slow,
    Slowest,
}

impl ScrollSpeed {
    /// The two-bit field value.
    pub open spec fn bits(self) -> u8 {
        match self {
            ScrollSpeed::TestMode => 0b00,
            ScrollSpeed::Normal => 0b01,
            ScrollSpeed::Slow => 0b10,
            ScrollSpeed::Slowest => 0b11,
        }
    }

    /// The field value as the controller expects it.
    pub fn as_bits(&self) -> (r: u8)
        ensures
            r == self.bits(),
            r < 4,
    {
        match self {
            Self::TestMode => 0b00,
            Self::Normal => 0b01,
            Self::Slow => 0b10,
            Self::Slowest => 0b11,
        }
    }
}

/// Number of entries in the grayscale look-up table.
pub const GRAYSCALE_TABLE_LEN: usize = 63;

/// A command that can be sent to the display.
#[derive(Clone, Copy, Debug, PartialEq, Eq, Hash, PartialOrd, Ord)]
pub enum DisplayCommand<'a> {
    SetColumnAddress { start: u8, end: u8 },
    SetRowAddress { start: u8, end: u8 },
    WriteRam,
    ReadRam,
    SetMapping {
        address_increment: AddressIncrement,
        reverse_columns: bool,
        swap_color_sequence: bool,
        backward_scan: bool,
        com_split_odd_even: bool,
        color_depth: ColorDepth,
    },
    SetDisplayStartLine { line: u8 },
    SetDisplayOffset { offset: u8 },
    DisplayModeAllOff,
    DisplayModeAllOn,
    DisplayModeRegular,
    DisplayModeInverted,
    FunctionSelection {
        internal_vdd_regulator: bool,
        interface: ParallelInterface,
    },
    NopAD,
    DisplayOff,
    DisplayOn,
    NopB0,
    SetPhasePeriods { phase1: u8, phase2: u8 },
    DisplayEnhancement { enhance: bool },
    SetFrequency { front_clock_divider_2pow: u8, oscillator_frequency: u8 },
    SetGpio { gpio0: GpioState, gpio1: GpioState },
    SetSecondPreChargePeriod { period: u8 },
    SetGrayscaleLookUpTable { table: &'a [u8] },
    ResetGrayscaleLookUpTable,
    SetPreChargeVoltageLevel { voltage_level: u8 },
    SetComDeselectVoltageLevel { voltage_level: u8 },
    SetColorContrast {
        color1_contrast: u8,
        color2_contrast: u8,
        color3_contrast: u8,
    },
    SetMasterContrast { contrast: u8 },
    SetMuxRatio { ratio: u8 },
    NopD1,
    NopE3,
    SetCommandLock { state: LockState },
    HorizontalScroll {
        scrolling: u8,
        start_row: u8,
        scroll_row_count: u8,
        scroll_speed: ScrollSpeed,
    },
    StopMoving,
    StartMoving,
}

impl<'a> DisplayCommand<'a> {
    /// The code byte that announces this command on the wire.
    pub open spec fn command_code(self) -> u8 {
        match self {
            DisplayCommand::SetColumnAddress { .. } => 0x15,
            DisplayCommand::SetRowAddress { .. } => 0x75,
            DisplayCommand::WriteRam => 0x5C,
            DisplayCommand::ReadRam => 0x5D,
            DisplayCommand::SetMapping { .. } => 0xA0,
            DisplayCommand::SetDisplayStartLine { .. } => 0xA1,
            DisplayCommand::SetDisplayOffset { .. } => 0xA2,
            DisplayCommand::DisplayModeAllOff => 0xA4,
            DisplayCommand::DisplayModeAllOn => 0xA5,
            DisplayCommand::DisplayModeRegular => 0xA6,
            DisplayCommand::DisplayModeInverted => 0xA7,
            DisplayCommand::FunctionSelection { .. } => 0xAB,
            DisplayCommand::NopAD => 0xAD,
            DisplayCommand::DisplayOff => 0xAE,
            DisplayCommand::DisplayOn => 0xAF,
            DisplayCommand::NopB0 => 0xB0,
            DisplayCommand::SetPhasePeriods { .. } => 0xB1,
            DisplayCommand::DisplayEnhancement { .. } => 0xB2,
            DisplayCommand::SetFrequency { .. } => 0xB3,
            DisplayCommand::SetGpio { .. } => 0xB5,
            DisplayCommand::SetSecondPreChargePeriod { .. } => 0xB6,
            DisplayCommand::SetGrayscaleLookUpTable { .. } => 0xB8,
            DisplayCommand::ResetGrayscaleLookUpTable => 0xB9,
            DisplayCommand::SetPreChargeVoltageLevel { .. } => 0xBB,
            DisplayCommand::SetComDeselectVoltageLevel { .. } => 0xBE,
            DisplayCommand::SetColorContrast { .. } => 0xC1,
            DisplayCommand::SetMasterContrast { .. } => 0xC7,
            DisplayCommand::SetMuxRatio { .. } => 0xCA,
            DisplayCommand::NopD1 => 0xD1,
            DisplayCommand::NopE3 => 0xE3,
            DisplayCommand::SetCommandLock { .. } => 0xFD,
            DisplayCommand::HorizontalScroll { .. } => 0x96,
            DisplayCommand::StopMoving => 0x9E,
            DisplayCommand::StartMoving => 0x9F,
        }
    }

    /// Whether every field lies in the range the controller accepts.
    pub open spec fn valid(self) -> bool {
        match self {
            DisplayCommand::SetColumnAddress { start, end } => start <= end <= 127,
            DisplayCommand::SetRowAddress { start, end } => start <= end <= 127,
            DisplayCommand::SetDisplayStartLine { line } => line <= 127,
            DisplayCommand::SetDisplayOffset { offset } => offset <= 127,
            DisplayCommand::SetPhasePeriods { phase1, phase2 } => 2 <= phase1 <= 15 && 3
                <= phase2 <= 15,
            DisplayCommand::SetFrequency { front_clock_divider_2pow, oscillator_frequency } => {
                front_clock_divider_2pow <= 10 && oscillator_frequency <= 15
            },
            DisplayCommand::SetSecondPreChargePeriod { period } => 1 <= period <= 15,
            DisplayCommand::SetGrayscaleLookUpTable { table } => table@.len()
                == GRAYSCALE_TABLE_LEN,
            DisplayCommand::SetPreChargeVoltageLevel { voltage_level } => voltage_level <= 31,
            DisplayCommand::SetComDeselectVoltageLevel { voltage_level } => voltage_level <= 7,
            DisplayCommand::SetMasterContrast { contrast } => contrast <= 15,
            DisplayCommand::SetMuxRatio { ratio } => 15 <= ratio <= 127,
            DisplayCommand::HorizontalScroll { start_row, scroll_row_count, .. } => start_row
                <= 127 && start_row + scroll_row_count <= 128,
            _ => true,
        }
    }

    /// The byte that carries the fields of a `SetMapping` command: colour depth
    /// in bits 7 and 6, then one bit each for the odd/even split, the scan
    /// direction, the colour order and the column order, and the address
    /// increment in bit 0. Bit 3 is reserved and stays clear.
    pub open spec fn mapping_byte(
        address_increment: AddressIncrement,
        reverse_columns: bool,
        swap_color_sequence: bool,
        backward_scan: bool,
        com_split_odd_even: bool,
        color_depth: ColorDepth,
    ) -> int {
        color_depth.bits() * 64 + (if com_split_odd_even {
            32int
        } else {
            0
        }) + (if backward_scan {
            16int
        } else {
            0
        }) + (if swap_color_sequence {
            4int
        } else {
            0
        }) + (if reverse_columns {
            2int
        } else {
            0
        }) + address_increment.bits()
    }

    /// The data bytes that follow the command code on the wire.
    pub open spec fn payload_bytes(self) -> Seq<u8>
        recommends
            self.valid(),
    {
        match self {
            DisplayCommand::SetColumnAddress { start, end } => seq![start, end],
            DisplayCommand::SetRowAddress { start, end } => seq![start, end],
            DisplayCommand::SetMapping {
                address_increment,
                reverse_columns,
                swap_color_sequence,
                backward_scan,
                com_split_odd_even,
                color_depth,
            } => seq![
                Self::mapping_byte(
                    address_increment,
                    reverse_columns,
                    swap_color_sequence,
                    backward_scan,
                    com_split_odd_even,
                    color_depth,
                ) as u8,
            ],
            DisplayCommand::SetDisplayStartLine { line } => seq![line],
            DisplayCommand::SetDisplayOffset { offset } => seq![offset],
            DisplayCommand::FunctionSelection { internal_vdd_regulator, interface } => seq![
                (interface.bits() * 64 + (if internal_vdd_regulator {
                    1int
                } else {
                    0
                })) as u8,
            ],
            DisplayCommand::SetPhasePeriods { phase1, phase2 } => seq![
                (phase2 * 16 + phase1) as u8,
            ],
            DisplayCommand::DisplayEnhancement { enhance } => seq![
                if enhance {
                    0xA4u8
                } else {
                    0x00u8
                },
                0x00u8,
                0x00u8,
            ],
            DisplayCommand::SetFrequency { front_clock_divider_2pow, oscillator_frequency } => seq![
                (oscillator_frequency * 16 + front_clock_divider_2pow) as u8,
            ],
            DisplayCommand::SetGpio { gpio0, gpio1 } => seq![
                (gpio1.bits() * 4 + gpio0.bits()) as u8,
            ],
            DisplayCommand::SetSecondPreChargePeriod { period } => seq![period],
            DisplayCommand::SetGrayscaleLookUpTable { table } => table@,
            DisplayCommand::SetPreChargeVoltageLevel { voltage_level } => seq![voltage_level],
            DisplayCommand::SetComDeselectVoltageLevel { voltage_level } => seq![voltage_level],
            DisplayCommand::SetColorContrast {
                color1_contrast,
                color2_contrast,
                color3_contrast,
            } => seq![color1_contrast, color2_contrast, color3_contrast],
            DisplayCommand::SetMasterContrast { contrast } => seq![contrast],
            DisplayCommand::SetMuxRatio { ratio } => seq![ratio],
            DisplayCommand::SetCommandLock { state } => seq![state.bits()],
            DisplayCommand::HorizontalScroll {
                scrolling,
                start_row,
                scroll_row_count,
                scroll_speed,
            } => seq![scrolling, start_row, scroll_row_count, 0x00u8, scroll_speed.bits()],
            _ => Seq::empty(),
        }
    }

    /// The code representing this command.
    pub fn as_command_code(&self) -> (r: u8)
        ensures
            r == self.command_code(),
    {
        match self {
            Self::SetColumnAddress { .. } => 0x15,
            Self::SetRowAddress { .. } => 0x75,
            Self::WriteRam => 0x5C,
            Self::ReadRam => 0x5D,
            Self::SetMapping { .. } => 0xA0,
            Self::SetDisplayStartLine { .. } => 0xA1,
            Self::SetDisplayOffset { .. } => 0xA2,
            Self::DisplayModeAllOff => 0xA4,
            Self::DisplayModeAllOn => 0xA5,
            Self::DisplayModeRegular => 0xA6,
            Self::DisplayModeInverted => 0xA7,
            Self::FunctionSelection { .. } => 0xAB,
            Self::NopAD => 0xAD,
            Self::DisplayOff => 0xAE,
            Self::DisplayOn => 0xAF,
            Self::NopB0 => 0xB0,
            Self::SetPhasePeriods { .. } => 0xB1,
            Self::DisplayEnhancement { .. } => 0xB2,
            Self::SetFrequency { .. } => 0xB3,
            Self::SetGpio { .. } => 0xB5,
            Self::SetSecondPreChargePeriod { .. } => 0xB6,
            Self::SetGrayscaleLookUpTable { .. } => 0xB8,
            Self::ResetGrayscaleLookUpTable => 0xB9,
            Self::SetPreChargeVoltageLevel { .. } => 0xBB,
            Self::SetComDeselectVoltageLevel { .. } => 0xBE,
            Self::SetColorContrast { .. } => 0xC1,
            Self::SetMasterContrast { .. } => 0xC7,
            Self::SetMuxRatio { .. } => 0xCA,
            Self::NopD1 => 0xD1,
            Self::NopE3 => 0xE3,
            Self::SetCommandLock { .. } => 0xFD,
            Self::HorizontalScroll { .. } => 0x96,
            Self::StopMoving => 0x9E,
            Self::StartMoving => 0x9F,
        }
    }

    /// Whether every field lies in the range the controller accepts.
    pub fn is_valid(&self) -> (r: bool)
        ensures
            r == self.valid(),
    {
        match self {
            Self::SetColumnAddress { start, end } => *start <= 127 && *end <= 127 && *start
                <= *end,
            Self::SetRowAddress { start, end } => *start <= 127 && *end <= 127 && *start <= *end,
            Self::SetDisplayStartLine { line } => *line <= 127,
            Self::SetDisplayOffset { offset } => *offset <= 127,
            Self::SetPhasePeriods { phase1, phase2 } => *phase1 >= 2 && *phase1 <= 15 && *phase2
                >= 3 && *phase2 <= 15,
            Self::SetFrequency { front_clock_divider_2pow, oscillator_frequency } => {
                *front_clock_divider_2pow <= 0b1010 && *oscillator_frequency <= 0b1111
            },
            Self::SetSecondPreChargePeriod { period } => *period >= 0b0001 && *period <= 0b1111,
            Self::SetGrayscaleLookUpTable { table } => table.len() == GRAYSCALE_TABLE_LEN,
            Self::SetPreChargeVoltageLevel { voltage_level } => *voltage_level <= 0b1_1111,
            Self::SetComDeselectVoltageLevel { voltage_level } => *voltage_level <= 0b111,
            Self::SetMasterContrast { contrast } => *contrast <= 0b1111,
            Self::SetMuxRatio { ratio } => *ratio >= 15 && *ratio <= 127,
            Self::HorizontalScroll { start_row, scroll_row_count, .. } => {
                let first: u16 = *start_row as u16;
                let count: u16 = *scroll_row_count as u16;
                first <= 0b111_1111 && first + count <= 128
            },
            _ => true,
        }
    }

    /// The data bytes to send after the command code.
    pub fn payload(&self) -> (r: Vec<u8>)
        requires
            self.valid(),
        ensures
            r@ == self.payload_bytes(),
    {
        let mut data: Vec<u8> = Vec::new();
        match self {
            DisplayCommand::SetColumnAddress { start, end } => {
                data.push(*start);
                data.push(*end);
            },
            DisplayCommand::SetRowAddress { start, end } => {
                data.push(*start);
                data.push(*end);
            },
            DisplayCommand::SetMapping {
                address_increment,
                reverse_columns,
                swap_color_sequence,
                backward_scan,
                com_split_odd_even,
                color_depth,
            } => {
                assert(1u8 << 5 == 32 && 1u8 << 4 == 16 && 1u8 << 2 == 4 && 1u8 << 1 == 2)
                    by (bit_vector);
                let depth: u8 = color_depth.as_bits();
                let split: u8 = if *com_split_odd_even { 1 << 5 } else { 0 };
                let scan: u8 = if *backward_scan { 1 << 4 } else { 0 };
                // bit 3 is reserved
                let swap: u8 = if *swap_color_sequence { 1 << 2 } else { 0 };
                let reverse: u8 = if *reverse_columns { 1 << 1 } else { 0 };
                let increment: u8 = address_increment.as_bits();
                let data_byte: u8 = (depth << 6) | split | scan | swap | reverse | increment;
                assert(data_byte == depth * 64 + split + scan + swap + reverse + increment)
                    by (bit_vector)
                    requires
                        data_byte == (depth << 6) | split | scan | swap | reverse | increment,
                        depth < 4,
                        split == 0 || split == 32,
                        scan == 0 || scan == 16,
                        swap == 0 || swap == 4,
                        reverse == 0 || reverse == 2,
                        increment < 2,
                ;
                data.push(data_byte);
            },
            DisplayCommand::SetDisplayStartLine { line } => {
                data.push(*line);
            },
            DisplayCommand::SetDisplayOffset { offset } => {
                data.push(*offset);
            },
            DisplayCommand::FunctionSelection { internal_vdd_regulator, interface } => {
                let width: u8 = interface.as_bits();
                let regulator: u8 = if *internal_vdd_regulator { 1 } else { 0 };
                let data_byte: u8 = (width << 6) | regulator;
                assert(data_byte == width * 64 + regulator) by (bit_vector)
                    requires
                        data_byte == (width << 6) | regulator,
                        width < 4,
                        regulator < 2,
                ;
                data.push(data_byte);
            },
            DisplayCommand::SetPhasePeriods { phase1, phase2 } => {
                let low: u8 = *phase1;
                let high: u8 = *phase2;
                let data_byte: u8 = (high << 4) | low;
                assert(data_byte == high * 16 + low) by (bit_vector)
                    requires
                        data_byte == (high << 4) | low,
                        high < 16,
                        low < 16,
                ;
                data.push(data_byte);
            },
            DisplayCommand::DisplayEnhancement { enhance } => {
                let first_data_byte: u8 = if *enhance { 0xA4 } else { 0x00 };
                data.push(first_data_byte);
                data.push(0x00);
                data.push(0x00);
            },
            DisplayCommand::SetFrequency { front_clock_divider_2pow, oscillator_frequency } => {
                let low: u8 = *front_clock_divider_2pow;
                let high: u8 = *oscillator_frequency;
                let data_byte: u8 = (high << 4) | low;
                assert(data_byte == high * 16 + low) by (bit_vector)
                    requires
                        data_byte == (high << 4) | low,
                        high < 16,
                        low < 16,
                ;
                data.push(data_byte);
            },
            DisplayCommand::SetGpio { gpio0, gpio1 } => {
                let low: u8 = gpio0.as_bits();
                let high: u8 = gpio1.as_bits();
                let data_byte: u8 = (high << 2) | low;
                assert(data_byte == high * 4 + low) by (bit_vector)
                    requires
                        data_byte == (high << 2) | low,
                        high < 4,
                        low < 4,
                ;
                data.push(data_byte);
            },
            DisplayCommand::SetSecondPreChargePeriod { period } => {
                data.push(*period);
            },
            DisplayCommand::SetGrayscaleLookUpTable { table } => {
                let mut i: usize = 0;
                while i < table.len()
                    invariant
                        i <= table@.len(),
                        data@ == table@.subrange(0, i as int),
                    decreases table@.len() - i,
                {
                    data.push(table[i]);
                    i += 1;
                    assert(data@ =~= table@.subrange(0, i as int));
                }
                assert(data@ =~= table@);
            },
            DisplayCommand::SetPreChargeVoltageLevel { voltage_level } => {
                data.push(*voltage_level);
            },
            DisplayCommand::SetComDeselectVoltageLevel { voltage_level } => {
                data.push(*voltage_level);
            },
            DisplayCommand::SetColorContrast {
                color1_contrast,
                color2_contrast,
                color3_contrast,
            } => {
                data.push(*color1_contrast);
                data.push(*color2_contrast);
                data.push(*color3_contrast);
            },
            DisplayCommand::SetMasterContrast { contrast } => {
                data.push(*contrast);
            },
            DisplayCommand::SetMuxRatio { ratio } => {
                data.push(*ratio);
            },
            DisplayCommand::SetCommandLock { state } => {
                data.push(state.as_bits());
            },
            DisplayCommand::HorizontalScroll {
                scrolling,
                start_row,
                scroll_row_count,
                scroll_speed,
            } => {
                data.push(*scrolling);
                data.push(*start_row);
                data.push(*scroll_row_count);
                data.push(0x00);
                data.push(scroll_speed.as_bits());
            },
            _ => {
                // command with no data
            },
        }
        assert(data@ =~= self.payload_bytes());
        data
    }
}

} // verus!
