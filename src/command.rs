//! Controller commands and the encoding of their parameter blocks.
use vstd::prelude::*;

verus! {

/// The controller commands this driver issues.
#[derive(Clone, Copy, Debug, PartialEq, Eq, Structural)]
pub enum Command {
    DriverOutputControl,
    GateDrivingVoltageCtrl,
    SourceDrivingVoltageCtrl,
    DeepSleepMode,
    DataEntryModeSetting,
    SwReset,
    MasterActivation,
    DisplayUpdateControl1,
    WriteRam,
    WriteRamRed,
    WriteVcomRegister,
    BorderWaveformControl,
    SetRamXAddressStartEndPosition,
    SetRamYAddressStartEndPosition,
    SetRamXAddressCounter,
    SetRamYAddressCounter,
}

impl Command {
    /// The command byte on the wire.
    pub open spec fn code(self) -> u8 {
        match self {
            Command::DriverOutputControl => 0x01,
            Command::GateDrivingVoltageCtrl => 0x03,
            Command::SourceDrivingVoltageCtrl => 0x04,
            Command::DeepSleepMode => 0x10,
            Command::DataEntryModeSetting => 0x11,
            Command::SwReset => 0x12,
            Command::MasterActivation => 0x20,
            Command::DisplayUpdateControl1 => 0x21,
            Command::WriteRam => 0x24,
            Command::WriteRamRed => 0x26,
            Command::WriteVcomRegister => 0x2C,
            Command::BorderWaveformControl => 0x3C,
            Command::SetRamXAddressStartEndPosition => 0x44,
            Command::SetRamYAddressStartEndPosition => 0x45,
            Command::SetRamXAddressCounter => 0x4E,
            Command::SetRamYAddressCounter => 0x4F,
        }
    }

    /// The command byte on the wire.
    pub fn address(self) -> (r: u8)
        ensures
            r == self.code(),
    {
        match self {
            Command::DriverOutputControl => 0x01,
            Command::GateDrivingVoltageCtrl => 0x03,
            Command::SourceDrivingVoltageCtrl => 0x04,
            Command::DeepSleepMode => 0x10,
            Command::DataEntryModeSetting => 0x11,
            Command::SwReset => 0x12,
            Command::MasterActivation => 0x20,
            Command::DisplayUpdateControl1 => 0x21,
            Command::WriteRam => 0x24,
            Command::WriteRamRed => 0x26,
            Command::WriteVcomRegister => 0x2C,
            Command::BorderWaveformControl => 0x3C,
            Command::SetRamXAddressStartEndPosition => 0x44,
            Command::SetRamYAddressStartEndPosition => 0x45,
            Command::SetRamXAddressCounter => 0x4E,
            Command::SetRamYAddressCounter => 0x4F,
        }
    }
}

/// Gate driver output configuration.
#[derive(Clone, Copy, Debug, PartialEq, Eq, Structural)]
pub struct DriverOutput {
    pub scan_is_linear: bool,
    pub scan_g0_is_first: bool,
    pub scan_dir_incr: bool,
    /// Index of the last gate line in use.
    pub width: u16,
}

/// Flag byte of the driver output block: each bit is set when the
/// corresponding option departs from the default scan.
pub open spec fn driver_output_flags(o: DriverOutput) -> u8 {
    ((if o.scan_dir_incr { 0u8 } else { 1u8 }) + (if o.scan_g0_is_first { 0u8 } else { 2u8 }) + (
    if o.scan_is_linear {
        0u8
    } else {
        4u8
    })) as u8
}

impl DriverOutput {
    /// Parameter block: last gate line, little-endian, then the flag byte.
    pub open spec fn spec_bytes(self) -> Seq<u8> {
        seq![(self.width % 256) as u8, (self.width / 256) as u8, driver_output_flags(self)]
    }

    pub fn to_bytes(&self) -> (r: [u8; 3])
        ensures
            r@ == self.spec_bytes(),
    {
        let mut flags: u8 = 0;
        if !self.scan_dir_incr {
            flags = flags + 1;
        }
        if !self.scan_g0_is_first {
            flags = flags + 2;
        }
        if !self.scan_is_linear {
            flags = flags + 4;
        }
        [(self.width % 256) as u8, (self.width / 256) as u8, flags]
    }
}

/// Whether the X and Y address counters increment or decrement.
#[derive(Clone, Copy, Debug, PartialEq, Eq, Structural)]
pub enum DataEntryModeIncr {
    XDecrYDecr,
    XIncrYDecr,
    XDecrYIncr,
    XIncrYIncr,
}

/// Which address counter advances first.
#[derive(Clone, Copy, Debug, PartialEq, Eq, Structural)]
pub enum DataEntryModeDir {
    XDir,
    YDir,
}

/// Data entry mode byte: increment bits 0-1, direction bit 2.
pub open spec fn data_entry_mode_byte(incr: DataEntryModeIncr, dir: DataEntryModeDir) -> u8 {
    let i: u8 = match incr {
        DataEntryModeIncr::XDecrYDecr => 0,
        DataEntryModeIncr::XIncrYDecr => 1,
        DataEntryModeIncr::XDecrYIncr => 2,
        DataEntryModeIncr::XIncrYIncr => 3,
    };
    let d: u8 = match dir {
        DataEntryModeDir::XDir => 0,
        DataEntryModeDir::YDir => 4,
    };
    (i + d) as u8
}

pub fn data_entry_mode(incr: DataEntryModeIncr, dir: DataEntryModeDir) -> (r: u8)
    ensures
        r == data_entry_mode_byte(incr, dir),
{
    let i: u8 = match incr {
        DataEntryModeIncr::XDecrYDecr => 0,
        DataEntryModeIncr::XIncrYDecr => 1,
        DataEntryModeIncr::XDecrYIncr => 2,
        DataEntryModeIncr::XIncrYIncr => 3,
    };
    let d: u8 = match dir {
        DataEntryModeDir::XDir => 0,
        DataEntryModeDir::YDir => 4,
    };
    i + d
}

/// How a RAM plane is read during a refresh.
#[derive(Clone, Copy, Debug, PartialEq, Eq, Structural)]
pub enum RamOption {
    Normal,
    Bypass,
    Inverse,
}

pub open spec fn ram_option_bits(o: RamOption) -> u8 {
    match o {
        RamOption::Normal => 0x0,
        RamOption::Bypass => 0x4,
        RamOption::Inverse => 0x8,
    }
}

/// Display update control: how each plane is read and whether the source
/// outputs are driven.
#[derive(Clone, Copy, Debug, PartialEq, Eq, Structural)]
pub struct DisplayUpdateControl {
    pub red_ram_option: RamOption,
    pub bw_ram_option: RamOption,
    pub source_output_mode: bool,
}

impl DisplayUpdateControl {
    /// Parameter block: chromatic option in the high nibble and achromatic
    /// option in the low nibble, then the source output flag in bit 7.
    pub open spec fn spec_bytes(self) -> Seq<u8> {
        seq![
            (ram_option_bits(self.red_ram_option) * 16 + ram_option_bits(self.bw_ram_option)) as u8,
            if self.source_output_mode { 0x80u8 } else { 0x00u8 },
        ]
    }

    pub fn to_bytes(&self) -> (r: [u8; 2])
        ensures
            r@ == self.spec_bytes(),
    {
        let red = ram_option(self.red_ram_option);
        let bw = ram_option(self.bw_ram_option);
        let source: u8 = if self.source_output_mode { 0x80 } else { 0x00 };
        [red * 16 + bw, source]
    }
}

fn ram_option(o: RamOption) -> (r: u8)
    ensures
        r == ram_option_bits(o),
{
    match o {
        RamOption::Normal => 0x0,
        RamOption::Bypass => 0x4,
        RamOption::Inverse => 0x8,
    }
}

/// Source of the border voltage.
#[derive(Clone, Copy, Debug, PartialEq, Eq, Structural)]
pub enum BorderWaveFormVbd {
    Gs,
    FixLevel,
    Vcom,
    HiZ,
}

/// Fixed border level, used when the border source is a fixed level.
#[derive(Clone, Copy, Debug, PartialEq, Eq, Structural)]
pub enum BorderWaveFormFixLevel {
    Vss,
    Vsh1,
    Vsl,
    Vsh2,
}

/// Waveform table used for the border's grey-scale transition.
#[derive(Clone, Copy, Debug, PartialEq, Eq, Structural)]
pub enum BorderWaveFormGs {
    Lut0,
    Lut1,
    Lut2,
    Lut3,
}

/// Border waveform configuration.
#[derive(Clone, Copy, Debug, PartialEq, Eq, Structural)]
pub struct BorderWaveForm {
    pub vbd: BorderWaveFormVbd,
    pub fix_level: BorderWaveFormFixLevel,
    pub gs_trans: BorderWaveFormGs,
}

pub open spec fn vbd_bits(v: BorderWaveFormVbd) -> u8 {
    match v {
        BorderWaveFormVbd::Gs => 0,
        BorderWaveFormVbd::FixLevel => 1,
        BorderWaveFormVbd::Vcom => 2,
        BorderWaveFormVbd::HiZ => 3,
    }
}

pub open spec fn fix_level_bits(f: BorderWaveFormFixLevel) -> u8 {
    match f {
        BorderWaveFormFixLevel::Vss => 0,
        BorderWaveFormFixLevel::Vsh1 => 1,
        BorderWaveFormFixLevel::Vsl => 2,
        BorderWaveFormFixLevel::Vsh2 => 3,
    }
}

pub open spec fn gs_bits(g: BorderWaveFormGs) -> u8 {
    match g {
        BorderWaveFormGs::Lut0 => 0,
        BorderWaveFormGs::Lut1 => 1,
        BorderWaveFormGs::Lut2 => 2,
        BorderWaveFormGs::Lut3 => 3,
    }
}

impl BorderWaveForm {
    /// Border byte: source in bits 6-7, fixed level in bits 4-5, waveform
    /// table in bits 0-1.
    pub open spec fn spec_byte(self) -> u8 {
        (vbd_bits(self.vbd) * 64 + fix_level_bits(self.fix_level) * 16 + gs_bits(self.gs_trans)) as u8
    }

    pub fn to_u8(&self) -> (r: u8)
        ensures
            r == self.spec_byte(),
    {
        let vbd: u8 = match self.vbd {
            BorderWaveFormVbd::Gs => 0,
            BorderWaveFormVbd::FixLevel => 1,
            BorderWaveFormVbd::Vcom => 2,
            BorderWaveFormVbd::HiZ => 3,
        };
        let fix: u8 = match self.fix_level {
            BorderWaveFormFixLevel::Vss => 0,
            BorderWaveFormFixLevel::Vsh1 => 1,
            BorderWaveFormFixLevel::Vsl => 2,
            BorderWaveFormFixLevel::Vsh2 => 3,
        };
        let gs: u8 = match self.gs_trans {
            BorderWaveFormGs::Lut0 => 0,
            BorderWaveFormGs::Lut1 => 1,
            BorderWaveFormGs::Lut2 => 2,
            BorderWaveFormGs::Lut3 => 3,
        };
        vbd * 64 + fix * 16 + gs
    }
}

/// Deep sleep modes of the controller.
#[derive(Clone, Copy, Debug, PartialEq, Eq, Structural)]
pub enum DeepSleepMode {
    Normal,
    Mode1,
    Mode2,
}

impl DeepSleepMode {
    pub open spec fn spec_byte(self) -> u8 {
        match self {
            DeepSleepMode::Normal => 0x00,
            DeepSleepMode::Mode1 => 0x01,
            DeepSleepMode::Mode2 => 0x03,
        }
    }

    pub fn to_u8(self) -> (r: u8)
        ensures
            r == self.spec_byte(),
    {
        match self {
            DeepSleepMode::Normal => 0x00,
            DeepSleepMode::Mode1 => 0x01,
            DeepSleepMode::Mode2 => 0x03,
        }
    }
}

} // verus!
