//! The panel driver: initialisation, frame transfers, activation, clearing
//! and sleep, each stated as the exact bus transactions it queues.
use vstd::prelude::*;
use crate::bus::{Bus, BusEvent, BusOp};
use crate::chunk::{Chunk, ChunkBuffer, ChunkFill, chunk_at};
use crate::color::{TriColor, tricolor_byte};
use crate::command::{
    BorderWaveForm, BorderWaveFormFixLevel, BorderWaveFormGs, BorderWaveFormVbd, Command,
    DataEntryModeDir, DataEntryModeIncr, DeepSleepMode, DisplayUpdateControl, DriverOutput,
    RamOption, data_entry_mode,
};
use crate::geometry::{BUFFER, CHUNK_LEN, HEIGHT, PLANE_LEN, WIDTH};
use crate::stream::{BandPass, Plane, band_payload, generate_range};

verus! {

/// Background colour of a freshly constructed driver.
pub const DEFAULT_BACKGROUND_COLOR: TriColor = TriColor::White;

/// Polarity of the busy line: the panel is busy while the line is low.
pub const IS_BUSY_LOW: bool = true;

/// Hold times of the reset pulse, in microseconds.
pub const RESET_DELAY_US: u32 = 10_000;

/// Errors of the driver's own making; bus failures belong to the executor.
#[derive(Clone, Copy, Debug, PartialEq, Eq, Structural)]
pub enum EpdError {
    /// A full-plane buffer whose length is not the plane length.
    WrongBufferLength,
    /// An operation this panel does not support.
    Unsupported,
}

/// Refresh waveform tables a panel may offer.
#[derive(Clone, Copy, Debug, PartialEq, Eq, Structural)]
pub enum RefreshLut {
    Full,
    Quick,
}

/// A command byte.
pub open spec fn ev_cmd(c: Command) -> BusEvent {
    BusEvent::Command(c.code())
}

/// A command followed by its payload.
pub open spec fn ev_cmd_data(c: Command, d: Seq<u8>) -> Seq<BusEvent> {
    seq![ev_cmd(c), BusEvent::Data(d)]
}

/// A wait for the busy line to report idle.
pub open spec fn ev_wait() -> BusEvent {
    BusEvent::WaitIdle { busy_low: IS_BUSY_LOW }
}

/// A whole plane filled with one byte.
pub open spec fn ev_fill(b: u8) -> BusEvent {
    BusEvent::DataRepeat { value: b, count: PLANE_LEN as u32 }
}

/// RAM window: X bounds in units of eight pixels, Y bounds in pixels as
/// little-endian 16-bit pairs.
pub open spec fn ram_area_events(start_x: u32, start_y: u32, end_x: u32, end_y: u32) -> Seq<
    BusEvent,
> {
    ev_cmd_data(
        Command::SetRamXAddressStartEndPosition,
        seq![(start_x / 8 % 256) as u8, (end_x / 8 % 256) as u8],
    ) + ev_cmd_data(
        Command::SetRamYAddressStartEndPosition,
        seq![
            (start_y % 256) as u8,
            (start_y / 256 % 256) as u8,
            (end_y % 256) as u8,
            (end_y / 256 % 256) as u8,
        ],
    )
}

/// RAM address counters, set once the panel is idle.
pub open spec fn ram_counter_events(x: u32, y: u32) -> Seq<BusEvent> {
    seq![ev_wait()] + ev_cmd_data(Command::SetRamXAddressCounter, seq![(x / 8 % 256) as u8])
        + ev_cmd_data(Command::SetRamYAddressCounter, seq![(y % 256) as u8, (y / 256 % 256) as u8])
}

/// Reset pulse and software reset.
pub open spec fn reset_events() -> Seq<BusEvent> {
    seq![
        BusEvent::Reset { initial_us: RESET_DELAY_US, duration_us: RESET_DELAY_US },
        ev_wait(),
        ev_cmd(Command::SwReset),
        ev_wait(),
    ]
}

/// Scan and addressing set-up: gate lines 0 to 249 in linear increasing
/// order, X then Y auto-increment, the whole panel as RAM window, counters
/// at the origin.
pub open spec fn addressing_events() -> Seq<BusEvent> {
    ev_cmd_data(Command::DriverOutputControl, seq![249u8, 0u8, 0u8]) + ev_cmd_data(
        Command::DataEntryModeSetting,
        seq![0x03u8],
    ) + ram_area_events(0, 0, (WIDTH - 1) as u32, (HEIGHT - 1) as u32) + ram_counter_events(0, 0)
}

/// Border waveform, the panel's fixed voltages and the update control,
/// then a final wait.
pub open spec fn calibration_events() -> Seq<BusEvent> {
    ev_cmd_data(Command::BorderWaveformControl, seq![0x03u8]) + ev_cmd_data(
        Command::WriteVcomRegister,
        seq![0x36u8],
    ) + ev_cmd_data(Command::GateDrivingVoltageCtrl, seq![0x17u8]) + ev_cmd_data(
        Command::SourceDrivingVoltageCtrl,
        seq![0x41u8, 0x00u8, 0x32u8],
    ) + ev_cmd_data(Command::DisplayUpdateControl1, seq![0x00u8, 0x80u8]) + seq![ev_wait()]
}

/// The initialisation sequence.
pub open spec fn init_events() -> Seq<BusEvent> {
    reset_events() + addressing_events() + calibration_events()
}

/// Activation of the refresh, then a wait until it completes.
pub open spec fn display_events() -> Seq<BusEvent> {
    seq![ev_cmd(Command::MasterActivation), ev_wait()]
}

/// A full-plane write: `buffer` to the achromatic plane, and the
/// chromatic plane cleared to no ink.
pub open spec fn frame_events(buffer: Seq<u8>) -> Seq<BusEvent> {
    ev_cmd_data(Command::WriteRam, buffer) + seq![
        ev_cmd(Command::WriteRamRed),
        ev_fill(tricolor_byte(TriColor::Black)),
    ]
}

/// Fill byte of the achromatic plane for a background colour.
pub open spec fn achromatic_fill(bg: TriColor) -> u8 {
    match bg {
        TriColor::White => 0xFF,
        TriColor::Chromatic => 0xFF,
        TriColor::Black => 0x00,
    }
}

/// Fill byte of the chromatic plane for a background colour.
pub open spec fn chromatic_fill(bg: TriColor) -> u8 {
    match bg {
        TriColor::White => 0x00,
        TriColor::Chromatic => 0xFF,
        TriColor::Black => 0x00,
    }
}

/// Both planes filled for a background colour.
pub open spec fn clear_events(bg: TriColor) -> Seq<BusEvent> {
    seq![
        ev_cmd(Command::WriteRam),
        ev_fill(achromatic_fill(bg)),
        ev_cmd(Command::WriteRamRed),
        ev_fill(chromatic_fill(bg)),
    ]
}

/// The deep sleep command.
pub open spec fn sleep_events() -> Seq<BusEvent> {
    ev_cmd_data(Command::DeepSleepMode, seq![0x00u8])
}

/// `d` holds `len` bytes, byte `i` being one that `f` returns for `i`.
pub open spec fn generated<F: Fn(usize) -> u8>(f: F, len: nat, d: Seq<u8>) -> bool {
    &&& d.len() == len
    &&& forall|i: int| 0 <= i < len ==> #[trigger] f.ensures((i as usize,), d[i])
}

/// `ev` writes the plane that `c` selects: the command, then the `len`
/// bytes that `f` generates.
pub open spec fn plane_written_with<F: Fn(usize) -> u8>(
    ev: Seq<BusEvent>,
    c: Command,
    f: F,
    len: nat,
) -> bool {
    &&& ev.len() == 2
    &&& ev[0] == ev_cmd(c)
    &&& ev[1] is Data
    &&& generated(f, len, ev[1]->Data_0)
}

/// Every byte index below `len` is a valid argument of `f`.
pub open spec fn callable_below<F: Fn(usize) -> u8>(f: F, len: usize) -> bool {
    forall|i: usize| i < len ==> #[trigger] f.requires((i,))
}

/// The band callback may be called with any buffer and band.
pub open spec fn band_callable<F: Fn(&mut ChunkBuffer, Chunk) -> ChunkFill>(f: F) -> bool {
    forall|m: &mut ChunkBuffer, c: Chunk| #[trigger] f.requires((m, c))
}

/// Driver of the 2.13" three-colour panel.
pub struct Epd2in13b {
    background_color: TriColor,
}

impl Epd2in13b {
    /// The background colour that clearing fills with.
    pub closed spec fn spec_background(&self) -> TriColor {
        self.background_color
    }

    /// Queues the initialisation sequence and returns a driver with the
    /// default background.
    pub fn new(bus: &mut Bus) -> (r: Self)
        ensures
            final(bus)@ == old(bus)@ + init_events(),
            r.spec_background() == DEFAULT_BACKGROUND_COLOR,
    {
        let mut epd = Epd2in13b { background_color: DEFAULT_BACKGROUND_COLOR };
        epd.init(bus);
        epd
    }

    fn init(&mut self, bus: &mut Bus)
        ensures
            final(bus)@ == old(bus)@ + init_events(),
            *final(self) == *old(self),
    {
        // The parameter blocks below encode to the payloads of `init_events`.
        let ghost out = DriverOutput {
            scan_is_linear: true,
            scan_g0_is_first: true,
            scan_dir_incr: true,
            width: 249,
        };
        let ghost border = BorderWaveForm {
            vbd: BorderWaveFormVbd::Gs,
            fix_level: BorderWaveFormFixLevel::Vss,
            gs_trans: BorderWaveFormGs::Lut3,
        };
        let ghost duc = DisplayUpdateControl {
            red_ram_option: RamOption::Normal,
            bw_ram_option: RamOption::Normal,
            source_output_mode: true,
        };
        assert(out.spec_bytes() =~= seq![249u8, 0u8, 0u8]);
        assert(border.spec_byte() == 0x03u8);
        assert(duc.spec_bytes() =~= seq![0x00u8, 0x80u8]);
        assert(crate::command::data_entry_mode_byte(
            DataEntryModeIncr::XIncrYIncr,
            DataEntryModeDir::XDir,
        ) == 0x03u8);
        let ghost b0 = bus@;
        bus.push(BusOp::Reset { initial_us: RESET_DELAY_US, duration_us: RESET_DELAY_US });
        self.wait_until_idle(bus);
        self.command(bus, Command::SwReset);
        self.wait_until_idle(bus);
        assert(bus@ =~= b0 + reset_events());
        let ghost b1 = bus@;
        self.set_driver_output(
            bus,
            DriverOutput {
                scan_is_linear: true,
                scan_g0_is_first: true,
                scan_dir_incr: true,
                width: (HEIGHT - 1) as u16,
            },
        );
        self.set_data_entry_mode(bus, DataEntryModeIncr::XIncrYIncr, DataEntryModeDir::XDir);
        self.set_ram_area(bus, 0, 0, WIDTH - 1, HEIGHT - 1);
        self.set_ram_address_counters(bus, 0, 0);
        assert(bus@ =~= b1 + addressing_events());
        let ghost b2 = bus@;
        self.set_border_waveform(
            bus,
            BorderWaveForm {
                vbd: BorderWaveFormVbd::Gs,
                fix_level: BorderWaveFormFixLevel::Vss,
                gs_trans: BorderWaveFormGs::Lut3,
            },
        );
        let vcom = [0x36u8];
        let gate = [0x17u8];
        let source = [0x41u8, 0x00u8, 0x32u8];
        assert(vcom@ =~= seq![0x36u8]);
        assert(gate@ =~= seq![0x17u8]);
        assert(source@ =~= seq![0x41u8, 0x00u8, 0x32u8]);
        self.cmd_with_data(bus, Command::WriteVcomRegister, &vcom);
        self.cmd_with_data(bus, Command::GateDrivingVoltageCtrl, &gate);
        self.cmd_with_data(bus, Command::SourceDrivingVoltageCtrl, &source);
        self.set_display_update_control(
            bus,
            DisplayUpdateControl {
                red_ram_option: RamOption::Normal,
                bw_ram_option: RamOption::Normal,
                source_output_mode: true,
            },
        );
        self.wait_until_idle(bus);
        assert(bus@ =~= b2 + calibration_events());
        assert(bus@ =~= b0 + init_events());
    }

    /// Queues a wait for the busy line to report idle.
    pub fn wait_until_idle(&self, bus: &mut Bus)
        ensures
            final(bus)@ == old(bus)@.push(ev_wait()),
    {
        bus.push(BusOp::WaitIdle { busy_low: IS_BUSY_LOW });
    }

    fn command(&self, bus: &mut Bus, command: Command)
        ensures
            final(bus)@ == old(bus)@.push(ev_cmd(command)),
    {
        bus.push(BusOp::Command(command.address()));
    }

    fn cmd_with_data(&self, bus: &mut Bus, command: Command, data: &[u8])
        ensures
            final(bus)@ == old(bus)@ + ev_cmd_data(command, data@),
    {
        let ghost b0 = bus@;
        bus.push(BusOp::Command(command.address()));
        bus.push(BusOp::Data(vstd::slice::slice_to_vec(data)));
        assert(bus@ =~= b0 + ev_cmd_data(command, data@));
    }

    fn set_driver_output(&self, bus: &mut Bus, output: DriverOutput)
        ensures
            final(bus)@ == old(bus)@ + ev_cmd_data(Command::DriverOutputControl, output.spec_bytes()),
    {
        let bytes = output.to_bytes();
        self.cmd_with_data(bus, Command::DriverOutputControl, &bytes);
    }

    fn set_data_entry_mode(
        &self,
        bus: &mut Bus,
        counter_incr_mode: DataEntryModeIncr,
        counter_direction: DataEntryModeDir,
    )
        ensures
            final(bus)@ == old(bus)@ + ev_cmd_data(
                Command::DataEntryModeSetting,
                seq![crate::command::data_entry_mode_byte(counter_incr_mode, counter_direction)],
            ),
    {
        let mode = data_entry_mode(counter_incr_mode, counter_direction);
        let bytes = [mode];
        assert(bytes@ =~= seq![mode]);
        self.cmd_with_data(bus, Command::DataEntryModeSetting, &bytes);
    }

    /// Sets both X and Y pixel ranges of the RAM window.
    fn set_ram_area(&self, bus: &mut Bus, start_x: u32, start_y: u32, end_x: u32, end_y: u32)
        ensures
            final(bus)@ == old(bus)@ + ram_area_events(start_x, start_y, end_x, end_y),
    {
        let ghost b0 = bus@;
        let x = [(start_x / 8 % 256) as u8, (end_x / 8 % 256) as u8];
        self.cmd_with_data(bus, Command::SetRamXAddressStartEndPosition, &x);
        let y = [
            (start_y % 256) as u8,
            (start_y / 256 % 256) as u8,
            (end_y % 256) as u8,
            (end_y / 256 % 256) as u8,
        ];
        self.cmd_with_data(bus, Command::SetRamYAddressStartEndPosition, &y);
        assert(x@ =~= seq![(start_x / 8 % 256) as u8, (end_x / 8 % 256) as u8]);
        assert(y@ =~= seq![
            (start_y % 256) as u8,
            (start_y / 256 % 256) as u8,
            (end_y % 256) as u8,
            (end_y / 256 % 256) as u8,
        ]);
        assert(bus@ =~= b0 + ram_area_events(start_x, start_y, end_x, end_y));
    }

    /// Sets both X and Y RAM address counters.
    fn set_ram_address_counters(&self, bus: &mut Bus, x: u32, y: u32)
        ensures
            final(bus)@ == old(bus)@ + ram_counter_events(x, y),
    {
        let ghost b0 = bus@;
        self.wait_until_idle(bus);
        let xs = [(x / 8 % 256) as u8];
        self.cmd_with_data(bus, Command::SetRamXAddressCounter, &xs);
        let ys = [(y % 256) as u8, (y / 256 % 256) as u8];
        self.cmd_with_data(bus, Command::SetRamYAddressCounter, &ys);
        assert(xs@ =~= seq![(x / 8 % 256) as u8]);
        assert(ys@ =~= seq![(y % 256) as u8, (y / 256 % 256) as u8]);
        assert(bus@ =~= b0 + ram_counter_events(x, y));
    }

    fn set_border_waveform(&self, bus: &mut Bus, borderwaveform: BorderWaveForm)
        ensures
            final(bus)@ == old(bus)@ + ev_cmd_data(
                Command::BorderWaveformControl,
                seq![borderwaveform.spec_byte()],
            ),
    {
        let bytes = [borderwaveform.to_u8()];
        assert(bytes@ =~= seq![borderwaveform.spec_byte()]);
        self.cmd_with_data(bus, Command::BorderWaveformControl, &bytes);
    }

    fn set_display_update_control(&self, bus: &mut Bus, display_update_control: DisplayUpdateControl)
        ensures
            final(bus)@ == old(bus)@ + ev_cmd_data(
                Command::DisplayUpdateControl1,
                display_update_control.spec_bytes(),
            ),
    {
        let bytes = display_update_control.to_bytes();
        self.cmd_with_data(bus, Command::DisplayUpdateControl1, &bytes);
    }

    /// Queues the initialisation sequence again, waking the panel from deep
    /// sleep.
    pub fn wake_up(&mut self, bus: &mut Bus)
        ensures
            final(bus)@ == old(bus)@ + init_events(),
            final(self).spec_background() == old(self).spec_background(),
    {
        self.init(bus);
    }

    /// Queues the deep sleep command (mode normal); no wait follows.
    pub fn sleep(&mut self, bus: &mut Bus)
        ensures
            final(bus)@ == old(bus)@ + sleep_events(),
            final(self).spec_background() == old(self).spec_background(),
    {
        self.set_sleep_mode(bus, DeepSleepMode::Normal);
    }

    /// Queues `buffer` for the achromatic plane and clears the chromatic
    /// plane to no ink. A buffer that is not exactly one plane long is
    /// refused before anything is queued.
    pub fn update_frame(&mut self, bus: &mut Bus, buffer: &[u8]) -> (r: Result<(), EpdError>)
        ensures
            buffer@.len() == PLANE_LEN ==> r is Ok && final(bus)@ == old(bus)@ + frame_events(
                buffer@,
            ),
            buffer@.len() != PLANE_LEN ==> r == Err::<(), EpdError>(EpdError::WrongBufferLength)
                && final(bus)@ == old(bus)@,
            final(self).spec_background() == old(self).spec_background(),
    {
        if buffer.len() != PLANE_LEN {
            return Err(EpdError::WrongBufferLength);
        }
        let ghost b0 = bus@;
        self.cmd_with_data(bus, Command::WriteRam, buffer);
        self.command(bus, Command::WriteRamRed);
        bus.push(BusOp::DataRepeat { value: TriColor::Black.get_byte_value(), count: PLANE_LEN as u32 });
        assert(bus@ =~= b0 + frame_events(buffer@));
        Ok(())
    }

    /// Partial updates are not supported by this panel; nothing is queued.
    pub fn update_partial_frame(
        &mut self,
        bus: &mut Bus,
        buffer: &[u8],
        x: u32,
        y: u32,
        width: u32,
        height: u32,
    ) -> (r: Result<(), EpdError>)
        ensures
            r == Err::<(), EpdError>(EpdError::Unsupported),
            final(bus)@ == old(bus)@,
            *final(self) == *old(self),
    {
        Err(EpdError::Unsupported)
    }

    /// Queues the activation of a refresh and a wait for it to finish.
    pub fn display_frame(&mut self, bus: &mut Bus)
        ensures
            final(bus)@ == old(bus)@ + display_events(),
            final(self).spec_background() == old(self).spec_background(),
    {
        let ghost b0 = bus@;
        self.command(bus, Command::MasterActivation);
        self.wait_until_idle(bus);
        assert(bus@ =~= b0 + display_events());
    }

    /// [`update_frame`](Self::update_frame), then
    /// [`display_frame`](Self::display_frame).
    pub fn update_and_display_frame(&mut self, bus: &mut Bus, buffer: &[u8]) -> (r: Result<
        (),
        EpdError,
    >)
        ensures
            buffer@.len() == PLANE_LEN ==> r is Ok && final(bus)@ == old(bus)@ + frame_events(
                buffer@,
            ) + display_events(),
            buffer@.len() != PLANE_LEN ==> r == Err::<(), EpdError>(EpdError::WrongBufferLength)
                && final(bus)@ == old(bus)@,
            final(self).spec_background() == old(self).spec_background(),
    {
        self.update_frame(bus, buffer)?;
        self.display_frame(bus);
        Ok(())
    }

    /// Queues both planes filled for the background colour.
    pub fn clear_frame(&mut self, bus: &mut Bus)
        ensures
            final(bus)@ == old(bus)@ + clear_events(old(self).spec_background()),
            final(self).spec_background() == old(self).spec_background(),
    {
        let ghost b0 = bus@;
        self.clear_achromatic_frame(bus);
        self.clear_chromatic_frame(bus);
        assert(bus@ =~= b0 + clear_events(self.background_color));
    }

    fn clear_achromatic_frame(&self, bus: &mut Bus)
        ensures
            final(bus)@ == old(bus)@ + seq![
                ev_cmd(Command::WriteRam),
                ev_fill(achromatic_fill(self.spec_background())),
            ],
    {
        let ghost b0 = bus@;
        let value: u8 = match self.background_color {
            TriColor::White => 0xFF,
            TriColor::Chromatic => 0xFF,
            TriColor::Black => 0x00,
        };
        self.command(bus, Command::WriteRam);
        bus.push(BusOp::DataRepeat { value, count: PLANE_LEN as u32 });
        assert(bus@ =~= b0 + seq![
            ev_cmd(Command::WriteRam),
            ev_fill(achromatic_fill(self.spec_background())),
        ]);
    }

    fn clear_chromatic_frame(&self, bus: &mut Bus)
        ensures
            final(bus)@ == old(bus)@ + seq![
                ev_cmd(Command::WriteRamRed),
                ev_fill(chromatic_fill(self.spec_background())),
            ],
    {
        let ghost b0 = bus@;
        let value: u8 = match self.background_color {
            TriColor::White => 0x00,
            TriColor::Chromatic => 0xFF,
            TriColor::Black => 0x00,
        };
        self.command(bus, Command::WriteRamRed);
        bus.push(BusOp::DataRepeat { value, count: PLANE_LEN as u32 });
        assert(bus@ =~= b0 + seq![
            ev_cmd(Command::WriteRamRed),
            ev_fill(chromatic_fill(self.spec_background())),
        ]);
    }

    /// Sets the colour that clearing fills with.
    pub fn set_background_color(&mut self, background_color: TriColor)
        ensures
            final(self).spec_background() == background_color,
    {
        self.background_color = background_color;
    }

    /// The colour that clearing fills with.
    pub fn background_color(&self) -> (r: &TriColor)
        ensures
            *r == self.spec_background(),
    {
        &self.background_color
    }

    /// Width of the panel in pixels.
    pub fn width(&self) -> (r: u32)
        ensures
            r == WIDTH,
    {
        WIDTH
    }

    /// Height of the panel in pixels.
    pub fn height(&self) -> (r: u32)
        ensures
            r == HEIGHT,
    {
        HEIGHT
    }

    /// Waveform table selection is not supported by this panel; nothing is
    /// queued.
    pub fn set_lut(&mut self, bus: &mut Bus, refresh_rate: Option<RefreshLut>) -> (r: Result<
        (),
        EpdError,
    >)
        ensures
            r == Err::<(), EpdError>(EpdError::Unsupported),
            final(bus)@ == old(bus)@,
            *final(self) == *old(self),
    {
        Err(EpdError::Unsupported)
    }

    /// Queues `black` for the achromatic plane and `chromatic` for the
    /// chromatic plane, each as given.
    pub fn update_color_frame(&mut self, bus: &mut Bus, black: &[u8], chromatic: &[u8])
        ensures
            final(bus)@ == old(bus)@ + ev_cmd_data(Command::WriteRam, black@) + ev_cmd_data(
                Command::WriteRamRed,
                chromatic@,
            ),
            final(self).spec_background() == old(self).spec_background(),
    {
        self.update_achromatic_frame(bus, black);
        self.update_chromatic_frame(bus, chromatic);
    }

    /// Queues `black` for the achromatic plane.
    pub fn update_achromatic_frame(&mut self, bus: &mut Bus, black: &[u8])
        ensures
            final(bus)@ == old(bus)@ + ev_cmd_data(Command::WriteRam, black@),
            final(self).spec_background() == old(self).spec_background(),
    {
        self.cmd_with_data(bus, Command::WriteRam, black);
    }

    /// Queues `chromatic` for the chromatic plane, whose set bits show as
    /// chromatic ink over the achromatic plane.
    pub fn update_chromatic_frame(&mut self, bus: &mut Bus, chromatic: &[u8])
        ensures
            final(bus)@ == old(bus)@ + ev_cmd_data(Command::WriteRamRed, chromatic@),
            final(self).spec_background() == old(self).spec_background(),
    {
        self.cmd_with_data(bus, Command::WriteRamRed, chromatic);
    }

    /// Queues the achromatic and chromatic planes from byte generators:
    /// byte `i` of each plane is what its generator returns for `i`. Each
    /// plane is queued whole; a caller that must not hold a plane in memory
    /// sends it a slice at a time through a [`GeneratedPass`](crate::GeneratedPass).
    pub fn update_color_frame_with(
        &mut self,
        bus: &mut Bus,
        black: impl Fn(usize) -> u8,
        chromatic: impl Fn(usize) -> u8,
        black_len: usize,
        chromatic_len: usize,
    )
        requires
            callable_below(black, black_len),
            callable_below(chromatic, chromatic_len),
        ensures
            final(bus)@.len() == old(bus)@.len() + 4,
            final(bus)@.take(old(bus)@.len() as int) == old(bus)@,
            plane_written_with(
                final(bus)@.subrange(old(bus)@.len() as int, old(bus)@.len() + 2int),
                Command::WriteRam,
                black,
                black_len as nat,
            ),
            plane_written_with(
                final(bus)@.skip(old(bus)@.len() + 2int),
                Command::WriteRamRed,
                chromatic,
                chromatic_len as nat,
            ),
            final(self).spec_background() == old(self).spec_background(),
    {
        self.update_achromatic_frame_with(bus, black, black_len);
        let ghost mid = bus@;
        self.update_chromatic_frame_with(bus, chromatic, chromatic_len);
        assert(bus@.subrange(old(bus)@.len() as int, old(bus)@.len() + 2int) =~= mid.skip(
            old(bus)@.len() as int,
        ));
        assert(bus@.take(old(bus)@.len() as int) =~= mid.take(old(bus)@.len() as int));
    }

    /// Queues the whole achromatic plane from a byte generator; the
    /// chromatic plane must follow. See [`GeneratedPass`](crate::GeneratedPass)
    /// for sending it a slice at a time.
    pub fn update_achromatic_frame_with(
        &mut self,
        bus: &mut Bus,
        black: impl Fn(usize) -> u8,
        len: usize,
    )
        requires
            callable_below(black, len),
        ensures
            final(bus)@.len() == old(bus)@.len() + 2,
            final(bus)@.take(old(bus)@.len() as int) == old(bus)@,
            plane_written_with(final(bus)@.skip(old(bus)@.len() as int), Command::WriteRam, black, len as nat),
            final(self).spec_background() == old(self).spec_background(),
    {
        self.command(bus, Command::WriteRam);
        self.data_with(bus, black, len);
        assert(bus@.take(old(bus)@.len() as int) =~= old(bus)@);
    }

    /// Queues the whole chromatic plane from a byte generator; this plane
    /// takes precedence over the achromatic one. See
    /// [`GeneratedPass`](crate::GeneratedPass) for sending it a slice at a
    /// time.
    pub fn update_chromatic_frame_with(
        &mut self,
        bus: &mut Bus,
        chromatic: impl Fn(usize) -> u8,
        len: usize,
    )
        requires
            callable_below(chromatic, len),
        ensures
            final(bus)@.len() == old(bus)@.len() + 2,
            final(bus)@.take(old(bus)@.len() as int) == old(bus)@,
            plane_written_with(
                final(bus)@.skip(old(bus)@.len() as int),
                Command::WriteRamRed,
                chromatic,
                len as nat,
            ),
            final(self).spec_background() == old(self).spec_background(),
    {
        self.command(bus, Command::WriteRamRed);
        self.data_with(bus, chromatic, len);
        assert(bus@.take(old(bus)@.len() as int) =~= old(bus)@);
    }

    /// Queues the `len` bytes that `f` generates, in index order.
    fn data_with(&self, bus: &mut Bus, f: impl Fn(usize) -> u8, len: usize)
        requires
            callable_below(f, len),
        ensures
            final(bus)@ == old(bus)@.push(final(bus)@.last()),
            final(bus)@.last() is Data,
            generated(f, len as nat, final(bus)@.last()->Data_0),
    {
        let d = generate_range(f, 0, len);
        assert(forall|i: int| 0 <= i < len ==> #[trigger] d@[i] == d@[0 + i]);
        bus.push(BusOp::Data(d));
    }

    /// Queues the whole achromatic plane band by band: for each band in
    /// order, `buffers` is handed a fresh white band buffer and the band,
    /// and the buffer is sent as the callback left it, or all white where
    /// it returned `LeaveDefault`. The chromatic pass must follow, as it
    /// activates the refresh. This is a [`BandPass`] run to the end with
    /// every band queued; a caller that must send each band before drawing
    /// the next drives the [`BandPass`] itself.
    pub fn update_achromatic_buffered(
        &mut self,
        bus: &mut Bus,
        buffers: impl Fn(&mut ChunkBuffer, Chunk) -> ChunkFill,
    )
        requires
            band_callable(buffers),
        ensures
            final(bus)@.len() == old(bus)@.len() + 1 + BUFFER,
            final(bus)@.take(old(bus)@.len() as int) == old(bus)@,
            final(bus)@[old(bus)@.len() as int] == ev_cmd(Command::WriteRam),
            forall|i: int|
                #![trigger final(bus)@[old(bus)@.len() + 1 + i]]
                0 <= i < BUFFER ==> final(bus)@[old(bus)@.len() + 1 + i] is Data && exists|m: &mut ChunkBuffer, fill: ChunkFill|
                    #![trigger buffers.ensures((m, chunk_at(i as nat)), fill)]
                    {
                        &&& buffers.ensures((m, chunk_at(i as nat)), fill)
                        &&& mut_ref_current(m)@ == Seq::new(CHUNK_LEN as nat, |k: int| 0xFFu8)
                        &&& mut_ref_future(m)@.len() == CHUNK_LEN
                        &&& final(bus)@[old(bus)@.len() + 1 + i] == BusEvent::Data(
                            band_payload(Plane::Achromatic, fill, mut_ref_future(m)@),
                        )
                    },
            final(self).spec_background() == old(self).spec_background(),
    {
        let ghost n = bus@.len();
        let mut pass = BandPass::start(Plane::Achromatic, bus);
        let mut i: u32 = 0;
        while i < BUFFER
            invariant
                band_callable(buffers),
                0 <= i <= BUFFER,
                pass.spec_plane() == Plane::Achromatic,
                pass.spec_sent() == i,
                bus@.len() == n + 1 + i,
                bus@.take(n as int) == old(bus)@,
                bus@[n as int] == ev_cmd(Command::WriteRam),
                n == old(bus)@.len(),
                forall|j: int|
                    #![trigger bus@[old(bus)@.len() + 1 + j]]
                    0 <= j < i ==> bus@[old(bus)@.len() + 1 + j] is Data && exists|m: &mut ChunkBuffer, fill: ChunkFill|
                        #![trigger buffers.ensures((m, chunk_at(j as nat)), fill)]
                        {
                            &&& buffers.ensures((m, chunk_at(j as nat)), fill)
                            &&& mut_ref_current(m)@ == Seq::new(CHUNK_LEN as nat, |k: int| 0xFFu8)
                            &&& mut_ref_future(m)@.len() == CHUNK_LEN
                            &&& bus@[old(bus)@.len() + 1 + j] == BusEvent::Data(
                                band_payload(Plane::Achromatic, fill, mut_ref_future(m)@),
                            )
                        },
            decreases BUFFER - i,
        {
            let chunk = pass.next_chunk().unwrap();
            let mut buffer = ChunkBuffer::new();
            let fill = buffers(&mut buffer, chunk);
            let ghost b_prev = bus@;
            pass.send_band(bus, &mut buffer, fill);
            assert(forall|j: int| 0 <= j < i ==> #[trigger] bus@[old(bus)@.len() + 1 + j] == b_prev[old(bus)@.len() + 1 + j]);
            assert(bus@.take(n as int) =~= b_prev.take(n as int));
            i = i + 1;
        }
        let ghost b_bands = bus@;
        pass.finish(bus);
        assert(bus@.take(b_bands.len() as int) =~= b_bands);
        assert(forall|j: int| 0 <= j < b_bands.len() ==> #[trigger] bus@[j] == b_bands[j]);
        assert(bus@.take(old(bus)@.len() as int) =~= b_bands.take(old(bus)@.len() as int));
    }

    /// Queues the whole chromatic plane band by band, as the achromatic
    /// pass does but with a band left alone sent all `Color::Black`, then
    /// activates the refresh and waits for it to finish. In these band
    /// buffers `Color::White` is chromatic ink and `Color::Black` none (see
    /// [`chromatic_pixel`](crate::chromatic_pixel)). A caller that must send
    /// each band before drawing the next drives a [`BandPass`] itself.
    pub fn update_chromatic_buffered(
        &mut self,
        bus: &mut Bus,
        buffers: impl Fn(&mut ChunkBuffer, Chunk) -> ChunkFill,
    )
        requires
            band_callable(buffers),
        ensures
            final(bus)@.len() == old(bus)@.len() + 3 + BUFFER,
            final(bus)@.take(old(bus)@.len() as int) == old(bus)@,
            final(bus)@[old(bus)@.len() as int] == ev_cmd(Command::WriteRamRed),
            forall|i: int|
                #![trigger final(bus)@[old(bus)@.len() + 1 + i]]
                0 <= i < BUFFER ==> final(bus)@[old(bus)@.len() + 1 + i] is Data && exists|m: &mut ChunkBuffer, fill: ChunkFill|
                    #![trigger buffers.ensures((m, chunk_at(i as nat)), fill)]
                    {
                        &&& buffers.ensures((m, chunk_at(i as nat)), fill)
                        &&& mut_ref_current(m)@ == Seq::new(CHUNK_LEN as nat, |k: int| 0xFFu8)
                        &&& mut_ref_future(m)@.len() == CHUNK_LEN
                        &&& final(bus)@[old(bus)@.len() + 1 + i] == BusEvent::Data(
                            band_payload(Plane::Chromatic, fill, mut_ref_future(m)@),
                        )
                    },
            final(bus)@.skip(old(bus)@.len() + 1 + BUFFER) == display_events(),
            final(self).spec_background() == old(self).spec_background(),
    {
        let ghost n = bus@.len();
        let mut pass = BandPass::start(Plane::Chromatic, bus);
        let mut i: u32 = 0;
        while i < BUFFER
            invariant
                band_callable(buffers),
                0 <= i <= BUFFER,
                pass.spec_plane() == Plane::Chromatic,
                pass.spec_sent() == i,
                bus@.len() == n + 1 + i,
                bus@.take(n as int) == old(bus)@,
                bus@[n as int] == ev_cmd(Command::WriteRamRed),
                n == old(bus)@.len(),
                forall|j: int|
                    #![trigger bus@[old(bus)@.len() + 1 + j]]
                    0 <= j < i ==> bus@[old(bus)@.len() + 1 + j] is Data && exists|m: &mut ChunkBuffer, fill: ChunkFill|
                        #![trigger buffers.ensures((m, chunk_at(j as nat)), fill)]
                        {
                            &&& buffers.ensures((m, chunk_at(j as nat)), fill)
                            &&& mut_ref_current(m)@ == Seq::new(CHUNK_LEN as nat, |k: int| 0xFFu8)
                            &&& mut_ref_future(m)@.len() == CHUNK_LEN
                            &&& bus@[old(bus)@.len() + 1 + j] == BusEvent::Data(
                                band_payload(Plane::Chromatic, fill, mut_ref_future(m)@),
                            )
                        },
            decreases BUFFER - i,
        {
            let chunk = pass.next_chunk().unwrap();
            let mut buffer = ChunkBuffer::new();
            let fill = buffers(&mut buffer, chunk);
            let ghost b_prev = bus@;
            pass.send_band(bus, &mut buffer, fill);
            assert(forall|j: int| 0 <= j < i ==> #[trigger] bus@[old(bus)@.len() + 1 + j] == b_prev[old(bus)@.len() + 1 + j]);
            assert(bus@.take(n as int) =~= b_prev.take(n as int));
            i = i + 1;
        }
        let ghost b_bands = bus@;
        pass.finish(bus);
        assert(bus@.take(b_bands.len() as int) =~= b_bands);
        assert(forall|j: int| 0 <= j < b_bands.len() ==> #[trigger] bus@[j] == b_bands[j]);
        assert(bus@.take(old(bus)@.len() as int) =~= b_bands.take(old(bus)@.len() as int));
    }

    /// Queues both planes band by band, then activates the refresh: the
    /// achromatic pass with `mono_buffers`, then the chromatic pass with
    /// `colored_buffers`. Every band is queued before any is sent; see
    /// [`BandPass`] for sending one band at a time.
    pub fn update_frame_buffered(
        &mut self,
        bus: &mut Bus,
        mono_buffers: impl Fn(&mut ChunkBuffer, Chunk) -> ChunkFill,
        colored_buffers: impl Fn(&mut ChunkBuffer, Chunk) -> ChunkFill,
    )
        requires
            band_callable(mono_buffers),
            band_callable(colored_buffers),
        ensures
            final(bus)@.len() == old(bus)@.len() + 4 + 2 * BUFFER,
            final(bus)@.take(old(bus)@.len() as int) == old(bus)@,
            final(bus)@[old(bus)@.len() as int] == ev_cmd(Command::WriteRam),
            forall|i: int|
                #![trigger final(bus)@[old(bus)@.len() + 1 + i]]
                0 <= i < BUFFER ==> final(bus)@[old(bus)@.len() + 1 + i] is Data && exists|m: &mut ChunkBuffer, fill: ChunkFill|
                    #![trigger mono_buffers.ensures((m, chunk_at(i as nat)), fill)]
                    {
                        &&& mono_buffers.ensures((m, chunk_at(i as nat)), fill)
                        &&& mut_ref_current(m)@ == Seq::new(CHUNK_LEN as nat, |k: int| 0xFFu8)
                        &&& mut_ref_future(m)@.len() == CHUNK_LEN
                        &&& final(bus)@[old(bus)@.len() + 1 + i] == BusEvent::Data(
                            band_payload(Plane::Achromatic, fill, mut_ref_future(m)@),
                        )
                    },
            final(bus)@[old(bus)@.len() + 1 + BUFFER] == ev_cmd(Command::WriteRamRed),
            forall|i: int|
                #![trigger final(bus)@[old(bus)@.len() + 2 + BUFFER + i]]
                0 <= i < BUFFER ==> final(bus)@[old(bus)@.len() + 2 + BUFFER + i] is Data && exists|m: &mut ChunkBuffer, fill: ChunkFill|
                    #![trigger colored_buffers.ensures((m, chunk_at(i as nat)), fill)]
                    {
                        &&& colored_buffers.ensures((m, chunk_at(i as nat)), fill)
                        &&& mut_ref_current(m)@ == Seq::new(CHUNK_LEN as nat, |k: int| 0xFFu8)
                        &&& mut_ref_future(m)@.len() == CHUNK_LEN
                        &&& final(bus)@[old(bus)@.len() + 2 + BUFFER + i] == BusEvent::Data(
                            band_payload(Plane::Chromatic, fill, mut_ref_future(m)@),
                        )
                    },
            final(bus)@.skip(old(bus)@.len() + 2 + 2 * BUFFER) == display_events(),
            final(self).spec_background() == old(self).spec_background(),
    {
        self.update_achromatic_buffered(bus, mono_buffers);
        let ghost mid = bus@;
        self.update_chromatic_buffered(bus, colored_buffers);
        assert(forall|j: int| 0 <= j < mid.len() ==> #[trigger] bus@[j] == mid[j]) by {
            assert forall|j: int| 0 <= j < mid.len() implies #[trigger] bus@[j] == mid[j] by {
                assert(bus@.take(mid.len() as int)[j] == bus@[j]);
            }
        }
        assert(bus@.take(old(bus)@.len() as int) =~= mid.take(old(bus)@.len() as int));
    }

    /// Sends the deep sleep command with the given mode.
    fn set_sleep_mode(&self, bus: &mut Bus, mode: DeepSleepMode)
        ensures
            final(bus)@ == old(bus)@ + ev_cmd_data(Command::DeepSleepMode, seq![mode.spec_byte()]),
    {
        let bytes = [mode.to_u8()];
        assert(bytes@ =~= seq![mode.spec_byte()]);
        self.cmd_with_data(bus, Command::DeepSleepMode, &bytes);
    }
}

/// Waking the panel after sleep queues, after the sleep command, exactly
/// the sequence that constructing a driver queues.
pub proof fn lemma_wake_up_repeats_init(history: Seq<BusEvent>)
    ensures
        (history + sleep_events() + init_events()).skip((history.len() + sleep_events().len()) as int)
            == (history + init_events()).skip(history.len() as int),
{
    assert((history + sleep_events() + init_events()).skip(
        (history.len() + sleep_events().len()) as int,
    ) =~= init_events());
    assert((history + init_events()).skip(history.len() as int) =~= init_events());
}

/// Clearing fills the planes by the background colour: white sets the
/// achromatic plane and clears the chromatic one, chromatic sets both, black
/// clears both.
pub proof fn lemma_clear_table()
    ensures
        clear_events(TriColor::White) == seq![
            BusEvent::Command(0x24),
            BusEvent::DataRepeat { value: 0xFF, count: 4000 },
            BusEvent::Command(0x26),
            BusEvent::DataRepeat { value: 0x00, count: 4000 },
        ],
        clear_events(TriColor::Chromatic) == seq![
            BusEvent::Command(0x24),
            BusEvent::DataRepeat { value: 0xFF, count: 4000 },
            BusEvent::Command(0x26),
            BusEvent::DataRepeat { value: 0xFF, count: 4000 },
        ],
        clear_events(TriColor::Black) == seq![
            BusEvent::Command(0x24),
            BusEvent::DataRepeat { value: 0x00, count: 4000 },
            BusEvent::Command(0x26),
            BusEvent::DataRepeat { value: 0x00, count: 4000 },
        ],
{
}

/// A full-plane update leaves the chromatic plane without ink whatever the
/// achromatic content.
pub proof fn lemma_frame_clears_chromatic(buffer: Seq<u8>)
    ensures
        frame_events(buffer).take(2) == seq![BusEvent::Command(0x24), BusEvent::Data(buffer)],
        frame_events(buffer).skip(2) == seq![
            BusEvent::Command(0x26),
            BusEvent::DataRepeat { value: 0x00, count: 4000 },
        ],
{
    assert(frame_events(buffer).take(2) =~= seq![BusEvent::Command(0x24), BusEvent::Data(buffer)]);
    assert(frame_events(buffer).skip(2) =~= seq![
        BusEvent::Command(0x26),
        BusEvent::DataRepeat { value: 0x00, count: 4000 },
    ]);
}

} // verus!
