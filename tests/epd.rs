use std::cell::RefCell;

use epd2in13b::command::{Command, DriverOutput, DisplayUpdateControl, RamOption};
use epd2in13b::{
    BandPass, GeneratedPass, Plane, buffer_len, chromatic_pixel, Bus, BusOp, Chunk, ChunkBuffer, ChunkFill, Color, Epd2in13b,
    EpdError, RefreshLut, TriColor, BUFFER, CHUNK_LEN, DEFAULT_BACKGROUND_COLOR, HEIGHT,
    PLANE_LEN, WIDTH,
};

fn data(bytes: &[u8]) -> BusOp {
    BusOp::Data(bytes.to_vec())
}

fn wait() -> BusOp {
    BusOp::WaitIdle { busy_low: true }
}

fn fill(value: u8) -> BusOp {
    BusOp::DataRepeat { value, count: 4000 }
}

fn init_sequence() -> Vec<BusOp> {
    vec![
        BusOp::Reset { initial_us: 10_000, duration_us: 10_000 },
        wait(),
        BusOp::Command(0x12),
        wait(),
        BusOp::Command(0x01),
        data(&[249, 0, 0]),
        BusOp::Command(0x11),
        data(&[0x03]),
        BusOp::Command(0x44),
        data(&[0, 15]),
        BusOp::Command(0x45),
        data(&[0, 0, 249, 0]),
        wait(),
        BusOp::Command(0x4E),
        data(&[0]),
        BusOp::Command(0x4F),
        data(&[0, 0]),
        BusOp::Command(0x3C),
        data(&[0x03]),
        BusOp::Command(0x2C),
        data(&[0x36]),
        BusOp::Command(0x03),
        data(&[0x17]),
        BusOp::Command(0x04),
        data(&[0x41, 0x00, 0x32]),
        BusOp::Command(0x21),
        data(&[0x00, 0x80]),
        wait(),
    ]
}

fn driver() -> Epd2in13b {
    let mut bus = Bus::new();
    Epd2in13b::new(&mut bus)
}

#[test]
fn epd_size() {
    assert_eq!(WIDTH, 122);
    assert_eq!(HEIGHT, 250);
    assert_eq!(DEFAULT_BACKGROUND_COLOR, TriColor::White);
}

#[test]
fn plane_and_band_lengths() {
    assert_eq!(buffer_len(WIDTH as usize, HEIGHT as usize), 4000);
    assert_eq!(PLANE_LEN, 4000);
    assert_eq!(buffer_len(WIDTH as usize, 63), CHUNK_LEN);
    assert_eq!(buffer_len(8, 2), 2);
    assert_eq!(buffer_len(9, 2), 4);
    let epd = driver();
    assert_eq!(epd.width(), 122);
    assert_eq!(epd.height(), 250);
    assert_eq!(*epd.background_color(), TriColor::White);
}

#[test]
fn construction_queues_init_sequence() {
    let mut bus = Bus::new();
    let _epd = Epd2in13b::new(&mut bus);
    assert_eq!(bus.into_ops(), init_sequence());
}

#[test]
fn chunk_round_trip() {
    for i in 0..BUFFER {
        assert_eq!(Chunk::from_zero_indexed(i).to_zero_indexed(), i);
    }
    for c in [Chunk::Buf1, Chunk::Buf2, Chunk::Buf3, Chunk::Buf4] {
        assert_eq!(Chunk::from_zero_indexed(c.to_zero_indexed()), c);
    }
    assert_eq!(Chunk::Buf3.to_zero_indexed(), 2);
}

#[test]
fn clear_frame_white() {
    let mut epd = driver();
    let mut bus = Bus::new();
    epd.clear_frame(&mut bus);
    assert_eq!(
        bus.into_ops(),
        vec![BusOp::Command(0x24), fill(0xFF), BusOp::Command(0x26), fill(0x00)]
    );
}

#[test]
fn clear_frame_chromatic() {
    let mut epd = driver();
    epd.set_background_color(TriColor::Chromatic);
    let mut bus = Bus::new();
    epd.clear_frame(&mut bus);
    assert_eq!(
        bus.into_ops(),
        vec![BusOp::Command(0x24), fill(0xFF), BusOp::Command(0x26), fill(0xFF)]
    );
}

#[test]
fn clear_frame_black() {
    let mut epd = driver();
    epd.set_background_color(TriColor::Black);
    assert_eq!(*epd.background_color(), TriColor::Black);
    let mut bus = Bus::new();
    epd.clear_frame(&mut bus);
    assert_eq!(
        bus.into_ops(),
        vec![BusOp::Command(0x24), fill(0x00), BusOp::Command(0x26), fill(0x00)]
    );
}

#[test]
fn update_frame_full_plane() {
    let mut epd = driver();
    let buffer: Vec<u8> = (0..4000).map(|i| (i % 251) as u8).collect();
    let mut bus = Bus::new();
    assert_eq!(epd.update_frame(&mut bus, &buffer), Ok(()));
    assert_eq!(
        bus.into_ops(),
        vec![BusOp::Command(0x24), data(&buffer), BusOp::Command(0x26), fill(0x00)]
    );
}

#[test]
fn update_frame_wrong_length_queues_nothing() {
    let mut epd = driver();
    for len in [0usize, 3999, 4001, 8000] {
        let buffer = vec![0xAAu8; len];
        let mut bus = Bus::new();
        assert_eq!(epd.update_frame(&mut bus, &buffer), Err(EpdError::WrongBufferLength));
        assert_eq!(bus.len(), 0);
        assert_eq!(
            epd.update_and_display_frame(&mut bus, &buffer),
            Err(EpdError::WrongBufferLength)
        );
        assert_eq!(bus.len(), 0);
    }
}

#[test]
fn update_and_display_frame_activates() {
    let mut epd = driver();
    let buffer = vec![0x0Fu8; 4000];
    let mut bus = Bus::new();
    assert_eq!(epd.update_and_display_frame(&mut bus, &buffer), Ok(()));
    assert_eq!(
        bus.into_ops(),
        vec![
            BusOp::Command(0x24),
            data(&buffer),
            BusOp::Command(0x26),
            fill(0x00),
            BusOp::Command(0x20),
            wait(),
        ]
    );
}

#[test]
fn display_frame_activates_once() {
    let mut epd = driver();
    let mut bus = Bus::new();
    epd.display_frame(&mut bus);
    assert_eq!(bus.into_ops(), vec![BusOp::Command(0x20), wait()]);
}

#[test]
fn unsupported_operations() {
    let mut epd = driver();
    let mut bus = Bus::new();
    assert_eq!(
        epd.update_partial_frame(&mut bus, &[0u8; 16], 0, 0, 8, 8),
        Err(EpdError::Unsupported)
    );
    assert_eq!(epd.set_lut(&mut bus, Some(RefreshLut::Quick)), Err(EpdError::Unsupported));
    assert_eq!(epd.set_lut(&mut bus, None), Err(EpdError::Unsupported));
    assert_eq!(bus.len(), 0);
}

#[test]
fn sleep_then_wake_up_repeats_init() {
    let mut epd = driver();
    let mut bus = Bus::new();
    epd.sleep(&mut bus);
    epd.wake_up(&mut bus);
    let mut expected = vec![BusOp::Command(0x10), data(&[0x00])];
    expected.extend(init_sequence());
    assert_eq!(bus.into_ops(), expected);
}

#[test]
fn color_frame_end_to_end() {
    let mut bus = Bus::new();
    let mut epd = Epd2in13b::new(&mut bus);
    let init_len = bus.len();
    let black = [0x00u8; 4000];
    let chromatic = [0xFFu8; 4000];
    epd.update_color_frame(&mut bus, &black, &chromatic);
    epd.display_frame(&mut bus);
    let ops = bus.into_ops();
    assert_eq!(
        &ops[init_len..],
        &[
            BusOp::Command(0x24),
            data(&black),
            BusOp::Command(0x26),
            data(&chromatic),
            BusOp::Command(0x20),
            wait(),
        ][..]
    );
}

#[test]
fn single_plane_updates() {
    let mut epd = driver();
    let mut bus = Bus::new();
    epd.update_achromatic_frame(&mut bus, &[1, 2, 3]);
    epd.update_chromatic_frame(&mut bus, &[4, 5]);
    assert_eq!(
        bus.into_ops(),
        vec![BusOp::Command(0x24), data(&[1, 2, 3]), BusOp::Command(0x26), data(&[4, 5])]
    );
}

#[test]
fn generator_frames_stream_each_index() {
    let mut epd = driver();
    let mut bus = Bus::new();
    epd.update_color_frame_with(&mut bus, |i| i as u8, |i| (i * 2) as u8, 5, 3);
    assert_eq!(
        bus.into_ops(),
        vec![
            BusOp::Command(0x24),
            data(&[0, 1, 2, 3, 4]),
            BusOp::Command(0x26),
            data(&[0, 2, 4]),
        ]
    );
    let mut bus = Bus::new();
    epd.update_achromatic_frame_with(&mut bus, |_| 0x55, 0);
    epd.update_chromatic_frame_with(&mut bus, |i| 0x10 + i as u8, 2);
    assert_eq!(
        bus.into_ops(),
        vec![BusOp::Command(0x24), data(&[]), BusOp::Command(0x26), data(&[0x10, 0x11])]
    );
}

#[test]
fn buffered_callbacks_in_band_order() {
    let mut epd = driver();
    let mut bus = Bus::new();
    let seen = RefCell::new(Vec::new());
    epd.update_frame_buffered(
        &mut bus,
        |_buf: &mut ChunkBuffer, c: Chunk| {
            seen.borrow_mut().push(("mono", c));
            ChunkFill::Populated
        },
        |_buf: &mut ChunkBuffer, c: Chunk| {
            seen.borrow_mut().push(("colored", c));
            ChunkFill::Populated
        },
    );
    let order = [Chunk::Buf1, Chunk::Buf2, Chunk::Buf3, Chunk::Buf4];
    let mut expected = Vec::new();
    for c in order {
        expected.push(("mono", c));
    }
    for c in order {
        expected.push(("colored", c));
    }
    assert_eq!(seen.into_inner(), expected);
    let ops = bus.into_ops();
    assert_eq!(ops.len(), 12);
    assert_eq!(ops[0], BusOp::Command(0x24));
    assert_eq!(ops[5], BusOp::Command(0x26));
    assert_eq!(ops[10], BusOp::Command(0x20));
    assert_eq!(ops[11], wait());
}

#[test]
fn buffered_leave_default_fills() {
    let mut epd = driver();
    let mut bus = Bus::new();
    // Draws a black band into every band buffer but the third, which is left alone.
    let draw = |buf: &mut ChunkBuffer, c: Chunk| {
        if c == Chunk::Buf3 {
            ChunkFill::LeaveDefault
        } else {
            buf.clear(Color::Black);
            buf.set_pixel(0, 0, Color::White);
            ChunkFill::Populated
        }
    };
    epd.update_achromatic_buffered(&mut bus, draw);
    epd.update_chromatic_buffered(&mut bus, draw);
    let ops = bus.into_ops();
    let mut drawn = vec![0x00u8; CHUNK_LEN];
    drawn[0] = 0x80;
    assert_eq!(ops[1], data(&drawn));
    assert_eq!(ops[3], data(&vec![0xFFu8; CHUNK_LEN]));
    assert_eq!(ops[4], data(&drawn));
    assert_eq!(ops[6], data(&drawn));
    assert_eq!(ops[8], data(&vec![0x00u8; CHUNK_LEN]));
    assert_eq!(ops[10], BusOp::Command(0x20));
}

#[test]
fn buffered_untouched_band_is_sent_fresh() {
    let mut epd = driver();
    let mut bus = Bus::new();
    epd.update_chromatic_buffered(&mut bus, |_b: &mut ChunkBuffer, _c: Chunk| ChunkFill::Populated);
    let ops = bus.into_ops();
    assert_eq!(ops[1], data(&vec![0xFFu8; CHUNK_LEN]));
}

#[test]
fn band_buffer_pixels() {
    let mut b = ChunkBuffer::new();
    assert_eq!(b.buffer().len(), 1008);
    assert_eq!(b.pixel(5, 5), Color::White);
    b.set_pixel(9, 1, Color::Black);
    assert_eq!(b.pixel(9, 1), Color::Black);
    assert_eq!(b.buffer()[16 + 1], 0xBF);
    b.set_pixel(122, 0, Color::Black);
    b.set_pixel(0, 63, Color::Black);
    assert_eq!(b.buffer().iter().filter(|&&x| x != 0xFF).count(), 1);
    b.clear(Color::Black);
    assert!(b.buffer().iter().all(|&x| x == 0));
    b.set_pixel(121, 62, Color::White);
    assert_eq!(b.buffer()[62 * 16 + 15], 0x40);
}

#[test]
fn chromatic_band_colours_are_inverted() {
    assert_eq!(chromatic_pixel(TriColor::Chromatic), Color::White);
    assert_eq!(chromatic_pixel(TriColor::Black), Color::Black);
    assert_eq!(chromatic_pixel(TriColor::White), Color::Black);
}

#[test]
fn colour_bytes() {
    assert_eq!(Color::Black.get_byte_value(), 0x00);
    assert_eq!(Color::White.get_byte_value(), 0xFF);
    assert_eq!(TriColor::Black.get_byte_value(), 0x00);
    assert_eq!(TriColor::White.get_byte_value(), 0xFF);
    assert_eq!(TriColor::Chromatic.get_byte_value(), 0xFF);
}

#[test]
fn command_codec() {
    assert_eq!(Command::WriteRam.address(), 0x24);
    assert_eq!(Command::WriteRamRed.address(), 0x26);
    assert_eq!(Command::MasterActivation.address(), 0x20);
    let out = DriverOutput {
        scan_is_linear: false,
        scan_g0_is_first: true,
        scan_dir_incr: false,
        width: 0x1F9,
    };
    assert_eq!(out.to_bytes(), [0xF9, 0x01, 0x05]);
    let duc = DisplayUpdateControl {
        red_ram_option: RamOption::Inverse,
        bw_ram_option: RamOption::Bypass,
        source_output_mode: false,
    };
    assert_eq!(duc.to_bytes(), [0x84, 0x00]);
}

#[test]
fn band_pass_steps_one_band_at_a_time() {
    let mut bus = Bus::new();
    let mut pass = BandPass::start(Plane::Chromatic, &mut bus);
    assert_eq!(bus.into_ops(), vec![BusOp::Command(0x26)]);
    let mut seen = Vec::new();
    while let Some(chunk) = pass.next_chunk() {
        seen.push(chunk);
        let mut buffer = ChunkBuffer::new();
        let fill = if chunk == Chunk::Buf2 {
            ChunkFill::LeaveDefault
        } else {
            buffer.set_pixel(8, 0, Color::Black);
            ChunkFill::Populated
        };
        let mut bus = Bus::new();
        pass.send_band(&mut bus, &mut buffer, fill);
        let ops = bus.into_ops();
        assert_eq!(ops.len(), 1);
        if chunk == Chunk::Buf2 {
            assert_eq!(ops[0], data(&vec![0x00u8; CHUNK_LEN]));
        } else {
            let mut drawn = vec![0xFFu8; CHUNK_LEN];
            drawn[1] = 0x7F;
            assert_eq!(ops[0], data(&drawn));
        }
    }
    assert_eq!(seen, vec![Chunk::Buf1, Chunk::Buf2, Chunk::Buf3, Chunk::Buf4]);
    let mut bus = Bus::new();
    pass.finish(&mut bus);
    assert_eq!(bus.into_ops(), vec![BusOp::Command(0x20), wait()]);
}

#[test]
fn achromatic_band_pass_blank_is_white_and_ends_quietly() {
    let mut bus = Bus::new();
    let mut pass = BandPass::start(Plane::Achromatic, &mut bus);
    while pass.next_chunk().is_some() {
        let mut buffer = ChunkBuffer::new();
        buffer.clear(Color::Black);
        pass.send_band(&mut bus, &mut buffer, ChunkFill::LeaveDefault);
    }
    pass.finish(&mut bus);
    let ops = bus.into_ops();
    assert_eq!(ops.len(), 5);
    assert_eq!(ops[0], BusOp::Command(0x24));
    for op in &ops[1..] {
        assert_eq!(*op, data(&vec![0xFFu8; CHUNK_LEN]));
    }
}

#[test]
fn generated_pass_sends_bounded_slices() {
    let mut bus = Bus::new();
    let mut pass = GeneratedPass::start(Plane::Achromatic, 10, &mut bus);
    assert_eq!(bus.into_ops(), vec![BusOp::Command(0x24)]);
    let mut slices = Vec::new();
    while !pass.is_done() {
        let mut bus = Bus::new();
        pass.send_next(&mut bus, |i| (i * 3) as u8, 4);
        slices.extend(bus.into_ops());
    }
    assert_eq!(
        slices,
        vec![data(&[0, 3, 6, 9]), data(&[12, 15, 18, 21]), data(&[24, 27])]
    );
    let pass = GeneratedPass::start(Plane::Chromatic, 0, &mut Bus::new());
    assert!(pass.is_done());
}
