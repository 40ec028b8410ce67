use std::cell::RefCell;
use std::rc::Rc;

use sh1106::Color;
use sh1106::DisplayInterface;
use sh1106::DisplayProperties;
use sh1106::DisplayRotation;
use sh1106::DisplaySize;
use sh1106::GraphicsMode;
use sh1106::Pixel;
use sh1106::BUFFER_SIZE;

#[derive(Clone, Debug, PartialEq)]
enum Sent {
    Init,
    Rotation(DisplayRotation),
    Window((u8, u8), (u8, u8)),
    Data(Vec<u8>),
}

/// A transport that writes down what it is asked, and fails the request
/// whose number, counted from 1, is `fail_at`.
struct Recorder {
    log: Rc<RefCell<Vec<Sent>>>,
    fail_at: Option<usize>,
}

impl Recorder {
    fn note(&mut self, sent: Sent) -> Result<(), usize> {
        let mut log = self.log.borrow_mut();
        log.push(sent);
        if self.fail_at == Some(log.len()) {
            Err(log.len())
        } else {
            Ok(())
        }
    }
}

impl DisplayInterface for Recorder {
    type Error = usize;

    fn init_column_mode(&mut self) -> Result<(), usize> {
        self.note(Sent::Init)
    }

    fn set_rotation(&mut self, rotation: DisplayRotation) -> Result<(), usize> {
        self.note(Sent::Rotation(rotation))
    }

    fn set_draw_area(&mut self, start: (u8, u8), end: (u8, u8)) -> Result<(), usize> {
        self.note(Sent::Window(start, end))
    }

    fn draw(&mut self, buffer: &[u8]) -> Result<(), usize> {
        self.note(Sent::Data(buffer.to_vec()))
    }
}

type Log = Rc<RefCell<Vec<Sent>>>;

fn display_failing(
    width: u8,
    height: u8,
    offset: u8,
    rotation: DisplayRotation,
    fail_at: Option<usize>,
) -> (GraphicsMode<Recorder>, Log) {
    let log = Rc::new(RefCell::new(Vec::new()));
    let size = DisplaySize::new(width, height, offset).unwrap();
    let recorder = Recorder { log: log.clone(), fail_at };
    (GraphicsMode::new(DisplayProperties::new(recorder, size, rotation)), log)
}

fn display(
    width: u8,
    height: u8,
    offset: u8,
    rotation: DisplayRotation,
) -> (GraphicsMode<Recorder>, Log) {
    display_failing(width, height, offset, rotation, None)
}

/// Flushes and gives the bytes of the data write.
fn flushed_bytes(mode: &mut GraphicsMode<Recorder>, log: &Log) -> Vec<u8> {
    assert_eq!(mode.flush(), Ok(()));
    match log.borrow().last() {
        Some(Sent::Data(bytes)) => bytes.clone(),
        other => panic!("no data write at the end: {:?}", other),
    }
}

fn bytes_with(length: usize, set: &[(usize, u8)]) -> Vec<u8> {
    let mut bytes = vec![0u8; length];
    for (index, byte) in set {
        bytes[*index] = *byte;
    }
    bytes
}

fn pixel(x: i32, y: i32, color: Color) -> Pixel {
    Pixel { x, y, color }
}

#[test]
fn buffer_size_is_that_of_the_largest_panel() {
    assert_eq!(BUFFER_SIZE, 1056);
}

#[test]
fn new_mode_is_blank() {
    let (mut mode, log) = display(132, 64, 0, DisplayRotation::Rotate0);
    assert_eq!(flushed_bytes(&mut mode, &log), vec![0u8; 1056]);
}

#[test]
fn set_pixel_5_3_sets_bit_3_of_byte_5() {
    let (mut mode, log) = display(128, 64, 2, DisplayRotation::Rotate0);
    mode.set_pixel(5, 3, 1);
    assert_eq!(flushed_bytes(&mut mode, &log), bytes_with(1024, &[(5, 0x08)]));
}

#[test]
fn set_pixel_on_then_off_reads_back() {
    let (mut mode, log) = display(128, 64, 2, DisplayRotation::Rotate0);
    mode.set_pixel(17, 42, 1);
    // page 5, column 17, bit 2
    assert_eq!(flushed_bytes(&mut mode, &log), bytes_with(1024, &[(5 * 128 + 17, 0x04)]));
    mode.set_pixel(17, 42, 0);
    assert_eq!(flushed_bytes(&mut mode, &log), vec![0u8; 1024]);
}

#[test]
fn any_non_zero_value_is_on() {
    let (mut mode, log) = display(128, 64, 2, DisplayRotation::Rotate0);
    mode.set_pixel(0, 0, 0x80);
    mode.set_pixel(1, 7, 255);
    assert_eq!(flushed_bytes(&mut mode, &log), bytes_with(1024, &[(0, 0x01), (1, 0x80)]));
}

#[test]
fn set_pixel_leaves_the_other_bits_of_the_byte() {
    let (mut mode, log) = display(128, 64, 2, DisplayRotation::Rotate0);
    for y in 8..16 {
        mode.set_pixel(9, y, 1);
    }
    assert_eq!(flushed_bytes(&mut mode, &log), bytes_with(1024, &[(128 + 9, 0xff)]));
    mode.set_pixel(9, 11, 0);
    assert_eq!(flushed_bytes(&mut mode, &log), bytes_with(1024, &[(128 + 9, 0xf7)]));
    mode.set_pixel(9, 11, 0);
    assert_eq!(flushed_bytes(&mut mode, &log), bytes_with(1024, &[(128 + 9, 0xf7)]));
    mode.set_pixel(9, 11, 1);
    mode.set_pixel(9, 15, 1);
    assert_eq!(flushed_bytes(&mut mode, &log), bytes_with(1024, &[(128 + 9, 0xff)]));
}

#[test]
fn set_pixel_leaves_the_neighbouring_bytes() {
    let (mut mode, log) = display(128, 64, 2, DisplayRotation::Rotate0);
    mode.set_pixel(3, 20, 1);
    mode.set_pixel(4, 20, 1);
    mode.set_pixel(5, 20, 1);
    mode.set_pixel(4, 20, 0);
    let at = 2 * 128;
    assert_eq!(flushed_bytes(&mut mode, &log), bytes_with(1024, &[(at + 3, 0x10), (at + 5, 0x10)]));
}

#[test]
fn set_pixel_past_the_last_column_does_nothing() {
    let (mut mode, log) = display(128, 64, 2, DisplayRotation::Rotate0);
    mode.set_pixel(128, 0, 1);
    mode.set_pixel(131, 63, 1);
    mode.set_pixel(u32::MAX, 5, 1);
    assert_eq!(flushed_bytes(&mut mode, &log), vec![0u8; 1024]);
}

#[test]
fn set_pixel_past_the_buffer_does_nothing() {
    let (mut mode, log) = display(132, 64, 0, DisplayRotation::Rotate0);
    mode.set_pixel(0, 64, 1);
    mode.set_pixel(131, 64, 1);
    mode.set_pixel(7, 1000, 1);
    mode.set_pixel(7, u32::MAX, 1);
    assert_eq!(flushed_bytes(&mut mode, &log), vec![0u8; 1056]);
}

#[test]
fn pixel_below_a_narrow_panel_is_kept_but_never_shown() {
    // Row 64 of a panel 128 wide falls into byte 1024 of the buffer, which
    // exists but lies past the 1024 bytes that such a panel shows.
    let (mut mode, log) = display(128, 64, 2, DisplayRotation::Rotate0);
    mode.set_pixel(0, 64, 1);
    assert_eq!(flushed_bytes(&mut mode, &log), vec![0u8; 1024]);
    let properties = mode.release();
    assert_eq!(properties.get_size().dimensions(), (128, 64));
}

#[test]
fn quarter_turn_packs_x_and_bounds_y_by_the_width() {
    let (mut mode, log) = display(128, 64, 2, DisplayRotation::Rotate90);
    mode.set_pixel(3, 5, 1);
    // page 0, column 5, bit 3
    assert_eq!(flushed_bytes(&mut mode, &log), bytes_with(1024, &[(5, 0x08)]));
    mode.set_pixel(20, 127, 1);
    // page 2, column 127, bit 4
    assert_eq!(
        flushed_bytes(&mut mode, &log),
        bytes_with(1024, &[(5, 0x08), (2 * 128 + 127, 0x10)])
    );
    mode.set_pixel(20, 128, 1);
    mode.set_pixel(0, 200, 1);
    assert_eq!(
        flushed_bytes(&mut mode, &log),
        bytes_with(1024, &[(5, 0x08), (2 * 128 + 127, 0x10)])
    );
}

#[test]
fn rotate_270_addresses_as_rotate_90() {
    let (mut quarter, quarter_log) = display(128, 64, 2, DisplayRotation::Rotate90);
    let (mut three_quarters, three_quarters_log) = display(128, 64, 2, DisplayRotation::Rotate270);
    for (x, y) in [(0u32, 0u32), (63, 127), (8, 1), (70, 3), (5, 128)] {
        quarter.set_pixel(x, y, 1);
        three_quarters.set_pixel(x, y, 1);
    }
    assert_eq!(
        flushed_bytes(&mut quarter, &quarter_log),
        flushed_bytes(&mut three_quarters, &three_quarters_log)
    );
}

#[test]
fn rotate_180_addresses_as_rotate_0() {
    let (mut upright, upright_log) = display(128, 64, 2, DisplayRotation::Rotate0);
    let (mut half, half_log) = display(128, 64, 2, DisplayRotation::Rotate180);
    for (x, y) in [(0u32, 0u32), (127, 63), (8, 1), (70, 3), (128, 5)] {
        upright.set_pixel(x, y, 1);
        half.set_pixel(x, y, 1);
    }
    let bytes = flushed_bytes(&mut upright, &upright_log);
    assert_eq!(bytes, flushed_bytes(&mut half, &half_log));
    assert_eq!(bytes, bytes_with(1024, &[(0, 0x01), (7 * 128 + 127, 0x80), (8, 0x02), (70, 0x08)]));
}

#[test]
fn point_a_b_upright_is_point_b_a_after_a_quarter_turn() {
    let points = [(0u32, 0u32), (5, 3), (127, 63), (100, 9), (31, 64), (130, 2), (2, 130), (64, 64)];
    for (a, b) in points {
        let (mut upright, upright_log) = display(132, 64, 0, DisplayRotation::Rotate0);
        let (mut turned, turned_log) = display(132, 64, 0, DisplayRotation::Rotate90);
        upright.set_pixel(a, b, 1);
        turned.set_pixel(b, a, 1);
        assert_eq!(
            flushed_bytes(&mut upright, &upright_log),
            flushed_bytes(&mut turned, &turned_log)
        );
    }
}

#[test]
fn rotating_keeps_the_buffer() {
    let (mut mode, log) = display(128, 64, 2, DisplayRotation::Rotate0);
    mode.set_pixel(5, 3, 1);
    assert_eq!(mode.set_rotation(DisplayRotation::Rotate90), Ok(()));
    assert_eq!(flushed_bytes(&mut mode, &log), bytes_with(1024, &[(5, 0x08)]));
    // Under the new rotation the same bit is the pixel at (3, 5).
    mode.set_pixel(3, 5, 0);
    assert_eq!(flushed_bytes(&mut mode, &log), vec![0u8; 1024]);
}

#[test]
fn clear_blanks_whatever_was_there() {
    let (mut mode, log) = display(132, 64, 0, DisplayRotation::Rotate0);
    for x in 0..132 {
        for y in 0..64 {
            mode.set_pixel(x, y, 1);
        }
    }
    assert_eq!(flushed_bytes(&mut mode, &log), vec![0xffu8; 1056]);
    mode.clear();
    assert_eq!(flushed_bytes(&mut mode, &log), vec![0u8; 1056]);
    mode.clear();
    assert_eq!(flushed_bytes(&mut mode, &log), vec![0u8; 1056]);
}

#[test]
fn clear_asks_nothing_of_the_transport() {
    let (mut mode, log) = display(128, 64, 2, DisplayRotation::Rotate0);
    mode.set_pixel(1, 1, 1);
    mode.clear();
    assert!(log.borrow().is_empty());
}

#[test]
fn flush_programs_the_window_and_then_writes() {
    let (mut mode, log) = display(128, 64, 2, DisplayRotation::Rotate0);
    mode.set_pixel(127, 63, 1);
    assert_eq!(mode.flush(), Ok(()));
    assert_eq!(
        *log.borrow(),
        vec![
            Sent::Window((2, 0), (130, 64)),
            Sent::Data(bytes_with(1024, &[(1023, 0x80)])),
        ]
    );
}

#[test]
fn flush_writes_an_eighth_of_width_times_height() {
    for (width, height, offset, length) in [
        (128u8, 64u8, 2u8, 1024usize),
        (128, 32, 2, 512),
        (132, 64, 0, 1056),
        (128, 64, 0, 1024),
        (96, 16, 18, 192),
        (100, 12, 0, 150),
        (0, 64, 0, 0),
        (64, 0, 3, 0),
    ] {
        let (mut mode, log) = display(width, height, offset, DisplayRotation::Rotate0);
        assert_eq!(mode.flush(), Ok(()));
        assert_eq!(
            *log.borrow(),
            vec![
                Sent::Window((offset, 0), (offset + width, height)),
                Sent::Data(vec![0u8; length]),
            ]
        );
    }
}

#[test]
fn flush_window_is_that_of_the_panel_under_every_rotation() {
    for rotation in [
        DisplayRotation::Rotate0,
        DisplayRotation::Rotate90,
        DisplayRotation::Rotate180,
        DisplayRotation::Rotate270,
    ] {
        let (mut mode, log) = display(128, 32, 2, rotation);
        assert_eq!(mode.flush(), Ok(()));
        assert_eq!(
            *log.borrow(),
            vec![Sent::Window((2, 0), (130, 32)), Sent::Data(vec![0u8; 512])]
        );
    }
}

#[test]
fn flush_twice_writes_the_same_bytes() {
    let (mut mode, log) = display(128, 64, 2, DisplayRotation::Rotate0);
    mode.set_pixel(5, 3, 1);
    mode.set_pixel(64, 32, 1);
    assert_eq!(mode.flush(), Ok(()));
    assert_eq!(mode.flush(), Ok(()));
    let log = log.borrow();
    assert_eq!(log.len(), 4);
    assert_eq!(log[0], Sent::Window((2, 0), (130, 64)));
    assert_eq!(log[1], Sent::Data(bytes_with(1024, &[(5, 0x08), (4 * 128 + 64, 0x01)])));
    assert_eq!(log[2], log[0]);
    assert_eq!(log[3], log[1]);
}

#[test]
fn flush_stops_when_the_window_fails() {
    let (mut mode, log) = display_failing(128, 64, 2, DisplayRotation::Rotate0, Some(1));
    assert_eq!(mode.flush(), Err(1));
    assert_eq!(*log.borrow(), vec![Sent::Window((2, 0), (130, 64))]);
}

#[test]
fn flush_hands_on_the_error_of_the_data_write() {
    let (mut mode, log) = display_failing(128, 64, 2, DisplayRotation::Rotate0, Some(2));
    mode.set_pixel(0, 0, 1);
    assert_eq!(mode.flush(), Err(2));
    assert_eq!(
        *log.borrow(),
        vec![Sent::Window((2, 0), (130, 64)), Sent::Data(bytes_with(1024, &[(0, 0x01)]))]
    );
    // The buffer is as it was: the next flush writes the same bytes.
    assert_eq!(flushed_bytes(&mut mode, &log), bytes_with(1024, &[(0, 0x01)]));
}

#[test]
fn init_programs_column_mode() {
    let (mut mode, log) = display(128, 64, 2, DisplayRotation::Rotate0);
    assert_eq!(mode.init(), Ok(()));
    assert_eq!(*log.borrow(), vec![Sent::Init]);
}

#[test]
fn init_hands_on_the_error() {
    let (mut mode, log) = display_failing(128, 64, 2, DisplayRotation::Rotate0, Some(1));
    mode.set_pixel(2, 2, 1);
    assert_eq!(mode.init(), Err(1));
    assert_eq!(*log.borrow(), vec![Sent::Init]);
    assert_eq!(flushed_bytes(&mut mode, &log), bytes_with(1024, &[(2, 0x04)]));
}

#[test]
fn get_dimensions_follows_the_rotation() {
    let (mode, _) = display(128, 64, 2, DisplayRotation::Rotate0);
    assert_eq!(mode.get_dimensions(), (128, 64));
    let (mode, _) = display(128, 64, 2, DisplayRotation::Rotate90);
    assert_eq!(mode.get_dimensions(), (64, 128));
    let (mode, _) = display(128, 32, 2, DisplayRotation::Rotate180);
    assert_eq!(mode.get_dimensions(), (128, 32));
    let (mode, _) = display(132, 64, 0, DisplayRotation::Rotate270);
    assert_eq!(mode.get_dimensions(), (64, 132));
}

#[test]
fn set_rotation_tells_the_transport() {
    let (mut mode, log) = display(128, 64, 2, DisplayRotation::Rotate0);
    assert_eq!(mode.set_rotation(DisplayRotation::Rotate270), Ok(()));
    assert_eq!(mode.get_dimensions(), (64, 128));
    assert_eq!(mode.set_rotation(DisplayRotation::Rotate180), Ok(()));
    assert_eq!(mode.get_dimensions(), (128, 64));
    assert_eq!(
        *log.borrow(),
        vec![
            Sent::Rotation(DisplayRotation::Rotate270),
            Sent::Rotation(DisplayRotation::Rotate180),
        ]
    );
}

#[test]
fn set_rotation_holds_even_if_the_transport_fails() {
    let (mut mode, log) = display_failing(128, 64, 2, DisplayRotation::Rotate0, Some(1));
    assert_eq!(mode.set_rotation(DisplayRotation::Rotate90), Err(1));
    assert_eq!(*log.borrow(), vec![Sent::Rotation(DisplayRotation::Rotate90)]);
    assert_eq!(mode.get_dimensions(), (64, 128));
    mode.set_pixel(3, 5, 1);
    assert_eq!(flushed_bytes(&mut mode, &log), bytes_with(1024, &[(5, 0x08)]));
}

#[test]
fn release_hands_the_properties_back() {
    let (mut mode, log) = display(128, 32, 2, DisplayRotation::Rotate0);
    assert_eq!(mode.set_rotation(DisplayRotation::Rotate90), Ok(()));
    let mut properties = mode.release();
    assert_eq!(properties.get_size().dimensions(), (128, 32));
    assert_eq!(properties.get_size().column_offset(), 2);
    assert_eq!(properties.get_rotation(), DisplayRotation::Rotate90);
    assert_eq!(properties.get_dimensions(), (32, 128));
    assert_eq!(properties.set_draw_area((1, 2), (3, 4)), Ok(()));
    assert_eq!(properties.draw(&[9, 8, 7]), Ok(()));
    assert_eq!(properties.init_column_mode(), Ok(()));
    assert_eq!(
        *log.borrow(),
        vec![
            Sent::Rotation(DisplayRotation::Rotate90),
            Sent::Window((1, 2), (3, 4)),
            Sent::Data(vec![9, 8, 7]),
            Sent::Init,
        ]
    );
    // A new mode on the same display starts from a blank buffer.
    let mut mode = GraphicsMode::new(properties);
    assert_eq!(flushed_bytes(&mut mode, &log), vec![0u8; 512]);
}

#[test]
fn draw_pixel_switches_on_and_off() {
    let (mut mode, log) = display(128, 64, 2, DisplayRotation::Rotate0);
    mode.draw_pixel(pixel(5, 3, Color::On));
    mode.draw_pixel(pixel(5, 4, Color::On));
    assert_eq!(flushed_bytes(&mut mode, &log), bytes_with(1024, &[(5, 0x18)]));
    mode.draw_pixel(pixel(5, 3, Color::Off));
    assert_eq!(flushed_bytes(&mut mode, &log), bytes_with(1024, &[(5, 0x10)]));
}

#[test]
fn draw_drops_pixels_with_a_negative_coordinate() {
    let (mut mode, log) = display(128, 64, 2, DisplayRotation::Rotate0);
    mode.draw(&[
        pixel(-1, 0, Color::On),
        pixel(0, -1, Color::On),
        pixel(-1, -1, Color::On),
        pixel(i32::MIN, 5, Color::On),
        pixel(5, i32::MIN, Color::On),
    ]);
    assert_eq!(flushed_bytes(&mut mode, &log), vec![0u8; 1024]);
}

#[test]
fn draw_drops_pixels_beyond_the_panel() {
    let (mut mode, log) = display(132, 64, 0, DisplayRotation::Rotate0);
    mode.draw(&[
        pixel(132, 0, Color::On),
        pixel(0, 64, Color::On),
        pixel(i32::MAX, 0, Color::On),
        pixel(0, i32::MAX, Color::On),
        pixel(i32::MAX, i32::MAX, Color::On),
    ]);
    assert_eq!(flushed_bytes(&mut mode, &log), vec![0u8; 1056]);
}

#[test]
fn draw_applies_pixels_in_order() {
    let (mut mode, log) = display(128, 64, 2, DisplayRotation::Rotate0);
    mode.draw(&[
        pixel(1, 1, Color::On),
        pixel(2, 9, Color::On),
        pixel(1, 1, Color::Off),
        pixel(-4, 1, Color::On),
        pixel(3, 63, Color::Off),
        pixel(3, 63, Color::On),
    ]);
    assert_eq!(
        flushed_bytes(&mut mode, &log),
        bytes_with(1024, &[(128 + 2, 0x02), (7 * 128 + 3, 0x80)])
    );
}

#[test]
fn draw_of_nothing_changes_nothing() {
    let (mut mode, log) = display(128, 64, 2, DisplayRotation::Rotate0);
    mode.set_pixel(0, 0, 1);
    mode.draw(&[]);
    assert_eq!(flushed_bytes(&mut mode, &log), bytes_with(1024, &[(0, 0x01)]));
    assert_eq!(log.borrow().len(), 2);
}

#[test]
fn draw_follows_the_rotation() {
    let (mut mode, log) = display(128, 64, 2, DisplayRotation::Rotate270);
    mode.draw(&[pixel(9, 100, Color::On), pixel(9, 128, Color::On)]);
    assert_eq!(flushed_bytes(&mut mode, &log), bytes_with(1024, &[(128 + 100, 0x02)]));
}
