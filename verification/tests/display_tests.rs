use boatctl::adc::{decode_reading, request_frame};
use boatctl::buttons::{ButtonState, Edge};
use boatctl::display::{get_font_data, DisplayBuffer};
use boatctl::messages::CommandMessage;

#[test]
fn new_buffer_is_blank() {
    let b = DisplayBuffer::new();
    assert!(!b.pixel(0, 0));
    assert!(!b.pixel(127, 63));
    for i in 0..1024 {
        assert_eq!(b.byte_at(i), 0);
    }
}

#[test]
fn set_pixel_touches_exactly_one_pixel() {
    let mut b = DisplayBuffer::new();
    b.set_pixel(10, 20, true);
    assert!(b.pixel(10, 20));
    assert!(!b.pixel(11, 20));
    assert!(!b.pixel(10, 21));
    assert!(!b.pixel(10, 19));
    b.set_pixel(10, 20, false);
    assert!(!b.pixel(10, 20));
}

#[test]
fn set_pixel_ignores_coordinates_off_the_panel() {
    let mut b = DisplayBuffer::new();
    b.set_pixel(128, 0, true);
    b.set_pixel(0, 64, true);
    for i in 0..1024 {
        assert_eq!(b.byte_at(i), 0);
    }
}

#[test]
fn clear_unlights_everything() {
    let mut b = DisplayBuffer::new();
    b.set_pixel(5, 5, true);
    b.set_pixel(100, 60, true);
    b.clear();
    assert!(!b.pixel(5, 5));
    assert!(!b.pixel(100, 60));
}

#[test]
fn font_has_the_expected_columns() {
    assert_eq!(get_font_data('A'), [0x7C, 0x12, 0x11, 0x12, 0x7C]);
    assert_eq!(get_font_data('0'), [0x3E, 0x51, 0x49, 0x45, 0x3E]);
    assert_eq!(get_font_data(' '), [0x00, 0x00, 0x00, 0x00, 0x00]);
    // anything outside the font renders as the boxed placeholder
    assert_eq!(get_font_data('q'), [0x7F, 0x41, 0x41, 0x41, 0x7F]);
}

#[test]
fn draw_char_lights_the_font_bits() {
    let mut b = DisplayBuffer::new();
    b.draw_char(0, 0, 'I');
    // 'I' is the vertical bar of column 2 with serifs in columns 1 and 3
    for y in 0..7 {
        assert!(b.pixel(2, y), "column 2 row {} of I", y);
    }
    assert!(b.pixel(1, 0) && b.pixel(1, 6));
    assert!(!b.pixel(1, 3));
    assert!(!b.pixel(0, 0));
    assert!(!b.pixel(4, 0));
    assert!(!b.pixel(2, 7));
}

#[test]
fn draw_text_advances_six_pixels_per_character() {
    let mut b = DisplayBuffer::new();
    b.draw_text(0, 0, "II");
    assert!(b.pixel(2, 3));
    assert!(b.pixel(8, 3));
    // the sixth column is the gap between characters
    assert!(!b.pixel(5, 3));
}

#[test]
fn draw_text_keeps_pixels_outside_the_text() {
    let mut b = DisplayBuffer::new();
    b.set_pixel(100, 50, true);
    b.draw_text(0, 0, "A:");
    assert!(b.pixel(100, 50));
}

#[test]
fn debounce_reports_an_edge_once_the_level_holds() {
    let mut s = ButtonState::new(0);
    // the raw level changes: only the debounce clock restarts
    assert_eq!(s.update(true, 10), None);
    // still inside the debounce time: nothing yet
    assert_eq!(s.update(true, 40), None);
    // held for the debounce time: one rising edge
    assert_eq!(s.update(true, 60), Some(Edge::Rising));
    // holding further reports nothing new
    assert_eq!(s.update(true, 100), None);
    // release, debounce, one falling edge
    assert_eq!(s.update(false, 1100), None);
    assert_eq!(s.update(false, 1200), Some(Edge::Falling));
}

#[test]
fn long_press_needs_a_second_of_stable_press() {
    let mut s = ButtonState::new(0);
    s.update(true, 10);
    s.update(true, 60);
    assert!(!s.is_long_press(1059));
    assert!(s.is_long_press(1060));
    s.update(false, 1100);
    s.update(false, 1200);
    assert!(!s.is_long_press(5000));
}

#[test]
fn bouncing_levels_report_no_edge() {
    let mut s = ButtonState::new(0);
    assert_eq!(s.update(true, 10), None);
    assert_eq!(s.update(false, 30), None);
    assert_eq!(s.update(true, 50), None);
    assert_eq!(s.update(false, 70), None);
    // the level never held for the debounce time: no edge at all
    assert_eq!(s.update(false, 200), None);
}

#[test]
fn adc_request_frame_places_the_channel_in_the_top_nibble() {
    assert_eq!(request_frame(0), [0x01, 0x80, 0x00]);
    assert_eq!(request_frame(3), [0x01, 0xB0, 0x00]);
    assert_eq!(request_frame(7), [0x01, 0xF0, 0x00]);
}

#[test]
fn adc_decode_masks_to_ten_bits() {
    assert_eq!(decode_reading(0x00, 0x00), 0);
    assert_eq!(decode_reading(0x03, 0xFF), 1023);
    assert_eq!(decode_reading(0xFC, 0x05), 5);
    assert_eq!(decode_reading(0x02, 0x00), 512);
}

#[test]
fn command_stamping_changes_only_the_timestamp() {
    let cmd = CommandMessage {
        msg_type: String::from("command"),
        timestamp: 823,
        rudder_star: 1500,
        rudder_port: 1480,
        motor: 1700,
        boom: 1200,
        genoa: 1300,
    };
    let stamped = cmd.with_timestamp(99125);
    assert_eq!(stamped.timestamp, 99125);
    assert_eq!(stamped.msg_type, "command");
    assert_eq!(stamped.rudder_star, 1500);
    assert_eq!(stamped.rudder_port, 1480);
    assert_eq!(stamped.motor, 1700);
    assert_eq!(stamped.boom, 1200);
    assert_eq!(stamped.genoa, 1300);
    assert_eq!(cmd.timestamp, 823);
}
