use kernel_traps::vga_buffer::{Color, ColorCode, Writer, BUFFER_HEIGHT, BUFFER_WIDTH};

/// Writing a line and a newline leaves the text readable on the
/// second-to-last row, character by character.
#[test]
fn test_println_output() {
    let s = "Some test string that fits on a single line";
    let mut writer = Writer::new();
    writer.write_string(s.as_bytes());
    writer.write_byte(b'\n');
    for (i, c) in s.chars().enumerate() {
        let screen_char = writer.char_at(BUFFER_HEIGHT - 2, i);
        assert_eq!(char::from(screen_char.ascii_character), c);
    }
}

/// A string shorter than the grid width leaves the cursor at its length and
/// scrolls nothing.
#[test]
fn test_short_string_no_scroll() {
    let s = b"hello, grid";
    let mut writer = Writer::new();
    writer.write_string(s);
    assert_eq!(writer.column_position(), s.len());
    for (i, &b) in s.iter().enumerate() {
        assert_eq!(writer.char_at(BUFFER_HEIGHT - 1, i).ascii_character, b);
    }
    // Nothing above the last row was touched.
    for row in 0..BUFFER_HEIGHT - 1 {
        for col in 0..BUFFER_WIDTH {
            assert_eq!(writer.char_at(row, col).ascii_character, 0x20);
        }
    }
}

/// More than one full row of visible characters scrolls exactly once: the
/// first row's worth moves up, and the blanked last row carries the tail.
#[test]
fn test_overflow_scrolls_once() {
    let mut bytes = Vec::new();
    for i in 0..100u32 {
        bytes.push(b'a' + (i % 26) as u8);
    }
    let mut writer = Writer::new();
    writer.write_string(&bytes);
    assert_eq!(writer.column_position(), 100 - BUFFER_WIDTH);
    for c in 0..BUFFER_WIDTH {
        assert_eq!(
            writer.char_at(BUFFER_HEIGHT - 2, c).ascii_character,
            bytes[c],
            "first row's worth on the next-to-last row"
        );
    }
    for c in 0..100 - BUFFER_WIDTH {
        assert_eq!(
            writer.char_at(BUFFER_HEIGHT - 1, c).ascii_character,
            bytes[BUFFER_WIDTH + c],
            "overflow tail on the last row"
        );
    }
    for c in 100 - BUFFER_WIDTH..BUFFER_WIDTH {
        assert_eq!(writer.char_at(BUFFER_HEIGHT - 1, c).ascii_character, 0x20);
    }
}

/// After a scroll the previous top row's content is no longer in the grid.
#[test]
fn test_scroll_discards_top_row() {
    let mut writer = Writer::new();
    // Mark the top row by scrolling a recognizable line all the way up.
    writer.write_string(b"marker");
    for _ in 0..BUFFER_HEIGHT - 1 {
        writer.write_byte(b'\n');
    }
    // The marker now sits on row 0.
    assert_eq!(writer.char_at(0, 0).ascii_character, b'm');
    writer.write_byte(b'\n');
    // One more scroll and it is gone from the whole grid.
    for row in 0..BUFFER_HEIGHT {
        for col in 0..BUFFER_WIDTH {
            assert_eq!(writer.char_at(row, col).ascii_character, 0x20);
        }
    }
}

/// Bytes outside 0x20..=0x7e that are not newline render as the fixed
/// placeholder glyph; boundary bytes render as themselves.
#[test]
fn test_placeholder_glyph() {
    // A single non-printable byte is already substituted by write_byte.
    let mut direct = Writer::new();
    direct.write_byte(0x00);
    assert_eq!(direct.char_at(BUFFER_HEIGHT - 1, 0).ascii_character, 0xfe);
    direct.write_byte(0x9c);
    assert_eq!(direct.char_at(BUFFER_HEIGHT - 1, 1).ascii_character, 0xfe);

    let mut writer = Writer::new();
    writer.write_string(&[0x00, 0x1f, 0x7f, 0xff, 0x20, 0x7e]);
    assert_eq!(writer.column_position(), 6);
    for c in 0..4 {
        assert_eq!(writer.char_at(BUFFER_HEIGHT - 1, c).ascii_character, 0xfe);
    }
    assert_eq!(writer.char_at(BUFFER_HEIGHT - 1, 4).ascii_character, 0x20);
    assert_eq!(writer.char_at(BUFFER_HEIGHT - 1, 5).ascii_character, 0x7e);
    // Newline is not substituted: it scrolls.
    writer.write_string(&[0x0a]);
    assert_eq!(writer.column_position(), 0);
    assert_eq!(writer.char_at(BUFFER_HEIGHT - 2, 0).ascii_character, 0xfe);
}

/// An empty write moves nothing.
#[test]
fn test_empty_string() {
    let mut writer = Writer::new();
    writer.write_string(b"");
    assert_eq!(writer.column_position(), 0);
    assert_eq!(writer.char_at(BUFFER_HEIGHT - 1, 0).ascii_character, 0x20);
}

/// Exactly one full row fills the line without scrolling; the next visible
/// byte forces the scroll.
#[test]
fn test_exactly_full_row() {
    let mut writer = Writer::new();
    for _ in 0..BUFFER_WIDTH {
        writer.write_byte(b'z');
    }
    assert_eq!(writer.column_position(), BUFFER_WIDTH);
    assert_eq!(writer.char_at(BUFFER_HEIGHT - 2, 0).ascii_character, 0x20);
    writer.write_byte(b'q');
    assert_eq!(writer.column_position(), 1);
    assert_eq!(writer.char_at(BUFFER_HEIGHT - 2, 0).ascii_character, b'z');
    assert_eq!(writer.char_at(BUFFER_HEIGHT - 1, 0).ascii_character, b'q');
}

/// The color attribute packs background in the high nibble and foreground in
/// the low nibble, and written cells carry it.
#[test]
fn test_color_code() {
    assert_eq!(ColorCode::new(Color::Yellow, Color::Black).0, 0x0e);
    assert_eq!(ColorCode::new(Color::White, Color::Blue).0, 0x1f);
    assert_eq!(ColorCode::new(Color::LightGreen, Color::Red).0, 0x4a);
    let mut writer = Writer::new();
    writer.write_byte(b'x');
    assert_eq!(writer.char_at(BUFFER_HEIGHT - 1, 0).color_code.0, 0x0e);
}

/// Sixteen fixed-width lowercase hex digits, most significant first.
#[test]
fn test_hex_rendering() {
    let mut out = Vec::new();
    kernel_traps::hexfmt::push_hex_u64(&mut out, 0xdeadbeef);
    assert_eq!(out, b"00000000deadbeef".to_vec());
    kernel_traps::hexfmt::push_hex_u64(&mut out, 0);
    assert_eq!(&out[16..], b"0000000000000000");
    let mut top = Vec::new();
    kernel_traps::hexfmt::push_hex_u64(&mut top, u64::MAX);
    assert_eq!(top, b"ffffffffffffffff".to_vec());
}
