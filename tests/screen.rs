use titanium::vga_buffer::{
    cursor_height_setting, cursor_offset, cursor_offset_bytes, hidden_cursor_setting,
    shown_cursor_setting, Colour, ColourCode, Writer, BUFFER_HEIGHT, BUFFER_WIDTH,
};

fn default_colour() -> ColourCode {
    ColourCode::new(Colour::LightCyan, Colour::Black)
}

#[test]
fn colour_codes() {
    assert_eq!(ColourCode::new(Colour::LightGreen, Colour::Red).0, 0x4a);
    assert_eq!(ColourCode::new(Colour::White, Colour::Blue).0, 0x1f);
    assert_eq!(ColourCode::new_fg(Colour::LightCyan).0, 0x0b);
    let c: ColourCode = Colour::LightRed.into();
    assert_eq!(c, ColourCode(0x0c));
}

#[test]
fn println_output() {
    let mut w = Writer::new(default_colour());
    let s = "println output test";
    w.write_string("\n");
    w.write_string(s);
    w.write_string("\n");
    for (i, c) in s.chars().enumerate() {
        let cell = w.char_at(w.row_position - 1, i);
        assert_eq!(char::from(cell.ascii_character), c);
    }
}

#[test]
fn println_colour() {
    let mut w = Writer::new(default_colour());
    let colour_code = ColourCode::new(Colour::LightGreen, Colour::Red);
    w.colour_code = colour_code;
    w.write_string("\nc");
    assert_eq!(w.char_at(w.row_position, w.col_position - 1).colour_code, colour_code);
}

#[test]
fn println_many() {
    let mut w = Writer::new(default_colour());
    for _ in 0..200 {
        w.write_string("many println test\n");
    }
    assert_eq!(w.row_position, 200 % BUFFER_HEIGHT);
    assert_eq!(w.col_position, 0);
}

#[test]
fn long_line_wraps_to_the_next_row() {
    let mut w = Writer::new(default_colour());
    for _ in 0..BUFFER_WIDTH {
        w.write_byte(b'x');
    }
    assert_eq!((w.row_position, w.col_position), (0, BUFFER_WIDTH));
    w.write_byte(b'y');
    assert_eq!((w.row_position, w.col_position), (1, 1));
    assert_eq!(w.char_at(1, 0).ascii_character, b'y');
    assert_eq!(w.char_at(0, BUFFER_WIDTH - 1).ascii_character, b'x');
}

#[test]
fn last_row_wraps_to_the_top_and_clears_it() {
    let mut w = Writer::new(default_colour());
    w.write_string("top");
    for _ in 0..BUFFER_HEIGHT {
        w.write_byte(b'\n');
    }
    assert_eq!(w.row_position, 0);
    assert_eq!(w.char_at(0, 0).ascii_character, b' ');
}

#[test]
fn unprintable_bytes_are_replaced() {
    let mut w = Writer::new(default_colour());
    w.write_string("a\u{e9}\tb");
    assert_eq!(w.char_at(0, 0).ascii_character, b'a');
    assert_eq!(w.char_at(0, 1).ascii_character, 0xfe);
    assert_eq!(w.char_at(0, 2).ascii_character, 0xfe);
    assert_eq!(w.char_at(0, 3).ascii_character, 0xfe);
    assert_eq!(w.char_at(0, 4).ascii_character, b'b');
}

#[test]
fn temporary_colour_is_released() {
    let mut w = Writer::new(default_colour());
    w.set_temp_colour_code(Colour::LightGreen.into());
    w.write_byte(b'g');
    w.release_temp_colour_code();
    w.write_byte(b'n');
    assert_eq!(w.char_at(0, 0).colour_code, ColourCode(0x0a));
    assert_eq!(w.char_at(0, 1).colour_code, default_colour());
}

#[test]
fn cursor_position() {
    let pos = cursor_offset(14, 3);
    assert_eq!(3, pos as usize % BUFFER_WIDTH);
    assert_eq!(14, pos as usize / BUFFER_WIDTH);
    assert_eq!(cursor_offset_bytes(pos), (0x63, 0x04));
}

#[test]
fn cursor_height() {
    assert_eq!(cursor_height_setting(0xa0, 0x3) & 0xf, 0xf - 0x3);
    assert_eq!(cursor_height_setting(0xa0, 0x3), 0xac);
}

#[test]
fn cursor_visibility() {
    assert_eq!(hidden_cursor_setting(0x0e), 0x2e);
    assert_eq!(shown_cursor_setting(0x2e), 0x0e);
}
