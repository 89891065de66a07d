use os::vga_buffer::{ColourCode, ScreenChar, VGAColour, Writer, _print, print_something};

const ALL_COLOURS: [VGAColour; 16] = [
    VGAColour::Black,
    VGAColour::Blue,
    VGAColour::Green,
    VGAColour::Cyan,
    VGAColour::Red,
    VGAColour::Magenta,
    VGAColour::Brown,
    VGAColour::LightGray,
    VGAColour::DarkGray,
    VGAColour::LightBlue,
    VGAColour::LightGreen,
    VGAColour::LightCyan,
    VGAColour::LightRed,
    VGAColour::Pink,
    VGAColour::Yellow,
    VGAColour::White,
];

fn white_on_black() -> ColourCode {
    ColourCode::new(VGAColour::Black, VGAColour::White)
}

#[test]
fn colour_code_packs_nibbles() {
    assert_eq!(white_on_black().0, 0x0F);
    assert_eq!(ColourCode::new(VGAColour::Blue, VGAColour::Cyan).0, 0x13);
    assert_eq!(ColourCode::new(VGAColour::White, VGAColour::Black).0, 0xF0);
}

#[test]
fn colour_code_round_trips_all_pairs() {
    for bg in ALL_COLOURS {
        for fg in ALL_COLOURS {
            let code = ColourCode::new(bg, fg);
            assert_eq!(code.background(), bg);
            assert_eq!(code.foreground(), fg);
        }
    }
}

#[test]
fn fresh_writer_is_blank() {
    let colour = white_on_black();
    let w = Writer::new(colour);
    assert_eq!(w.column_position(), 0);
    assert_eq!(w.colour_code(), colour);
    for row in 0..25 {
        for col in 0..80 {
            let cell = w.char_at(row, col);
            assert_eq!(cell.ascii_char, b' ');
            assert_eq!(cell.colour_byte, colour);
        }
    }
}

#[test]
fn hello_lands_on_bottom_row() {
    let colour = white_on_black();
    let mut w = Writer::new(colour);
    w.write_string("Hello");
    assert_eq!(w.column_position(), 5);
    let expected = [b'H', b'e', b'l', b'l', b'o'];
    for (col, b) in expected.iter().enumerate() {
        let cell = w.char_at(24, col);
        assert_eq!(cell.ascii_char, *b);
        assert_eq!(cell.colour_byte, colour);
    }
    // no scroll: everything above, and the rest of the bottom row, is blank
    for row in 0..24 {
        for col in 0..80 {
            assert_eq!(w.char_at(row, col).ascii_char, b' ');
        }
    }
    for col in 5..80 {
        assert_eq!(w.char_at(24, col).ascii_char, b' ');
    }
}

#[test]
fn fewer_than_eighty_bytes_do_not_scroll() {
    let mut w = Writer::new(white_on_black());
    let text: String = (0..79).map(|i| char::from(b'0' + (i % 10) as u8)).collect();
    w.write_string(&text);
    assert_eq!(w.column_position(), 79);
    for col in 0..79 {
        assert_eq!(w.char_at(24, col).ascii_char, b'0' + (col % 10) as u8);
    }
    for row in 0..24 {
        for col in 0..80 {
            assert_eq!(w.char_at(row, col).ascii_char, b' ');
        }
    }
}

#[test]
fn eighty_one_bytes_scroll_exactly_once() {
    let mut w = Writer::new(white_on_black());
    let text: String = (0..81).map(|i| char::from(b'0' + (i % 10) as u8)).collect();
    w.write_string(&text);
    // the 81st byte landed at column 0 of the cleared bottom row
    assert_eq!(w.column_position(), 1);
    for col in 0..80 {
        assert_eq!(w.char_at(23, col).ascii_char, b'0' + (col % 10) as u8);
    }
    assert_eq!(w.char_at(24, 0).ascii_char, b'0');
    for col in 1..80 {
        assert_eq!(w.char_at(24, col).ascii_char, b' ');
    }
    // rows above the filled one scrolled blanks into place
    for row in 0..23 {
        for col in 0..80 {
            assert_eq!(w.char_at(row, col).ascii_char, b' ');
        }
    }
}

#[test]
fn unprintable_byte_stores_sentinel() {
    let mut w = Writer::new(white_on_black());
    w.write_string("\u{01}");
    assert_eq!(w.char_at(24, 0).ascii_char, 0xFE);
    assert_eq!(w.column_position(), 1);
}

#[test]
fn write_byte_substitutes_unprintable_bytes_too() {
    let mut w = Writer::new(white_on_black());
    w.write_byte(0x01);
    assert_eq!(w.char_at(24, 0).ascii_char, 0xFE);
    w.write_byte(0x9F);
    assert_eq!(w.char_at(24, 1).ascii_char, 0xFE);
    w.write_byte(b'x');
    assert_eq!(w.char_at(24, 2).ascii_char, b'x');
    assert_eq!(w.column_position(), 3);
}

#[test]
fn non_ascii_character_stores_sentinel_per_byte() {
    let mut w = Writer::new(white_on_black());
    // two UTF-8 bytes, both outside the printable range
    w.write_string("\u{e9}");
    assert_eq!(w.char_at(24, 0).ascii_char, 0xFE);
    assert_eq!(w.char_at(24, 1).ascii_char, 0xFE);
    assert_eq!(w.column_position(), 2);
}

#[test]
fn newline_scrolls_and_resets_column() {
    let mut w = Writer::new(white_on_black());
    w.write_string("ab\n");
    assert_eq!(w.column_position(), 0);
    assert_eq!(w.char_at(23, 0).ascii_char, b'a');
    assert_eq!(w.char_at(23, 1).ascii_char, b'b');
    for col in 0..80 {
        assert_eq!(w.char_at(24, col).ascii_char, b' ');
    }
}

#[test]
fn sustained_numeric_tokens_keep_column_in_bounds() {
    let mut w = Writer::new(white_on_black());
    for i in 0..2000 {
        w.write_string(&format!("{} ", i));
        assert!(w.column_position() <= 80);
        for row in 0..25 {
            for col in [0usize, 40, 79] {
                let cell = w.char_at(row, col);
                let b = cell.ascii_char;
                assert!(b == 0xFE || (0x20..=0x7E).contains(&b));
            }
        }
    }
}

#[test]
fn print_forwards_to_the_writer() {
    let mut w = Writer::new(white_on_black());
    _print(&mut w, "Hi");
    assert_eq!(w.char_at(24, 0).ascii_char, b'H');
    assert_eq!(w.char_at(24, 1).ascii_char, b'i');
    assert_eq!(w.column_position(), 2);
}

#[test]
fn print_something_prints_the_line() {
    let w = print_something();
    let line = "The answer to life, the universe, and everything is 42";
    assert_eq!(w.column_position(), 0);
    for (col, b) in line.bytes().enumerate() {
        let cell: ScreenChar = w.char_at(23, col);
        assert_eq!(cell.ascii_char, b);
        assert_eq!(cell.colour_byte.0, 0x0F);
    }
}
