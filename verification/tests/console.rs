use r2ox::vga::{
    Color, ColorCode, ImplWrite, VgaBuffer, VgaChar, VGA_CELLS, VGA_HEIGHT, VGA_WIDTH,
};

fn white_on_blue() -> ColorCode {
    ColorCode::new(Color::White, Color::Blue)
}

fn console() -> ImplWrite {
    ImplWrite::new(white_on_blue(), VgaBuffer::blank(white_on_blue()))
}

fn text_of_row(w: &ImplWrite, row: usize) -> String {
    (0..VGA_WIDTH)
        .map(|c| w.buffer().cell(row, c).ascii_character as char)
        .collect::<String>()
        .trim_end()
        .to_string()
}

#[test]
fn color_code_packs_background_and_foreground() {
    assert_eq!(ColorCode::new(Color::White, Color::Blue).0, 0x1f);
    assert_eq!(ColorCode::new(Color::Black, Color::Black).0, 0x00);
    assert_eq!(ColorCode::new(Color::Yellow, Color::Red).0, 0x4e);
    assert_eq!(ColorCode::new(Color::LightGreen, Color::White).0, 0xfa);
    let c = ColorCode::new(Color::Pink, Color::Cyan).0;
    assert_eq!(c & 0x0f, Color::Pink.as_u8());
    assert_eq!(c >> 4, Color::Cyan.as_u8());
}

#[test]
fn palette_numbers() {
    assert_eq!(Color::Black.as_u8(), 0);
    assert_eq!(Color::LightGray.as_u8(), 7);
    assert_eq!(Color::DarkGray.as_u8(), 8);
    assert_eq!(Color::White.as_u8(), 15);
}

#[test]
fn buffer_from_cells_checks_the_count() {
    let cell = VgaChar { ascii_character: b'x', color_code: white_on_blue() };
    assert!(VgaBuffer::from_cells(vec![cell; VGA_CELLS]).is_some());
    assert!(VgaBuffer::from_cells(vec![cell; VGA_CELLS - 1]).is_none());
    let b = VgaBuffer::from_cells(vec![cell; VGA_CELLS]).unwrap();
    assert_eq!(b.cell(24, 79), cell);
}

#[test]
fn new_console_starts_at_top_left() {
    let w = console();
    assert_eq!((w.x(), w.y()), (0, 0));
    assert_eq!(w.color_code(), white_on_blue());
}

#[test]
fn write_byte_stores_and_advances() {
    let mut w = console();
    w.write_byte(b'A');
    assert_eq!(w.buffer().cell(0, 0), VgaChar { ascii_character: b'A', color_code: white_on_blue() });
    assert_eq!((w.x(), w.y()), (1, 0));
}

#[test]
fn carriage_return_goes_to_column_zero() {
    let mut w = console();
    w.write_str("abc");
    w.write_byte(b'\r');
    assert_eq!((w.x(), w.y()), (0, 0));
    w.write_byte(b'X');
    assert_eq!(text_of_row(&w, 0), "Xbc");
}

#[test]
fn line_feed_goes_to_next_row() {
    let mut w = console();
    w.write_str("ab\ncd");
    assert_eq!(text_of_row(&w, 0), "ab");
    assert_eq!(text_of_row(&w, 1), "cd");
    assert_eq!((w.x(), w.y()), (2, 1));
}

#[test]
fn cursor_stays_on_last_column() {
    let mut w = console();
    let long: String = std::iter::repeat('a').take(VGA_WIDTH).collect();
    w.write_str(&long);
    assert_eq!(w.x(), VGA_WIDTH - 1);
    w.write_byte(b'Z');
    assert_eq!(w.x(), VGA_WIDTH - 1);
    assert_eq!(w.buffer().cell(0, VGA_WIDTH - 1).ascii_character, b'Z');
    assert_eq!(w.y(), 0);
}

#[test]
fn text_lands_in_consecutive_cells() {
    let mut w = console();
    w.write_str("\n\n   ");
    w.write_str("hello");
    assert_eq!(text_of_row(&w, 2), "   hello");
    assert_eq!((w.x(), w.y()), (8, 2));
}

#[test]
fn non_ascii_characters_keep_their_low_byte() {
    let mut w = console();
    w.write_str("\u{141}");
    assert_eq!(w.buffer().cell(0, 0).ascii_character, 0x41);
}

#[test]
fn cls_clears_the_screen_and_keeps_the_cursor() {
    let mut w = console();
    w.write_str("some text\nmore");
    w.write_str("cls");
    for row in 0..VGA_HEIGHT {
        assert_eq!(text_of_row(&w, row), "");
    }
    assert_eq!(w.buffer().cell(0, 0), VgaChar { ascii_character: b' ', color_code: white_on_blue() });
    assert_eq!((w.x(), w.y()), (4, 1));
}

#[test]
fn cls_only_as_the_whole_string() {
    let mut w = console();
    w.write_str("cls!");
    assert_eq!(text_of_row(&w, 0), "cls!");
}

#[test]
fn rows_run_two_past_the_bottom_before_scrolling() {
    let mut w = console();
    w.write_str("top");
    for _ in 0..VGA_HEIGHT {
        w.write_byte(b'\n');
    }
    assert_eq!(w.y(), VGA_HEIGHT);
    assert!(!w.accepts_str("x"));
    assert!(w.accepts_str("\n\r"));
    w.write_byte(b'\n');
    assert_eq!(w.y(), VGA_HEIGHT + 1);
    assert_eq!(text_of_row(&w, 0), "top");
}

#[test]
fn new_line_below_the_screen_scrolls() {
    let mut w = console();
    w.write_str("row0\nrow1\nrow2");
    for _ in 0..(VGA_HEIGHT - 1) {
        w.write_byte(b'\n');
    }
    assert_eq!(w.y(), VGA_HEIGHT + 1);
    w.write_byte(b'\n');
    assert_eq!((w.x(), w.y()), (0, VGA_HEIGHT - 1));
    assert_eq!(text_of_row(&w, 0), "row1");
    assert_eq!(text_of_row(&w, 1), "row2");
    assert_eq!(text_of_row(&w, VGA_HEIGHT - 1), "");
    w.write_str("bottom");
    assert_eq!(text_of_row(&w, VGA_HEIGHT - 1), "bottom");
}

#[test]
fn accepts_str_checks_every_byte() {
    let w = console();
    assert!(w.accepts_str("hello\nworld"));
    assert!(w.accepts_str("cls"));
    let mut low = console();
    for _ in 0..VGA_HEIGHT {
        low.write_byte(b'\n');
    }
    assert!(low.accepts_str("cls"));
    assert!(low.accepts_str(""));
    assert!(!low.accepts_str("\nx"));
    assert!(low.accepts_str("\n\nx"));
}

#[test]
fn writing_in_pieces_equals_writing_at_once() {
    let mut a = console();
    a.write_str("hello\nwor");
    a.write_str("ld\r!");
    let mut b = console();
    b.write_str("hello\nworld\r!");
    assert_eq!((a.x(), a.y()), (b.x(), b.y()));
    for row in 0..VGA_HEIGHT {
        for col in 0..VGA_WIDTH {
            assert_eq!(a.buffer().cell(row, col), b.buffer().cell(row, col));
        }
    }
}

#[test]
fn screen_valid_is_callable() {
    let w = console();
    w.screen_valid();
    assert_eq!((w.x(), w.y()), (0, 0));
}
