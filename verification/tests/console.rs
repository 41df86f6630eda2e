use hash_os::vga_buffer::{
    backspace, cursor_left, cursor_right, Color, ColorCode, Writer, BUFFER_WIDTH, GRID_CELLS,
    LAST_ROW_START,
};

fn fresh_writer() -> Writer {
    Writer::new(ColorCode::new(Color::LightGreen, Color::Black))
}

fn last_row_chars(w: &Writer) -> Vec<u8> {
    let mut out = Vec::new();
    for col in 0..BUFFER_WIDTH {
        out.push(w.buffer[LAST_ROW_START + col].ascii_character);
    }
    out
}

#[test]
fn fresh_console_is_blank() {
    let w = fresh_writer();
    assert_eq!(w.column_position, 0);
    assert_eq!(w.buffer.len(), GRID_CELLS);
    for cell in w.buffer.iter() {
        assert_eq!(cell.ascii_character, 0);
    }
}

#[test]
fn color_code_packs_nibbles() {
    assert_eq!(ColorCode::new(Color::LightGreen, Color::Black).0, 10);
    assert_eq!(ColorCode::new(Color::White, Color::Blue).0, (1 << 4) | 15);
    assert_eq!(ColorCode::new(Color::Yellow, Color::Red).0, (4 << 4) | 14);
}

#[test]
fn full_row_scrolls_exactly_once_on_next_char() {
    let mut w = fresh_writer();
    for _ in 0..BUFFER_WIDTH {
        w.write_byte(b'x');
    }
    // The full row has not scrolled yet: the column sits at the width and
    // the bottom row still holds every character.
    assert_eq!(w.column_position, BUFFER_WIDTH);
    assert!(last_row_chars(&w).iter().all(|&b| b == b'x'));
    // The next character triggers the one scroll and lands at column 0 of
    // a fresh bottom row.
    w.write_byte(b'y');
    assert_eq!(w.column_position, 1);
    let row = last_row_chars(&w);
    assert_eq!(row[0], b'y');
    assert!(row[1..].iter().all(|&b| b == 0));
    // The previous row moved up unscathed.
    for col in 0..BUFFER_WIDTH {
        assert_eq!(w.buffer[LAST_ROW_START - BUFFER_WIDTH + col].ascii_character, b'x');
    }
}

#[test]
fn write_then_read_back_gives_string_and_nul_padding() {
    let mut w = fresh_writer();
    w.write_string("hello");
    let mut line: [char; 80] = ['\u{1}'; 80];
    w.get_prev_line(&mut line);
    assert_eq!(&line[0..5], &['h', 'e', 'l', 'l', 'o']);
    for i in 5..BUFFER_WIDTH {
        assert_eq!(line[i], '\0');
    }
}

#[test]
fn read_last_row_yields_exactly_width_cells() {
    let w = fresh_writer();
    let mut line: [char; 80] = ['\u{1}'; 80];
    w.get_prev_line(&mut line);
    assert_eq!(line.len(), BUFFER_WIDTH);
    assert!(line.iter().all(|&c| c == '\0'));
}

#[test]
fn full_width_string_reads_back_without_padding() {
    let mut w = fresh_writer();
    let s: String = "x".repeat(BUFFER_WIDTH);
    w.write_string(&s);
    let mut line: [char; 80] = ['\u{1}'; 80];
    w.get_prev_line(&mut line);
    assert!(line.iter().all(|&c| c == 'x'));
}

#[test]
fn backspace_at_column_zero_is_a_noop() {
    let mut w = fresh_writer();
    backspace(&mut w, true);
    assert_eq!(w.column_position, 0);
    for cell in w.buffer.iter() {
        assert_eq!(cell.ascii_character, 0);
    }
}

#[test]
fn backspace_erases_and_steps_back() {
    let mut w = fresh_writer();
    w.write_string("ab");
    backspace(&mut w, true);
    assert_eq!(w.column_position, 1);
    let row = last_row_chars(&w);
    assert_eq!(row[0], b'a');
    assert_eq!(row[1], b' ');
}

#[test]
fn delete_erases_at_cursor_without_moving() {
    let mut w = fresh_writer();
    w.write_string("ab");
    cursor_left(&mut w);
    backspace(&mut w, false);
    assert_eq!(w.column_position, 1);
    let row = last_row_chars(&w);
    assert_eq!(row[0], b'a');
    assert_eq!(row[1], b' ');
}

#[test]
fn cursor_right_stops_at_last_column() {
    let mut w = fresh_writer();
    for _ in 0..(BUFFER_WIDTH + 5) {
        cursor_right(&mut w);
    }
    assert_eq!(w.column_position, BUFFER_WIDTH - 1);
    cursor_right(&mut w);
    assert_eq!(w.column_position, BUFFER_WIDTH - 1);
}

#[test]
fn cursor_left_clamps_at_zero() {
    let mut w = fresh_writer();
    w.write_string("ab");
    cursor_left(&mut w);
    cursor_left(&mut w);
    assert_eq!(w.column_position, 0);
    cursor_left(&mut w);
    assert_eq!(w.column_position, 0);
}

#[test]
fn newline_scrolls_and_resets_column() {
    let mut w = fresh_writer();
    w.write_string("ab\n");
    assert_eq!(w.column_position, 0);
    assert!(last_row_chars(&w).iter().all(|&b| b == 0));
    assert_eq!(w.buffer[LAST_ROW_START - BUFFER_WIDTH].ascii_character, b'a');
    assert_eq!(w.buffer[LAST_ROW_START - BUFFER_WIDTH + 1].ascii_character, b'b');
}

#[test]
fn unprintable_characters_become_placeholder() {
    let mut w = fresh_writer();
    w.write_string("\u{263a}");
    assert_eq!(last_row_chars(&w)[0], 0xfe);
}
