use kfs_core::console::Console;
use kfs_core::vga_color;
use kfs_core::vga_text::{color_code, VgaTextConsole, HEIGHT, WIDTH};

fn cleared() -> VgaTextConsole {
    let mut c = VgaTextConsole::new();
    c.clear_screen();
    c
}

const BLANK: u16 = 0x0720; // space in light gray on black

#[test]
fn new_console_starts_at_origin_in_light_gray() {
    let c = VgaTextConsole::new();
    assert_eq!(c.get_color_code(), 0x07);
    assert_eq!(c.cursor_pos(), 0);
}

#[test]
fn color_code_packs_two_nibbles() {
    assert_eq!(color_code(0x7, 0x0), 0x07);
    assert_eq!(color_code(vga_color::LIGHT_GREEN, vga_color::BLUE), 0x1A);
    assert_eq!(color_code(0xFF, 0xFF), 0xFF);
}

#[test]
fn clear_screen_blanks_every_cell_under_current_color() {
    let c = cleared();
    for row in 0..HEIGHT {
        for col in 0..WIDTH {
            assert_eq!(c.cell(row, col), BLANK);
        }
    }
    assert_eq!(c.cursor_pos(), 0);
}

#[test]
fn write_byte_places_cell_and_advances() {
    let mut c = cleared();
    c.write_byte(b'h');
    c.write_byte(b'i');
    assert_eq!(c.cell(0, 0), 0x0700 | b'h' as u16);
    assert_eq!(c.cell(0, 1), 0x0700 | b'i' as u16);
    assert_eq!(c.cursor_pos(), 2);
}

#[test]
fn full_row_leaves_column_at_width_until_next_write() {
    let mut c = cleared();
    for _ in 0..WIDTH {
        c.write_byte(b'x');
    }
    // column rests at WIDTH, row unchanged: a pending wrap
    assert_eq!(c.cursor_pos(), WIDTH as u16);
    for col in 0..WIDTH {
        assert_eq!(c.cell(0, col), 0x0700 | b'x' as u16);
    }
    assert_eq!(c.cell(1, 0), BLANK);

    // the next printable byte wraps first, then lands at the new row start
    c.write_byte(b'y');
    assert_eq!(c.cell(1, 0), 0x0700 | b'y' as u16);
    assert_eq!(c.cursor_pos(), WIDTH as u16 + 1);
}

#[test]
fn newline_on_last_row_scrolls_row_one_into_row_zero() {
    let mut c = cleared();
    // one marked line per row; cursor ends on the last row
    for i in 0..HEIGHT {
        c.write_byte(b'A' + (i % 26) as u8);
        if i < HEIGHT - 1 {
            c.write_byte(b'\n');
        }
    }
    // record what the rows hold just before the scroll
    let mut row1_before = Vec::new();
    for col in 0..WIDTH {
        row1_before.push(c.cell(1, col));
    }
    c.write_byte(b'\n');
    // row 0 now holds what row 1 held, column for column
    for col in 0..WIDTH {
        assert_eq!(c.cell(0, col), row1_before[col]);
    }
    // the freed last row is entirely blank under the current color
    for col in 0..WIDTH {
        assert_eq!(c.cell(HEIGHT - 1, col), BLANK);
    }
    // cursor sits at the start of the last row
    assert_eq!(c.cursor_pos(), ((HEIGHT - 1) * WIDTH) as u16);
}

#[test]
fn backspace_at_top_left_corner_changes_nothing() {
    let mut c = cleared();
    c.backspace();
    assert_eq!(c.cursor_pos(), 0);
    for row in 0..HEIGHT {
        for col in 0..WIDTH {
            assert_eq!(c.cell(row, col), BLANK);
        }
    }
}

#[test]
fn backspace_erases_previous_cell() {
    let mut c = cleared();
    c.write_byte(b'a');
    c.write_byte(b'b');
    c.backspace();
    assert_eq!(c.cursor_pos(), 1);
    assert_eq!(c.cell(0, 0), 0x0700 | b'a' as u16);
    assert_eq!(c.cell(0, 1), BLANK);
}

#[test]
fn backspace_wraps_to_previous_row_end() {
    let mut c = cleared();
    c.write_byte(b'a');
    c.write_byte(b'\n');
    c.backspace();
    assert_eq!(c.cursor_pos(), (WIDTH - 1) as u16);
    assert_eq!(c.cell(0, WIDTH - 1), BLANK);
    // the cell written before the newline is untouched
    assert_eq!(c.cell(0, 0), 0x0700 | b'a' as u16);
}

#[test]
fn set_color_applies_to_later_writes_only() {
    let mut c = cleared();
    c.write_byte(b'a');
    c.set_color(vga_color::YELLOW, vga_color::BLUE);
    assert_eq!(c.get_color_code(), 0x1E);
    c.write_byte(b'b');
    assert_eq!(c.cell(0, 0), 0x0700 | b'a' as u16);
    assert_eq!(c.cell(0, 1), 0x1E00 | b'b' as u16);
}

#[test]
fn write_bytes_writes_in_order() {
    let mut c = cleared();
    c.write_bytes(b"ok\ngo");
    assert_eq!(c.cell(0, 0), 0x0700 | b'o' as u16);
    assert_eq!(c.cell(0, 1), 0x0700 | b'k' as u16);
    assert_eq!(c.cell(1, 0), 0x0700 | b'g' as u16);
    assert_eq!(c.cell(1, 1), 0x0700 | b'o' as u16);
    assert_eq!(c.cursor_pos(), (WIDTH + 2) as u16);
}

#[test]
fn write_str_substitutes_placeholder_for_unprintable_bytes() {
    let mut c = cleared();
    c.write_str("a\u{1}b");
    assert_eq!(c.cell(0, 0), 0x0700 | b'a' as u16);
    assert_eq!(c.cell(0, 1), 0x0700 | 0xFE);
    assert_eq!(c.cell(0, 2), 0x0700 | b'b' as u16);
}

#[test]
fn pack_combines_color_and_character() {
    let mut c = cleared();
    assert_eq!(c.pack(b'Z'), 0x0700 | b'Z' as u16);
    c.set_color(vga_color::WHITE, vga_color::RED);
    assert_eq!(c.pack(0x00), 0x4F00);
}
