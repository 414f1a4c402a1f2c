//! VGA text console: a fixed 80x25 character grid and a hardware cursor.
//!
//! Each cell is a 16-bit value packing an 8-bit color byte (high) over an
//! 8-bit character code (low); the color byte packs foreground in the low
//! nibble and background in the high nibble. This module keeps the grid, the
//! cursor position and the current color as plain owned state with an exact
//! model of every mutation; mirroring the cells into the memory-mapped
//! buffer at [`VGA_BASE`] and programming the cursor registers through the
//! CRTC port pair are volatile hardware accesses and live outside this
//! crate.

use crate::console::{filtered_bytes, Console};
use crate::vga_color;
use vstd::prelude::*;
use vstd::string::StringSliceAdditionalSpecFns;

verus! {

pub const HEIGHT: usize = 25;

pub const WIDTH: usize = 80;

/// Physical base address of the memory-mapped character buffer.
pub const VGA_BASE: usize = 0xb8000;

/// CRTC index port: selects a cursor register.
pub const VGA_CRTC_ADDR: u16 = 0x3D4;

/// CRTC data port: writes the selected register.
pub const VGA_CRTC_DATA: u16 = 0x3D5;

/// CRTC register holding the low byte of the cursor position.
pub const CRTC_CURSOR_LOW: u8 = 0x0F;

/// CRTC register holding the high byte of the cursor position.
pub const CRTC_CURSOR_HIGH: u8 = 0x0E;

/// A color byte: background nibble over foreground nibble.
pub open spec fn spec_color_code(fg: u8, bg: u8) -> u8 {
    ((bg & 0x0F) << 4) | (fg & 0x0F)
}

pub fn color_code(fg: u8, bg: u8) -> (code: u8)
    ensures
        code == spec_color_code(fg, bg),
{
    ((bg & 0x0F) << 4) | (fg & 0x0F)
}

/// A cell value: the color byte over the character code.
pub open spec fn pack_cell(color: u8, ch: u8) -> u16 {
    ((color as u16) << 8) | (ch as u16)
}

/// A blank cell: a space under the given color.
pub open spec fn blank_cell(color: u8) -> u16 {
    pack_cell(color, 0x20)
}

/// Abstract state of a text console: cursor position, current color, and the
/// 80x25 grid flattened row-major into 2000 cells.
#[verifier::ext_equal]
pub struct ConsoleView {
    pub row: int,
    pub col: int,
    pub color: u8,
    pub grid: Seq<u16>,
}

impl ConsoleView {
    /// The cursor stays on the grid; the column may transiently rest at the
    /// grid width, signaling a pending wrap before the next printable write.
    pub open spec fn wf(&self) -> bool {
        &&& 0 <= self.row < 25
        &&& 0 <= self.col <= 80
        &&& self.grid.len() == 2000
    }
}

/// The grid after a full-buffer scroll: every row moves up one and the last
/// row becomes blanks of the current color.
pub open spec fn scrolled_grid(grid: Seq<u16>, blank: u16) -> Seq<u16> {
    Seq::new(2000, |i: int| if i < 1920 { grid[i + 80] } else { blank })
}

/// The newline/advance step: the column resets; below the last row the row
/// advances, on the last row the buffer scrolls instead.
pub open spec fn newline_view(v: ConsoleView) -> ConsoleView {
    if v.row < 24 {
        ConsoleView { row: v.row + 1, col: 0, ..v }
    } else {
        ConsoleView { col: 0, grid: scrolled_grid(v.grid, blank_cell(v.color)), ..v }
    }
}

/// One byte written to the console: newline advances; any other byte first
/// wraps if the column had reached the width, then lands at the cursor under
/// the current color and the column advances. A character is never written
/// past the last column.
pub open spec fn write_byte_view(v: ConsoleView, b: u8) -> ConsoleView {
    if b == 0x0A {
        newline_view(v)
    } else {
        let at = if v.col >= 80 {
            newline_view(v)
        } else {
            v
        };
        ConsoleView {
            col: at.col + 1,
            grid: at.grid.update(at.row * 80 + at.col, pack_cell(at.color, b)),
            ..at
        }
    }
}

/// A sequence of bytes written in order.
pub open spec fn write_bytes_view(v: ConsoleView, bytes: Seq<u8>) -> ConsoleView
    decreases bytes.len(),
{
    if bytes.len() == 0 {
        v
    } else {
        write_bytes_view(write_byte_view(v, bytes[0]), bytes.drop_first())
    }
}

/// Backspace: the cursor steps back within the row, or to the last column of
/// the previous row, and the cell it lands on is blanked; at the top-left
/// corner nothing moves and no cell changes.
pub open spec fn backspace_view(v: ConsoleView) -> ConsoleView {
    if v.col > 0 {
        ConsoleView {
            col: v.col - 1,
            grid: v.grid.update(v.row * 80 + (v.col - 1), blank_cell(v.color)),
            ..v
        }
    } else if v.row > 0 {
        ConsoleView {
            row: v.row - 1,
            col: 79,
            grid: v.grid.update((v.row - 1) * 80 + 79, blank_cell(v.color)),
            ..v
        }
    } else {
        v
    }
}

/// The whole grid blanked under the current color, cursor back at the
/// origin.
pub open spec fn cleared_view(v: ConsoleView) -> ConsoleView {
    ConsoleView {
        row: 0,
        col: 0,
        color: v.color,
        grid: Seq::new(2000, |i: int| blank_cell(v.color)),
    }
}

/// Writing a sequence one byte at a time agrees with writing the whole
/// sequence: appending a byte is one more [`write_byte_view`] step.
pub proof fn lemma_write_bytes_view_push(v: ConsoleView, bytes: Seq<u8>, b: u8)
    ensures
        write_bytes_view(v, bytes.push(b)) == write_byte_view(write_bytes_view(v, bytes), b),
    decreases bytes.len(),
{
    if bytes.len() == 0 {
        assert(bytes.push(b)[0] == b);
        assert(bytes.push(b).drop_first() =~= Seq::<u8>::empty());
        assert(write_bytes_view(v, bytes.push(b)) == write_bytes_view(
            write_byte_view(v, b),
            Seq::<u8>::empty(),
        ));
        assert(write_bytes_view(write_byte_view(v, b), Seq::<u8>::empty()) == write_byte_view(
            v,
            b,
        ));
    } else {
        assert(bytes.push(b)[0] == bytes[0]);
        assert(bytes.push(b).drop_first() =~= bytes.drop_first().push(b));
        assert(write_bytes_view(v, bytes.push(b)) == write_bytes_view(
            write_byte_view(v, bytes[0]),
            bytes.drop_first().push(b),
        ));
        lemma_write_bytes_view_push(write_byte_view(v, bytes[0]), bytes.drop_first(), b);
        assert(write_bytes_view(v, bytes) == write_bytes_view(
            write_byte_view(v, bytes[0]),
            bytes.drop_first(),
        ));
    }
}

/// A run of non-newline bytes that fits the remainder of the row advances
/// only the column: the row, the color and the pending-wrap discipline are
/// untouched, and the column lands exactly one past the last byte written.
/// In particular, a full row of printable bytes from a fresh line leaves the
/// column resting at the grid width with the row unchanged.
pub proof fn lemma_printable_run_stays_on_row(v: ConsoleView, bytes: Seq<u8>)
    requires
        v.wf(),
        v.col + bytes.len() <= 80,
        forall|i: int| 0 <= i < bytes.len() ==> bytes[i] != 0x0A,
    ensures
        write_bytes_view(v, bytes).wf(),
        write_bytes_view(v, bytes).row == v.row,
        write_bytes_view(v, bytes).col == v.col + bytes.len(),
        write_bytes_view(v, bytes).color == v.color,
    decreases bytes.len(),
{
    if bytes.len() > 0 {
        // the column is strictly below the width, so the byte lands in this
        // row without wrapping
        let stepped = write_byte_view(v, bytes[0]);
        assert(stepped.wf());
        lemma_printable_run_stays_on_row(stepped, bytes.drop_first());
    }
}

/// After a scroll, each cell of rows 0..24 holds what the row below held,
/// and the last row is entirely blank.
pub proof fn lemma_scrolled_grid_rows(grid: Seq<u16>, blank: u16, row: int, col: int)
    requires
        grid.len() == 2000,
        0 <= col < 80,
        0 <= row < 25,
    ensures
        row < 24 ==> scrolled_grid(grid, blank)[row * 80 + col] == grid[(row + 1) * 80 + col],
        row == 24 ==> scrolled_grid(grid, blank)[row * 80 + col] == blank,
{
}

/// The VGA text console state: cursor, color, and the owned model of the
/// 2000-cell character grid. The live memory-mapped buffer and the cursor
/// registers are kept in step with this model by the hardware layer outside
/// this crate. Single instance for the kernel's lifetime, guarded by the
/// spin lock.
pub struct VgaTextConsole {
    row: usize,
    col: usize,
    color: u8,
    cells: Vec<u16>,
}

impl View for VgaTextConsole {
    type V = ConsoleView;

    closed spec fn view(&self) -> ConsoleView {
        ConsoleView {
            row: self.row as int,
            col: self.col as int,
            color: self.color,
            grid: self.cells@,
        }
    }
}

impl VgaTextConsole {
    pub open spec fn wf(&self) -> bool {
        self@.wf()
    }

    /// A console at the origin in light gray on black, its model grid
    /// zeroed. What the glass shows before the first clear is whatever the
    /// hardware buffer held.
    pub fn new() -> (console: Self)
        ensures
            console.wf(),
            console@.row == 0,
            console@.col == 0,
            console@.color == spec_color_code(7, 0),
            forall|i: int| 0 <= i < 2000 ==> console@.grid[i] == 0u16,
    {
        let mut cells: Vec<u16> = Vec::new();
        let mut i: usize = 0;
        while i < HEIGHT * WIDTH
            invariant
                i <= 2000,
                cells@.len() == i,
                forall|j: int| 0 <= j < i ==> cells@[j] == 0u16,
            decreases 2000 - i,
        {
            cells.push(0u16);
            i = i + 1;
        }
        VgaTextConsole {
            row: 0,
            col: 0,
            color: color_code(vga_color::LIGHT_GRAY, vga_color::BLACK),
            cells,
        }
    }

    pub fn get_color_code(&self) -> (color: u8)
        ensures
            color == self@.color,
    {
        self.color
    }

    /// A cell value under the current color.
    pub fn pack(&self, ch: u8) -> (cell: u16)
        ensures
            cell == pack_cell(self@.color, ch),
    {
        ((self.color as u16) << 8) | (ch as u16)
    }

    /// The value the hardware cursor register pair is programmed with after
    /// every write: the cell offset `row * WIDTH + col`.
    pub fn cursor_pos(&self) -> (pos: u16)
        requires
            self.wf(),
        ensures
            pos == self@.row * 80 + self@.col,
    {
        (self.row * WIDTH + self.col) as u16
    }

    /// One cell of the grid model, for the hardware layer that mirrors it
    /// into the memory-mapped buffer.
    pub fn cell(&self, row: usize, col: usize) -> (value: u16)
        requires
            self.wf(),
            row < 25,
            col < 80,
        ensures
            value == self@.grid[row as int * 80 + col as int],
    {
        self.cells[row * WIDTH + col]
    }

    fn write_cell(&mut self, row: usize, col: usize, value: u16)
        requires
            old(self).wf(),
            row < 25,
            col < 80,
        ensures
            final(self)@.grid == old(self)@.grid.update(row as int * 80 + col as int, value),
            final(self)@.row == old(self)@.row,
            final(self)@.col == old(self)@.col,
            final(self)@.color == old(self)@.color,
    {
        let idx = row * WIDTH + col;
        self.cells[idx] = value;
    }

    fn clear_row(&mut self, row: usize)
        requires
            old(self).wf(),
            row < 25,
        ensures
            final(self)@.row == old(self)@.row,
            final(self)@.col == old(self)@.col,
            final(self)@.color == old(self)@.color,
            final(self)@.grid.len() == 2000,
            forall|i: int|
                0 <= i < 2000 ==> final(self)@.grid[i] == (if row as int * 80 <= i < row as int
                    * 80 + 80 {
                    blank_cell(old(self)@.color)
                } else {
                    old(self)@.grid[i]
                }),
    {
        let blank = self.pack(0x20);
        let mut col: usize = 0;
        while col < WIDTH
            invariant
                col <= 80,
                row < 25,
                blank == blank_cell(old(self)@.color),
                self@.row == old(self)@.row,
                self@.col == old(self)@.col,
                self@.color == old(self)@.color,
                old(self).wf(),
                self@.grid.len() == 2000,
                forall|i: int|
                    0 <= i < 2000 ==> self@.grid[i] == (if row as int * 80 <= i < row as int * 80
                        + col {
                        blank_cell(old(self)@.color)
                    } else {
                        old(self)@.grid[i]
                    }),
            decreases 80 - col,
        {
            self.write_cell(row, col, blank);
            col = col + 1;
        }
    }

    /// Newline/advance: column home, then either one row down or, on the
    /// last row, the full-buffer scroll with the freed row blanked.
    fn newline(&mut self)
        requires
            old(self).wf(),
        ensures
            final(self).wf(),
            final(self)@ == newline_view(old(self)@),
    {
        self.col = 0;
        if self.row < HEIGHT - 1 {
            self.row = self.row + 1;
            proof {
                assert(self@ =~~= newline_view(old(self)@));
            }
        } else {
            let mut r: usize = 1;
            while r < HEIGHT
                invariant
                    1 <= r <= 25,
                    self@.row == 24,
                    self@.col == 0,
                    self@.color == old(self)@.color,
                    old(self).wf(),
                    old(self)@.row == 24,
                    self@.grid.len() == 2000,
                    forall|i: int|
                        0 <= i < (r - 1) * 80 ==> self@.grid[i] == old(self)@.grid[i + 80],
                    forall|i: int|
                        (r - 1) * 80 <= i < 2000 ==> self@.grid[i] == old(self)@.grid[i],
                decreases 25 - r,
            {
                let mut c: usize = 0;
                while c < WIDTH
                    invariant
                        1 <= r < 25,
                        c <= 80,
                        self@.row == 24,
                        self@.col == 0,
                        self@.color == old(self)@.color,
                        old(self).wf(),
                        self@.grid.len() == 2000,
                        forall|i: int|
                            0 <= i < (r - 1) * 80 + c ==> self@.grid[i] == old(self)@.grid[i
                                + 80],
                        forall|i: int|
                            (r - 1) * 80 + c <= i < 2000 ==> self@.grid[i] == old(self)@.grid[i],
                    decreases 80 - c,
                {
                    let moved = self.cell(r, c);
                    self.write_cell(r - 1, c, moved);
                    c = c + 1;
                }
                r = r + 1;
            }
            self.clear_row(HEIGHT - 1);
            proof {
                assert(self@.grid =~= scrolled_grid(old(self)@.grid, blank_cell(old(self)@.color)));
                assert(self@ =~~= newline_view(old(self)@));
            }
        }
    }

    /// Writes a byte sequence in order through `write_byte`.
    pub fn write_bytes(&mut self, bytes: &[u8])
        requires
            old(self).wf(),
        ensures
            final(self).wf(),
            final(self)@ == write_bytes_view(old(self)@, bytes@),
    {
        let mut i: usize = 0;
        while i < bytes.len()
            invariant
                i <= bytes@.len(),
                self.wf(),
                self@ == write_bytes_view(old(self)@, bytes@.take(i as int)),
            decreases bytes@.len() - i,
        {
            let ghost prefix = bytes@.take(i as int);
            self.write_byte(bytes[i]);
            proof {
                lemma_write_bytes_view_push(old(self)@, prefix, bytes@[i as int]);
                assert(bytes@.take(i + 1) =~= prefix.push(bytes@[i as int]));
            }
            i = i + 1;
        }
        proof {
            assert(bytes@.take(bytes@.len() as int) =~= bytes@);
        }
    }

    /// Backspace: steps the cursor back and blanks the cell it lands on;
    /// wraps to the end of the previous row at a line start; does nothing but
    /// the cursor-register refresh at the top-left corner.
    pub fn backspace(&mut self)
        requires
            old(self).wf(),
        ensures
            final(self).wf(),
            final(self)@ == backspace_view(old(self)@),
    {
        if self.col > 0 {
            self.col = self.col - 1;
        } else if self.row > 0 {
            self.row = self.row - 1;
            self.col = WIDTH - 1;
        } else {
            // top-left corner: position unchanged, no cell mutation; only
            // the hardware cursor refresh happens, outside this crate
            return ;
        }
        let row = self.row;
        let col = self.col;
        let blank = self.pack(0x20);
        self.write_cell(row, col, blank);
        proof {
            assert(self@ =~~= backspace_view(old(self)@));
        }
    }
}

impl Console for VgaTextConsole {
    open spec fn console_wf(&self) -> bool {
        self.wf()
    }

    open spec fn console_view(&self) -> ConsoleView {
        self@
    }

    fn clear_screen(&mut self) {
        let mut row: usize = 0;
        while row < HEIGHT
            invariant
                row <= 25,
                self@.row == old(self)@.row,
                self@.col == old(self)@.col,
                self@.color == old(self)@.color,
                old(self).wf(),
                self@.grid.len() == 2000,
                forall|i: int|
                    0 <= i < 2000 ==> self@.grid[i] == (if i < row * 80 {
                        blank_cell(old(self)@.color)
                    } else {
                        old(self)@.grid[i]
                    }),
            decreases 25 - row,
        {
            self.clear_row(row);
            row = row + 1;
        }
        self.col = 0;
        self.row = 0;
        proof {
            assert(self@.grid =~= cleared_view(old(self)@).grid);
            assert(self@ =~~= cleared_view(old(self)@));
        }
    }

    fn set_color(&mut self, fg: u8, bg: u8) {
        self.color = color_code(fg, bg);
        proof {
            assert(self@ =~~= (ConsoleView { color: spec_color_code(fg, bg), ..old(self)@ }));
        }
    }

    fn write_byte(&mut self, b: u8) {
        if b == 0x0A {
            self.newline();
        } else {
            if self.col >= WIDTH {
                self.newline();
            }
            let row = self.row;
            let col = self.col;
            let packed = self.pack(b);
            self.write_cell(row, col, packed);
            self.col = col + 1;
            proof {
                assert(self@ =~~= write_byte_view(old(self)@, b));
            }
        }
        // every branch ends with the hardware cursor refreshed from
        // cursor_pos(); the CRTC port writes live outside this crate
    }

    fn write_str(&mut self, s: &str) {
        let bytes = s.as_bytes();
        let mut i: usize = 0;
        while i < bytes.len()
            invariant
                i <= bytes@.len(),
                bytes@ == s.spec_bytes(),
                self.wf(),
                self@ == write_bytes_view(old(self)@, filtered_bytes(bytes@.take(i as int))),
            decreases bytes@.len() - i,
        {
            let ghost prefix = filtered_bytes(bytes@.take(i as int));
            let b = bytes[i];
            if (0x20 <= b && b <= 0x7E) || b == 0x0A {
                self.write_byte(b);
            } else {
                // substitute a placeholder glyph for unrecognized bytes
                self.write_byte(0xFE);
            }
            proof {
                lemma_write_bytes_view_push(old(self)@, prefix, crate::console::spec_echo_substitute(bytes@[i as int]));
                assert(filtered_bytes(bytes@.take(i + 1)) =~= prefix.push(
                    crate::console::spec_echo_substitute(bytes@[i as int]),
                ));
            }
            i = i + 1;
        }
        proof {
            assert(bytes@.take(bytes@.len() as int) =~= bytes@);
        }
    }
}

} // verus!
