//! Console abstraction and the locked access paths to the one console
//! instance.
//!
//! [`Console`] is the interface the rest of the kernel writes through; the
//! VGA text driver is its one backend today, and a later backend (a serial
//! console, say) would slot in behind the same trait. The free functions
//! here take the lock-guarded console explicitly — the kernel threads it
//! through from startup instead of reaching for an ambient global — and use
//! the non-blocking lock attempt, so a write against a busy console is
//! silently dropped rather than stalling the caller. That is the designed
//! behavior for best-effort diagnostic paths, never an error.

use crate::keyboard::{spec_printable_byte, KeyEvent};
use crate::spinlock::{SpinGuard, SpinLock};
use crate::vga_text::{
    backspace_view, cleared_view, spec_color_code, write_byte_view, write_bytes_view, ConsoleView,
    VgaTextConsole,
};
use vstd::prelude::*;
use vstd::string::StringSliceAdditionalSpecFns;

verus! {

/// A byte as the console renders it: printable ASCII and newline pass
/// through, anything else becomes the placeholder glyph.
pub open spec fn spec_echo_substitute(b: u8) -> u8 {
    if (0x20 <= b <= 0x7E) || b == 0x0A {
        b
    } else {
        0xFE
    }
}

/// A whole byte sequence as the console renders it.
pub open spec fn filtered_bytes(bytes: Seq<u8>) -> Seq<u8> {
    bytes.map_values(|b: u8| spec_echo_substitute(b))
}

/// A text console: a cursor and color over a character grid. Writing is
/// byte-at-a-time; `write_str` additionally substitutes a placeholder glyph
/// for bytes outside printable ASCII, while the raw byte writer accepts any
/// value.
pub trait Console {
    /// The backend's well-formedness; established at construction and kept
    /// by every operation.
    spec fn console_wf(&self) -> bool;

    /// The backend's abstract grid state.
    spec fn console_view(&self) -> ConsoleView;

    /// Blanks every cell under the current color and homes the cursor.
    fn clear_screen(&mut self)
        requires
            old(self).console_wf(),
        ensures
            final(self).console_wf(),
            final(self).console_view() == cleared_view(old(self).console_view()),
    ;

    /// Sets the color byte from a foreground and background nibble.
    fn set_color(&mut self, fg: u8, bg: u8)
        requires
            old(self).console_wf(),
        ensures
            final(self).console_wf(),
            final(self).console_view() == (ConsoleView {
                color: spec_color_code(fg, bg),
                ..old(self).console_view()
            }),
    ;

    /// Writes one raw byte: newline advances, anything else is placed at the
    /// cursor, wrapping first if the column had reached the width.
    fn write_byte(&mut self, b: u8)
        requires
            old(self).console_wf(),
        ensures
            final(self).console_wf(),
            final(self).console_view() == write_byte_view(old(self).console_view(), b),
    ;

    /// Writes a string, substituting the placeholder glyph for every byte
    /// that is neither printable ASCII nor newline.
    fn write_str(&mut self, s: &str)
        requires
            old(self).console_wf(),
        ensures
            final(self).console_wf(),
            final(self).console_view() == write_bytes_view(
                old(self).console_view(),
                filtered_bytes(s.spec_bytes()),
            ),
    ;
}

/// The lock around the console is sound and, whenever it is free, holds a
/// well-formed console.
pub open spec fn lock_ready(con: SpinLock<VgaTextConsole>) -> bool {
    &&& con.wf()
    &&& !con.is_held() ==> con.contents()->Some_0.wf()
}

/// The console behind a free lock.
pub open spec fn locked_console(con: SpinLock<VgaTextConsole>) -> ConsoleView {
    con.contents()->Some_0@
}

/// One non-blocking pass over the console: acquires the lock if free,
/// applies `f` to the console, releases; does nothing at all when the lock
/// is held.
pub fn try_with_console<F: FnOnce(VgaTextConsole) -> VgaTextConsole>(
    con: &mut SpinLock<VgaTextConsole>,
    f: F,
)
    requires
        lock_ready(*old(con)),
        forall|c: VgaTextConsole| c.wf() ==> #[trigger] f.requires((c,)),
        forall|c: VgaTextConsole, r: VgaTextConsole|
            c.wf() && #[trigger] f.ensures((c,), r) ==> r.wf(),
    ensures
        lock_ready(*final(con)),
        old(con).is_held() ==> *final(con) == *old(con),
        !old(con).is_held() ==> !final(con).is_held() && f.ensures(
            (old(con).contents()->Some_0,),
            final(con).contents()->Some_0,
        ),
{
    if let Some(guard) = con.try_lock() {
        let updated = f(guard.value);
        con.unlock(SpinGuard { value: updated });
    }
}

/// Readies the console for use: light gray on black, screen cleared. Dropped
/// silently if the console is busy.
pub fn init(con: &mut SpinLock<VgaTextConsole>)
    requires
        lock_ready(*old(con)),
    ensures
        lock_ready(*final(con)),
        old(con).is_held() ==> *final(con) == *old(con),
        !old(con).is_held() ==> !final(con).is_held() && locked_console(*final(con))
            == cleared_view(
            (ConsoleView { color: spec_color_code(0x07, 0x00), ..locked_console(*old(con)) }),
        ),
{
    if let Some(mut guard) = con.try_lock() {
        guard.value.set_color(0x07, 0x00);
        guard.value.clear_screen();
        con.unlock(guard);
    }
}

/// Writes one byte through the lock; dropped silently if the console is
/// busy.
pub fn write_byte(con: &mut SpinLock<VgaTextConsole>, b: u8)
    requires
        lock_ready(*old(con)),
    ensures
        lock_ready(*final(con)),
        old(con).is_held() ==> *final(con) == *old(con),
        !old(con).is_held() ==> !final(con).is_held() && locked_console(*final(con))
            == write_byte_view(locked_console(*old(con)), b),
{
    if let Some(mut guard) = con.try_lock() {
        guard.value.write_byte(b);
        con.unlock(guard);
    }
}

/// Writes a string's raw bytes through the lock, without the placeholder
/// substitution of [`Console::write_str`]; dropped silently if the console
/// is busy.
pub fn write_str_fast(con: &mut SpinLock<VgaTextConsole>, s: &str)
    requires
        lock_ready(*old(con)),
    ensures
        lock_ready(*final(con)),
        old(con).is_held() ==> *final(con) == *old(con),
        !old(con).is_held() ==> !final(con).is_held() && locked_console(*final(con))
            == write_bytes_view(locked_console(*old(con)), s.spec_bytes()),
{
    if let Some(mut guard) = con.try_lock() {
        guard.value.write_bytes(s.as_bytes());
        con.unlock(guard);
    }
}

/// Erases one position through the lock; dropped silently if the console is
/// busy.
pub fn backspace(con: &mut SpinLock<VgaTextConsole>)
    requires
        lock_ready(*old(con)),
    ensures
        lock_ready(*final(con)),
        old(con).is_held() ==> *final(con) == *old(con),
        !old(con).is_held() ==> !final(con).is_held() && locked_console(*final(con))
            == backspace_view(locked_console(*old(con))),
{
    if let Some(mut guard) = con.try_lock() {
        guard.value.backspace();
        con.unlock(guard);
    }
}

/// Runs `f` with the color temporarily set to (`fg`, `bg`), then restores
/// the previous color; dropped silently if the console is busy.
pub fn with_color<F: FnOnce(VgaTextConsole) -> VgaTextConsole>(
    con: &mut SpinLock<VgaTextConsole>,
    fg: u8,
    bg: u8,
    f: F,
)
    requires
        lock_ready(*old(con)),
        forall|c: VgaTextConsole| c.wf() ==> #[trigger] f.requires((c,)),
        forall|c: VgaTextConsole, r: VgaTextConsole|
            c.wf() && #[trigger] f.ensures((c,), r) ==> r.wf(),
    ensures
        lock_ready(*final(con)),
        old(con).is_held() ==> *final(con) == *old(con),
        !old(con).is_held() ==> !final(con).is_held() && (exists|
            painted: VgaTextConsole,
            done: VgaTextConsole,
        |
            {
                &&& painted@ == (ConsoleView {
                    color: spec_color_code(fg, bg),
                    ..locked_console(*old(con))
                })
                &&& f.ensures((painted,), done)
                &&& locked_console(*final(con)) == (ConsoleView {
                    color: locked_console(*old(con)).color,
                    ..done@
                })
            }),
{
    if let Some(mut guard) = con.try_lock() {
        let previous = guard.value.get_color_code();
        guard.value.set_color(fg, bg);
        let ghost painted = guard.value;
        let mut done = f(guard.value);
        let ghost after_f = done;
        let old_fg = previous & 0x0F;
        let old_bg = (previous >> 4) & 0x0F;
        done.set_color(old_fg, old_bg);
        proof {
            // restoring from the saved nibbles reassembles the saved byte
            assert(spec_color_code(previous & 0x0F, (previous >> 4) & 0x0F) == previous)
                by (bit_vector);
        }
        con.unlock(SpinGuard { value: done });
        proof {
            assert(painted@ == (ConsoleView {
                color: spec_color_code(fg, bg),
                ..locked_console(*old(con))
            }) && f.ensures((painted,), after_f) && locked_console(*con) == (ConsoleView {
                color: locked_console(*old(con)).color,
                ..after_f@
            }));
        }
    }
}

/// The console action for one decoded key event, as the kernel loop performs
/// it: a pressed Backspace erases, any other echoable byte is written,
/// everything else (releases, modifier-only and unrecognized codes) touches
/// nothing. Uses the non-blocking paths, so a busy console drops the action.
pub fn echo_event(con: &mut SpinLock<VgaTextConsole>, event: KeyEvent)
    requires
        lock_ready(*old(con)),
    ensures
        lock_ready(*final(con)),
        old(con).is_held() || spec_printable_byte(event) is None ==> *final(con) == *old(con),
        !old(con).is_held() && spec_printable_byte(event) == Some(0x08u8) ==> !final(con).is_held()
            && locked_console(*final(con)) == backspace_view(locked_console(*old(con))),
        !old(con).is_held() && spec_printable_byte(event) is Some && spec_printable_byte(event)
            != Some(0x08u8) ==> !final(con).is_held() && locked_console(*final(con))
            == write_byte_view(
            locked_console(*old(con)),
            spec_printable_byte(event)->Some_0,
        ),
{
    match event.printable_byte() {
        Some(b) => {
            if b == 0x08 {
                backspace(con);
            } else {
                write_byte(con, b);
            }
        },
        None => {},
    }
}

} // verus!
