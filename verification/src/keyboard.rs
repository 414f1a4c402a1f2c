//! PS/2 scancode decoder.
//!
//! One scancode byte arrives per poll. Bit 7 set marks a break (release)
//! code; the low 7 bits select the same decoding as the make code. Shift
//! make codes set the shift modifier, their break codes clear it; Enter,
//! Backspace and Tab are fixed control codes; every other scancode is looked
//! up in a 256-entry printable table chosen by the current shift state, and
//! accepted only at or above the printable-ASCII threshold. Codes that
//! resolve to nothing are reported as unrecognized — expected for unmapped
//! keys, not an error.
//!
//! The lookup tables are static data supplied by the caller; their literal
//! contents are not part of this crate.

use vstd::prelude::*;

verus! {

/// Resolved identity of one decoded key.
#[derive(Copy, Clone, Debug, PartialEq, Eq, Structural)]
pub enum KeyCode {
    /// Printable ASCII.
    Char(u8),
    Enter,
    Backspace,
    Tab,
    /// Modifier-only or unmapped; carries the raw scancode.
    Unknown(u8),
}

/// Bitmask of currently-held modifier keys. The decoder tracks only shift
/// today; the other bits are reserved and never set by it.
#[derive(Copy, Clone, Debug, PartialEq, Eq, Structural)]
pub struct Modifiers(u8);

impl Modifiers {
    pub const SHIFT: u8 = 1 << 0;

    pub const CTRL: u8 = 1 << 1;

    pub const ALT: u8 = 1 << 2;

    pub const CAPS: u8 = 1 << 3;

    /// The raw bitmask.
    pub closed spec fn spec_bits(&self) -> u8 {
        self.0
    }

    pub fn empty() -> (mods: Self)
        ensures
            mods.spec_bits() == 0,
    {
        Modifiers(0)
    }

    pub fn insert(&mut self, mask: u8)
        ensures
            final(self).spec_bits() == old(self).spec_bits() | mask,
    {
        self.0 = self.0 | mask;
    }

    pub fn remove(&mut self, mask: u8)
        ensures
            final(self).spec_bits() == old(self).spec_bits() & !mask,
    {
        self.0 = self.0 & !mask;
    }

    pub fn contains(self, mask: u8) -> (held: bool)
        ensures
            held == (self.spec_bits() & mask != 0),
    {
        (self.0 & mask) != 0
    }

    pub fn bits(self) -> (raw: u8)
        ensures
            raw == self.spec_bits(),
    {
        self.0
    }
}

/// Immutable snapshot of one decoded scancode: the resolved identity, the
/// modifier bitmask after this event's own modifier update, and the
/// press/release flag.
#[derive(Copy, Clone, Debug)]
pub struct KeyEvent {
    pub code: KeyCode,
    pub mods: Modifiers,
    pub pressed: bool,
}

/// The byte a key event echoes to the console, when it has one: a pressed
/// printable character is itself, Enter becomes newline, Backspace the
/// backspace control byte, Tab the tab byte; releases and unrecognized codes
/// echo nothing.
pub open spec fn spec_printable_byte(event: KeyEvent) -> Option<u8> {
    if !event.pressed {
        None
    } else {
        match event.code {
            KeyCode::Char(b) => Some(b),
            KeyCode::Enter => Some(0x0A),
            KeyCode::Backspace => Some(0x08),
            KeyCode::Tab => Some(0x09),
            KeyCode::Unknown(_) => None,
        }
    }
}

impl KeyEvent {
    /// Returns the byte to echo (ASCII / Enter / Tab / Backspace) when
    /// relevant.
    pub fn printable_byte(self) -> (echo: Option<u8>)
        ensures
            echo == spec_printable_byte(self),
    {
        match self.code {
            KeyCode::Char(b) if self.pressed => Some(b),
            KeyCode::Enter if self.pressed => Some(0x0A),
            KeyCode::Backspace if self.pressed => Some(0x08),
            KeyCode::Tab if self.pressed => Some(0x09),
            _ => None,
        }
    }
}

/// The US scancode-to-ASCII lookup tables, one entry per scancode byte:
/// plain and shifted variants. Static data supplied to the decoder.
pub struct Keymap {
    pub plain: Vec<u8>,
    pub shifted: Vec<u8>,
}

impl Keymap {
    /// Both tables cover every possible scancode byte.
    pub open spec fn wf(&self) -> bool {
        self.plain@.len() == 256 && self.shifted@.len() == 256
    }

    pub fn new(plain: Vec<u8>, shifted: Vec<u8>) -> (map: Keymap)
        requires
            plain@.len() == 256,
            shifted@.len() == 256,
        ensures
            map.wf(),
            map.plain@ == plain@,
            map.shifted@ == shifted@,
    {
        Keymap { plain, shifted }
    }
}

/// The table lookup for a make code that is neither a modifier nor a fixed
/// control code: the entry of the table picked by the shift state, accepted
/// as printable only at or above the ASCII space.
pub open spec fn spec_translate_printable(sc: u8, shift: bool, map: Keymap) -> Option<KeyCode>
    recommends
        map.wf(),
{
    let b = if shift {
        map.shifted@[sc as int]
    } else {
        map.plain@[sc as int]
    };
    if b >= 0x20 {
        Some(KeyCode::Char(b))
    } else {
        None
    }
}

pub fn translate_printable(sc: u8, mods: Modifiers, map: &Keymap) -> (code: Option<KeyCode>)
    requires
        map.wf(),
    ensures
        code == spec_translate_printable(sc, mods.spec_bits() & Modifiers::SHIFT != 0, *map),
{
    let shifted = mods.contains(Modifiers::SHIFT);
    let b = if shifted {
        map.shifted[sc as usize]
    } else {
        map.plain[sc as usize]
    };
    if b >= 0x20 {
        Some(KeyCode::Char(b))
    } else {
        None
    }
}

/// Whether a scancode byte is a break (key-release) code: bit 7 set.
pub fn is_break(sc: u8) -> (brk: bool)
    ensures
        brk == (sc & 0x80 != 0),
{
    sc & 0x80 != 0
}

/// The modifier bits after a make code: shift make codes set shift,
/// everything else leaves the mask alone.
pub open spec fn spec_mods_after_make(mods: u8, sc: u8) -> u8 {
    if sc == 0x2A || sc == 0x36 {
        mods | Modifiers::SHIFT
    } else {
        mods
    }
}

/// The modifier bits after a break code: shift break codes clear shift,
/// everything else leaves the mask alone.
pub open spec fn spec_mods_after_break(mods: u8, sc: u8) -> u8 {
    if sc & 0x7F == 0x2A || sc & 0x7F == 0x36 {
        mods & !Modifiers::SHIFT
    } else {
        mods
    }
}

/// The identity a make code resolves to, given the modifier bits it was
/// decoded under. Modifier keys carry no printable identity and come out
/// unrecognized.
pub open spec fn spec_make_code(mods: u8, sc: u8, map: Keymap) -> KeyCode
    recommends
        map.wf(),
{
    if sc == 0x2A || sc == 0x36 {
        KeyCode::Unknown(sc)
    } else if sc == 0x1C {
        KeyCode::Enter
    } else if sc == 0x0E {
        KeyCode::Backspace
    } else if sc == 0x0F {
        KeyCode::Tab
    } else {
        match spec_translate_printable(sc, mods & Modifiers::SHIFT != 0, map) {
            Some(code) => code,
            None => KeyCode::Unknown(sc),
        }
    }
}

/// The identity a break code resolves to: the low 7 bits select the decoding
/// and the event carries the full raw byte where nothing matches.
pub open spec fn spec_break_code(sc: u8) -> KeyCode {
    if sc & 0x7F == 0x1C {
        KeyCode::Enter
    } else if sc & 0x7F == 0x0E {
        KeyCode::Backspace
    } else if sc & 0x7F == 0x0F {
        KeyCode::Tab
    } else {
        KeyCode::Unknown(sc)
    }
}

/// Long-lived decoder state: the currently-held modifiers, mutated on every
/// decoded scancode and never reset during normal operation.
pub struct State {
    pub mods: Modifiers,
}

impl State {
    pub fn new() -> (state: Self)
        ensures
            state.mods.spec_bits() == 0,
    {
        State { mods: Modifiers::empty() }
    }

    /// Decodes a make (press) code: updates the modifier mask, then emits a
    /// press event whose modifier snapshot already includes this key's own
    /// update.
    pub fn on_make(&mut self, sc: u8, map: &Keymap) -> (event: KeyEvent)
        requires
            map.wf(),
        ensures
            final(self).mods.spec_bits() == spec_mods_after_make(old(self).mods.spec_bits(), sc),
            event.pressed,
            event.mods == final(self).mods,
            event.code == spec_make_code(old(self).mods.spec_bits(), sc, *map),
    {
        match sc {
            0x2A | 0x36 => {
                self.mods.insert(Modifiers::SHIFT);
                KeyEvent { code: KeyCode::Unknown(sc), mods: self.mods, pressed: true }
            },
            0x1C => KeyEvent { code: KeyCode::Enter, mods: self.mods, pressed: true },
            0x0E => KeyEvent { code: KeyCode::Backspace, mods: self.mods, pressed: true },
            0x0F => KeyEvent { code: KeyCode::Tab, mods: self.mods, pressed: true },
            _ => {
                if let Some(code) = translate_printable(sc, self.mods, map) {
                    KeyEvent { code, mods: self.mods, pressed: true }
                } else {
                    KeyEvent { code: KeyCode::Unknown(sc), mods: self.mods, pressed: true }
                }
            },
        }
    }

    /// Decodes a break (release) code: updates the modifier mask, then emits
    /// a release event whose modifier snapshot already includes this key's
    /// own update.
    pub fn on_break(&mut self, sc: u8) -> (event: KeyEvent)
        ensures
            final(self).mods.spec_bits() == spec_mods_after_break(old(self).mods.spec_bits(), sc),
            !event.pressed,
            event.mods == final(self).mods,
            event.code == spec_break_code(sc),
    {
        match sc & 0x7F {
            0x2A | 0x36 => {
                self.mods.remove(Modifiers::SHIFT);
                KeyEvent { code: KeyCode::Unknown(sc), mods: self.mods, pressed: false }
            },
            0x1C => KeyEvent { code: KeyCode::Enter, mods: self.mods, pressed: false },
            0x0E => KeyEvent { code: KeyCode::Backspace, mods: self.mods, pressed: false },
            0x0F => KeyEvent { code: KeyCode::Tab, mods: self.mods, pressed: false },
            _ => KeyEvent { code: KeyCode::Unknown(sc), mods: self.mods, pressed: false },
        }
    }
}

/// Decodes the byte of one non-blocking poll, if the controller had one: no
/// byte means no event, a break byte goes to [`State::on_break`], a make byte
/// to [`State::on_make`]. Callers re-poll; nothing blocks here.
pub fn poll_once(st: &mut State, input: Option<u8>, map: &Keymap) -> (event: Option<KeyEvent>)
    requires
        map.wf(),
    ensures
        input is None ==> event is None && *final(st) == *old(st),
        input is Some ==> {
            let sc = input->Some_0;
            &&& event is Some
            &&& sc >= 0x80 ==> {
                &&& final(st).mods.spec_bits() == spec_mods_after_break(
                    old(st).mods.spec_bits(),
                    sc,
                )
                &&& !event->Some_0.pressed
                &&& event->Some_0.mods == final(st).mods
                &&& event->Some_0.code == spec_break_code(sc)
            }
            &&& sc < 0x80 ==> {
                &&& final(st).mods.spec_bits() == spec_mods_after_make(
                    old(st).mods.spec_bits(),
                    sc,
                )
                &&& event->Some_0.pressed
                &&& event->Some_0.mods == final(st).mods
                &&& event->Some_0.code == spec_make_code(old(st).mods.spec_bits(), sc, *map)
            }
        },
{
    match input {
        None => None,
        Some(sc) => {
            proof {
                // bit 7 of a byte is set exactly at and above 0x80
                assert((sc & 0x80 != 0) == (sc >= 0x80)) by (bit_vector);
            }
            Some(
                if is_break(sc) {
                    st.on_break(sc)
                } else {
                    st.on_make(sc, map)
                },
            )
        },
    }
}

} // verus!
