//! Translation of key presses and typed characters into terminal input.
use vstd::prelude::*;

verus! {

/// Escape, the byte that starts every control sequence.
pub const ESC: u8 = 0x1B;

/// The keys that have a meaning of their own; every other key is `Other`.
#[derive(Clone, Copy, Debug, PartialEq, Eq)]
pub enum Key {
    Backspace,
    Tab,
    Enter,
    Escape,
    Up,
    Down,
    Right,
    Left,
    End,
    Home,
    Insert,
    Delete,
    PageUp,
    PageDown,
    Other,
}

/// The modifier keys held down.
#[derive(Clone, Copy, Debug, PartialEq, Eq)]
pub struct Modifiers {
    pub shift: bool,
    pub control: bool,
    pub alt: bool,
    pub logo: bool,
}

impl Modifiers {
    /// No modifier held.
    pub fn empty() -> (r: Modifiers)
        ensures
            !r.shift && !r.control && !r.alt && !r.logo,
    {
        Modifiers { shift: false, control: false, alt: false, logo: false }
    }
}

/// A scroll command for the terminal session.
#[derive(Clone, Copy, Debug, PartialEq, Eq)]
pub enum ScrollCommand {
    Top,
    Bottom,
    PageUp,
    PageDown,
    /// Scroll by a signed number of lines.
    Delta(i64),
}

/// What a key press asks of the terminal session.
#[derive(Debug, PartialEq, Eq)]
pub enum KeyAction {
    Input(Vec<u8>),
    Scroll(ScrollCommand),
    Ignored,
}

/// `ESC [` followed by `tail`.
pub open spec fn csi(tail: Seq<u8>) -> Seq<u8> {
    seq![ESC, 0x5Bu8] + tail
}

/// The bytes sent for `key`; `shift` matters only for Tab.
pub open spec fn key_bytes(key: Key, shift: bool) -> Seq<u8> {
    match key {
        Key::Backspace => seq![0x08u8],
        Key::Tab => if shift { csi(seq![0x5Au8]) } else { seq![0x09u8] },
        Key::Enter => seq![0x0Au8],
        Key::Escape => seq![ESC],
        Key::Up => csi(seq![0x41u8]),
        Key::Down => csi(seq![0x42u8]),
        Key::Right => csi(seq![0x43u8]),
        Key::Left => csi(seq![0x44u8]),
        Key::End => csi(seq![0x46u8]),
        Key::Home => csi(seq![0x48u8]),
        Key::Insert => csi(seq![0x32u8, 0x7Eu8]),
        Key::Delete => csi(seq![0x33u8, 0x7Eu8]),
        Key::PageUp => csi(seq![0x35u8, 0x7Eu8]),
        Key::PageDown => csi(seq![0x36u8, 0x7Eu8]),
        Key::Other => Seq::empty(),
    }
}

/// The local scroll that Shift turns `key` into, if any.
pub open spec fn shift_scroll(key: Key) -> Option<ScrollCommand> {
    match key {
        Key::End => Some(ScrollCommand::Bottom),
        Key::Home => Some(ScrollCommand::Top),
        Key::PageUp => Some(ScrollCommand::PageUp),
        Key::PageDown => Some(ScrollCommand::PageDown),
        _ => None,
    }
}

/// Model of a key action, with the bytes as a sequence.
pub enum KeyActionModel {
    Input(Seq<u8>),
    Scroll(ScrollCommand),
    Ignored,
}

impl View for KeyAction {
    type V = KeyActionModel;

    open spec fn view(&self) -> KeyActionModel {
        match self {
            KeyAction::Input(b) => KeyActionModel::Input(b@),
            KeyAction::Scroll(c) => KeyActionModel::Scroll(*c),
            KeyAction::Ignored => KeyActionModel::Ignored,
        }
    }
}

/// What pressing `key` with `mods` held does.
pub open spec fn key_action(key: Key, mods: Modifiers) -> KeyActionModel {
    if key == Key::Other {
        KeyActionModel::Ignored
    } else if mods.shift && shift_scroll(key).is_some() {
        KeyActionModel::Scroll(shift_scroll(key).unwrap())
    } else {
        KeyActionModel::Input(key_bytes(key, mods.shift))
    }
}

fn csi_bytes(a: u8) -> (r: Vec<u8>)
    ensures
        r@ == csi(seq![a]),
{
    let r = vec![ESC, 0x5Bu8, a];
    assert(r@ =~= csi(seq![a]));
    r
}

fn csi_tilde(a: u8) -> (r: Vec<u8>)
    ensures
        r@ == csi(seq![a, 0x7Eu8]),
{
    let r = vec![ESC, 0x5Bu8, a, 0x7Eu8];
    assert(r@ =~= csi(seq![a, 0x7Eu8]));
    r
}

fn one_byte(a: u8) -> (r: Vec<u8>)
    ensures
        r@ == seq![a],
{
    let r = vec![a];
    assert(r@ =~= seq![a]);
    r
}

/// Translates a named key press into terminal input or a local scroll.
pub fn translate_key(key: Key, mods: Modifiers) -> (r: KeyAction)
    ensures
        r@ == key_action(key, mods),
{
    match key {
        Key::Backspace => KeyAction::Input(one_byte(0x08)),
        Key::Tab => if mods.shift {
            KeyAction::Input(csi_bytes(0x5A))
        } else {
            KeyAction::Input(one_byte(0x09))
        },
        Key::Enter => KeyAction::Input(one_byte(0x0A)),
        Key::Escape => KeyAction::Input(one_byte(ESC)),
        Key::Up => KeyAction::Input(csi_bytes(0x41)),
        Key::Down => KeyAction::Input(csi_bytes(0x42)),
        Key::Right => KeyAction::Input(csi_bytes(0x43)),
        Key::Left => KeyAction::Input(csi_bytes(0x44)),
        Key::End => if mods.shift {
            KeyAction::Scroll(ScrollCommand::Bottom)
        } else {
            KeyAction::Input(csi_bytes(0x46))
        },
        Key::Home => if mods.shift {
            KeyAction::Scroll(ScrollCommand::Top)
        } else {
            KeyAction::Input(csi_bytes(0x48))
        },
        Key::Insert => KeyAction::Input(csi_tilde(0x32)),
        Key::Delete => KeyAction::Input(csi_tilde(0x33)),
        Key::PageUp => if mods.shift {
            KeyAction::Scroll(ScrollCommand::PageUp)
        } else {
            KeyAction::Input(csi_tilde(0x35))
        },
        Key::PageDown => if mods.shift {
            KeyAction::Scroll(ScrollCommand::PageDown)
        } else {
            KeyAction::Input(csi_tilde(0x36))
        },
        Key::Other => KeyAction::Ignored,
    }
}

/// A control character: general category Cc, the code points U+0000 to
/// U+001F and U+007F to U+009F.
pub open spec fn is_control(c: char) -> bool {
    (c as u32) <= 0x1F || (0x7F <= (c as u32) && (c as u32) <= 0x9F)
}

/// The UTF-8 encoding of `c`.
pub open spec fn utf8(c: char) -> Seq<u8> {
    let cp = c as u32 as int;
    if cp < 0x80 {
        seq![cp as u8]
    } else if cp < 0x800 {
        seq![(0xC0 + cp / 64) as u8, (0x80 + cp % 64) as u8]
    } else if cp < 0x10000 {
        seq![(0xE0 + cp / 4096) as u8, (0x80 + (cp / 64) % 64) as u8, (0x80 + cp % 64) as u8]
    } else {
        seq![
            (0xF0 + cp / 262144) as u8,
            (0x80 + (cp / 4096) % 64) as u8,
            (0x80 + (cp / 64) % 64) as u8,
            (0x80 + cp % 64) as u8,
        ]
    }
}

/// The bytes sent for a typed character, or `None` where it is dropped.
pub open spec fn char_bytes(c: char, mods: Modifiers) -> Option<Seq<u8>> {
    if mods.logo {
        None
    } else if mods.control {
        if is_control(c) { Some(utf8(c)) } else { None }
    } else if mods.alt {
        if !is_control(c) { Some(seq![ESC] + utf8(c)) } else { None }
    } else {
        if !is_control(c) { Some(utf8(c)) } else { None }
    }
}

/// Tells whether `c` is a control character.
pub fn control_char(c: char) -> (r: bool)
    ensures
        r == is_control(c),
{
    let cp = c as u32;
    cp <= 0x1F || (0x7F <= cp && cp <= 0x9F)
}

/// Appends the UTF-8 encoding of `c` to `out`.
pub fn push_utf8(out: &mut Vec<u8>, c: char)
    ensures
        final(out)@ == old(out)@ + utf8(c),
{
    let cp = c as u32;
    let ghost start = out@;
    if cp < 0x80 {
        out.push(cp as u8);
    } else if cp < 0x800 {
        out.push((0xC0 + cp / 64) as u8);
        out.push((0x80 + cp % 64) as u8);
    } else if cp < 0x10000 {
        out.push((0xE0 + cp / 4096) as u8);
        out.push((0x80 + (cp / 64) % 64) as u8);
        out.push((0x80 + cp % 64) as u8);
    } else {
        out.push((0xF0 + cp / 262144) as u8);
        out.push((0x80 + (cp / 4096) % 64) as u8);
        out.push((0x80 + (cp / 64) % 64) as u8);
        out.push((0x80 + cp % 64) as u8);
    }
    assert(out@ =~= start + utf8(c));
}

/// Translates a typed character under the held modifiers: Super drops it;
/// Control passes control characters only; Alt prefixes other characters
/// with Escape; with none held, other characters pass as they are.
pub fn translate_char(c: char, mods: Modifiers) -> (r: Option<Vec<u8>>)
    ensures
        r matches Some(b) ==> char_bytes(c, mods) == Some(b@),
        r is None ==> char_bytes(c, mods) is None,
{
    let ctl = control_char(c);
    if mods.logo {
        None
    } else if mods.control {
        if ctl {
            let mut out: Vec<u8> = Vec::new();
            push_utf8(&mut out, c);
            assert(out@ =~= utf8(c));
            Some(out)
        } else {
            None
        }
    } else if mods.alt {
        if !ctl {
            let mut out: Vec<u8> = Vec::new();
            out.push(ESC);
            push_utf8(&mut out, c);
            Some(out)
        } else {
            None
        }
    } else if !ctl {
        let mut out: Vec<u8> = Vec::new();
        push_utf8(&mut out, c);
        assert(out@ =~= utf8(c));
        Some(out)
    } else {
        None
    }
}

} // verus!
