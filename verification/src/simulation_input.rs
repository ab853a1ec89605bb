use vstd::prelude::*;

use crate::input_types::{InputEventValue, Pressed};
use crate::text::str_eq;

verus! {

/// The primary pointer button as the simulation sees it: a press the user interface took
/// is not seen, and every press seen is matched by exactly one release.
#[derive(Copy, Clone, Debug, Default, PartialEq, Eq, Structural)]
pub struct SimulationPointerInput {
    pub down: bool,
}

/// A mouse click going down or up, as an event.
pub open spec fn click(pressed: bool) -> Option<InputEventValue> {
    Some(InputEventValue::MouseClick(if pressed { Pressed::Yes } else { Pressed::No }))
}

impl SimulationPointerInput {
    pub fn new() -> (r: SimulationPointerInput)
        ensures
            !r.down,
    {
        SimulationPointerInput { down: false }
    }

    /// The primary button went down (`pressed`) or up; `blocked` when the user interface
    /// took the press. Returns the click edge the simulation sees, if any.
    pub fn on_primary_button(&mut self, pressed: bool, blocked: bool) -> (r: Option<InputEventValue>)
        ensures
            pressed && (blocked || old(self).down) ==> r is None && final(self).down == old(self).down,
            pressed && !blocked && !old(self).down ==> r == click(true) && final(self).down,
            !pressed && old(self).down ==> r == click(false) && !final(self).down,
            !pressed && !old(self).down ==> r is None && !final(self).down,
    {
        if pressed {
            if blocked || self.down {
                return None;
            }
            self.down = true;
            Some(InputEventValue::MouseClick(Pressed::Yes))
        } else {
            self.release()
        }
    }

    /// Releases the button if the simulation saw it down.
    pub fn release(&mut self) -> (r: Option<InputEventValue>)
        ensures
            old(self).down ==> r == click(false),
            !old(self).down ==> r is None,
            !final(self).down,
    {
        if !self.down {
            return None;
        }
        self.down = false;
        Some(InputEventValue::MouseClick(Pressed::No))
    }

    /// Forgets the button without an edge.
    pub fn clear(&mut self)
        ensures
            !final(self).down,
    {
        self.down = false;
    }

    pub fn is_down(&self) -> (r: bool)
        ensures
            r == self.down,
    {
        self.down
    }
}

/// The physical keys held down, each with the logical key value it was pressed as; a
/// logical key is down while any physical key holds it.
#[derive(Clone, Debug, Default)]
pub struct KeyOwners {
    pub active: Vec<(u32, String)>,
}

/// The held physical keys, viewed.
pub open spec fn owners_view(v: Seq<(u32, String)>) -> Seq<(u32, Seq<char>)> {
    v.map_values(|p: (u32, String)| (p.0, p.1@))
}

/// Some physical key holds the logical key `key`.
pub open spec fn owned(o: Seq<(u32, Seq<char>)>, key: Seq<char>) -> bool {
    exists|i: int| 0 <= i < o.len() && o[i].1 == key
}

/// The physical key `scancode` is held.
pub open spec fn scancode_held(o: Seq<(u32, Seq<char>)>, scancode: u32) -> bool {
    exists|i: int| 0 <= i < o.len() && o[i].0 == scancode
}

/// A key event for the logical key `key`.
pub open spec fn key_event(pressed: bool, key: Seq<char>) -> (bool, Seq<char>) {
    (pressed, key)
}

/// A key event, viewed.
pub open spec fn keyboard_view(e: Option<InputEventValue>) -> Option<(bool, Seq<char>)> {
    match e {
        Some(InputEventValue::Keyboard { pressed, key }) => Some((pressed == Pressed::Yes, key@)),
        _ => None,
    }
}


/// The position of the physical key `scancode` among the held ones.
pub open spec fn scancode_index(o: Seq<(u32, Seq<char>)>, scancode: u32) -> int {
    choose|i: int| 0 <= i < o.len() && o[i].0 == scancode
}

/// A physical key goes down as the logical key `key`: the held keys after it, and the
/// logical key's edge unless another physical key already holds it.
pub open spec fn press_spec(o: Seq<(u32, Seq<char>)>, scancode: u32, key: Seq<char>) -> (
    Seq<(u32, Seq<char>)>,
    Option<(bool, Seq<char>)>,
) {
    (o.push((scancode, key)), if owned(o, key) { None } else { Some(key_event(true, key)) })
}

/// A physical key goes up: the held keys after it, and the logical key's edge once no
/// other physical key holds it.
pub open spec fn release_spec(o: Seq<(u32, Seq<char>)>, scancode: u32) -> (
    Seq<(u32, Seq<char>)>,
    Option<(bool, Seq<char>)>,
) {
    if scancode_held(o, scancode) {
        let i = scancode_index(o, scancode);
        let rest = o.remove(i);
        (rest, if owned(rest, o[i].1) { None } else { Some(key_event(false, o[i].1)) })
    } else {
        (o, None)
    }
}

impl KeyOwners {
    /// Each physical key is held at most once.
    pub open spec fn wf(&self) -> bool {
        forall|i: int, j: int|
            0 <= i < j < self.active@.len() ==> self.active@[i].0 != self.active@[j].0
    }

    pub fn new() -> (r: KeyOwners)
        ensures
            r.wf(),
            r.active@.len() == 0,
    {
        KeyOwners { active: Vec::new() }
    }

    fn find_scancode(&self, scancode: u32) -> (r: Option<usize>)
        ensures
            match r {
                Some(i) => i < self.active@.len() && self.active@[i as int].0 == scancode,
                None => !scancode_held(owners_view(self.active@), scancode),
            },
    {
        let mut i: usize = 0;
        while i < self.active.len()
            invariant
                0 <= i <= self.active@.len(),
                forall|j: int| 0 <= j < i ==> self.active@[j].0 != scancode,
            decreases self.active@.len() - i,
        {
            if self.active[i].0 == scancode {
                return Some(i);
            }
            i = i + 1;
        }
        proof {
            if scancode_held(owners_view(self.active@), scancode) {
                let j = choose|j: int| 0 <= j < owners_view(self.active@).len() && owners_view(self.active@)[j].0 == scancode;
                assert(self.active@[j].0 == scancode);
            }
        }
        None
    }

    fn is_owned(&self, key: &str) -> (r: bool)
        ensures
            r == owned(owners_view(self.active@), key@),
    {
        let ghost o = owners_view(self.active@);
        let mut i: usize = 0;
        while i < self.active.len()
            invariant
                o == owners_view(self.active@),
                0 <= i <= o.len(),
                forall|j: int| 0 <= j < i ==> o[j].1 != key@,
            decreases o.len() - i,
        {
            proof {
                assert(o[i as int].1 == self.active@[i as int].1@);
            }
            if str_eq(self.active[i].1.as_str(), key) {
                return true;
            }
            i = i + 1;
        }
        false
    }

    /// The physical key `scancode` goes down as the logical key `key`: the logical key
    /// goes down unless another physical key already holds it.
    pub fn press(&mut self, scancode: u32, key: String) -> (r: Option<InputEventValue>)
        requires
            old(self).wf(),
            !scancode_held(owners_view(old(self).active@), scancode),
        ensures
            final(self).wf(),
            owners_view(final(self).active@) == press_spec(owners_view(old(self).active@), scancode, key@).0,
            keyboard_view(r) == press_spec(owners_view(old(self).active@), scancode, key@).1,
    {
        let already = self.is_owned(key.as_str());
        let ghost before = self.active@;
        let ghost k = key@;
        let event_key = key.clone();
        self.active.push((scancode, key));
        proof {
            assert(owners_view(self.active@) =~= owners_view(before).push((scancode, k)));
            assert forall|i: int, j: int| 0 <= i < j < self.active@.len() implies self.active@[i].0 != self.active@[j].0 by {
                if j == before.len() {
                    if self.active@[i].0 == scancode {
                        assert(owners_view(before)[i].0 == scancode);
                    }
                }
            }
        }
        if already {
            None
        } else {
            Some(InputEventValue::Keyboard { pressed: Pressed::Yes, key: event_key })
        }
    }

    /// The physical key `scancode` goes up: the logical key it held goes up once no other
    /// physical key holds it. A key that is not held does nothing.
    pub fn release(&mut self, scancode: u32) -> (r: Option<InputEventValue>)
        requires
            old(self).wf(),
        ensures
            final(self).wf(),
            !scancode_held(owners_view(old(self).active@), scancode) ==> final(self).active@ == old(self).active@
                && r is None,
            owners_view(final(self).active@) == release_spec(owners_view(old(self).active@), scancode).0,
            keyboard_view(r) == release_spec(owners_view(old(self).active@), scancode).1,
    {
        match self.find_scancode(scancode) {
            None => None,
            Some(i) => {
                let ghost before = self.active@;
                proof {
                    assert(owners_view(before)[i as int].0 == scancode);
                    let j = scancode_index(owners_view(before), scancode);
                    assert(j == i) by {
                        if j != i {
                            assert(before[j].0 == before[i as int].0);
                        }
                    }
                }
                let (_, key) = self.active.remove(i);
                proof {
                    assert(owners_view(self.active@) =~= owners_view(before).remove(i as int));
                    assert forall|a: int, b: int| 0 <= a < b < self.active@.len() implies self.active@[a].0 != self.active@[b].0 by {
                        let a1 = if a < i { a } else { a + 1 };
                        let b1 = if b < i { b } else { b + 1 };
                        assert(self.active@[a] == before[a1] && self.active@[b] == before[b1]);
                    }
                }
                if self.is_owned(key.as_str()) {
                    None
                } else {
                    Some(InputEventValue::Keyboard { pressed: Pressed::No, key })
                }
            },
        }
    }

    /// Forgets every held key without events.
    pub fn clear(&mut self)
        ensures
            final(self).wf(),
            final(self).active@.len() == 0,
    {
        self.active = Vec::new();
    }
}

/// A logical key held by two physical keys stays down when one of them goes up: the
/// release of a key that another physical key still holds sends nothing.
pub proof fn lemma_shared_key_stays_down(o: Seq<(u32, Seq<char>)>, i: int, j: int)
    requires
        0 <= i < o.len(),
        0 <= j < o.len(),
        i != j,
        o[i].1 == o[j].1,
    ensures
        owned(o.remove(i), o[i].1),
{
    let r = o.remove(i);
    if j < i {
        assert(r[j] == o[j]);
    } else {
        assert(r[j - 1] == o[j]);
    }
}



/// The keys of a keyboard, by their meaning.
#[derive(Copy, Clone, Debug, PartialEq, Eq, Structural)]
pub enum VirtualKeyCode {
    Key1,
    Key2,
    Key3,
    Key4,
    Key5,
    Key6,
    Key7,
    Key8,
    Key9,
    Key0,
    A,
    B,
    C,
    D,
    E,
    F,
    G,
    H,
    I,
    J,
    K,
    L,
    M,
    N,
    O,
    P,
    Q,
    R,
    S,
    T,
    U,
    V,
    W,
    X,
    Y,
    Z,
    Escape,
    F1,
    F2,
    F3,
    F4,
    F5,
    F6,
    F7,
    F8,
    F9,
    F10,
    F11,
    F12,
    F13,
    F14,
    F15,
    F16,
    F17,
    F18,
    F19,
    F20,
    F21,
    F22,
    F23,
    F24,
    Snapshot,
    Scroll,
    Pause,
    Insert,
    Home,
    Delete,
    End,
    PageDown,
    PageUp,
    Left,
    Up,
    Right,
    Down,
    Back,
    Return,
    Space,
    Compose,
    Caret,
    Numlock,
    Numpad0,
    Numpad1,
    Numpad2,
    Numpad3,
    Numpad4,
    Numpad5,
    Numpad6,
    Numpad7,
    Numpad8,
    Numpad9,
    NumpadAdd,
    NumpadDivide,
    NumpadDecimal,
    NumpadComma,
    NumpadEnter,
    NumpadEquals,
    NumpadMultiply,
    NumpadSubtract,
    AbntC1,
    AbntC2,
    Apostrophe,
    Apps,
    Asterisk,
    At,
    Ax,
    Backslash,
    Calculator,
    Capital,
    Colon,
    Comma,
    Convert,
    Equals,
    Grave,
    Kana,
    Kanji,
    LAlt,
    LBracket,
    LControl,
    LShift,
    LWin,
    Mail,
    MediaSelect,
    MediaStop,
    Minus,
    Mute,
    MyComputer,
    NavigateForward,
    NavigateBackward,
    NextTrack,
    NoConvert,
    OEM102,
    Period,
    PlayPause,
    Plus,
    Power,
    PrevTrack,
    RAlt,
    RBracket,
    RControl,
    RShift,
    RWin,
    Semicolon,
    Slash,
    Sleep,
    Stop,
    Sysrq,
    Tab,
    Underline,
    Unlabeled,
    VolumeDown,
    VolumeUp,
    Wake,
    WebBack,
    WebFavorites,
    WebForward,
    WebHome,
    WebRefresh,
    WebSearch,
    WebStop,
    Yen,
    Copy,
    Paste,
    Cut,
}

/// Whether the key was pressed or released.
#[derive(Copy, Clone, Debug, PartialEq, Eq, Structural)]
pub enum ElementState {
    Pressed,
    Released,
}

/// The modifier keys held while a key event happens.
#[derive(Copy, Clone, Debug, Default, PartialEq, Eq, Structural)]
pub struct ModifiersState {
    pub shift: bool,
    pub ctrl: bool,
    pub alt: bool,
    pub logo: bool,
}

impl ModifiersState {
    pub open spec fn empty_spec() -> ModifiersState {
        ModifiersState { shift: false, ctrl: false, alt: false, logo: false }
    }

    pub fn empty() -> (r: ModifiersState)
        ensures
            r == Self::empty_spec(),
    {
        ModifiersState { shift: false, ctrl: false, alt: false, logo: false }
    }
}

/// A physical key going down or up: its scan code, and its meaning when it has one.
#[derive(Copy, Clone, Debug, PartialEq, Eq, Structural)]
pub struct KeyboardInput {
    pub scancode: u32,
    pub state: ElementState,
    pub virtual_keycode: Option<VirtualKeyCode>,
}

/// The keys whose text depends on the keyboard layout: it comes with the character the
/// layout produces.
pub open spec fn layout_sensitive(k: VirtualKeyCode) -> bool {
    k == VirtualKeyCode::Key0 || k == VirtualKeyCode::Key1 || k == VirtualKeyCode::Key2 || k == VirtualKeyCode::Key3 || k == VirtualKeyCode::Key4 || k == VirtualKeyCode::Key5 || k == VirtualKeyCode::Key6 || k == VirtualKeyCode::Key7 || k == VirtualKeyCode::Key8 || k == VirtualKeyCode::Key9 || k == VirtualKeyCode::A || k == VirtualKeyCode::B || k == VirtualKeyCode::C || k == VirtualKeyCode::D || k == VirtualKeyCode::E || k == VirtualKeyCode::F || k == VirtualKeyCode::G || k == VirtualKeyCode::H || k == VirtualKeyCode::I || k == VirtualKeyCode::J || k == VirtualKeyCode::K || k == VirtualKeyCode::L || k == VirtualKeyCode::M || k == VirtualKeyCode::N || k == VirtualKeyCode::O || k == VirtualKeyCode::P || k == VirtualKeyCode::Q || k == VirtualKeyCode::R || k == VirtualKeyCode::S || k == VirtualKeyCode::T || k == VirtualKeyCode::U || k == VirtualKeyCode::V || k == VirtualKeyCode::W || k == VirtualKeyCode::X || k == VirtualKeyCode::Y || k == VirtualKeyCode::Z || k == VirtualKeyCode::Apostrophe || k == VirtualKeyCode::Backslash || k == VirtualKeyCode::Comma || k == VirtualKeyCode::Equals || k == VirtualKeyCode::Grave || k == VirtualKeyCode::LBracket || k == VirtualKeyCode::Minus || k == VirtualKeyCode::Period || k == VirtualKeyCode::RBracket || k == VirtualKeyCode::Semicolon || k == VirtualKeyCode::Slash || k == VirtualKeyCode::Space || k == VirtualKeyCode::Numpad0 || k == VirtualKeyCode::Numpad1 || k == VirtualKeyCode::Numpad2 || k == VirtualKeyCode::Numpad3 || k == VirtualKeyCode::Numpad4 || k == VirtualKeyCode::Numpad5 || k == VirtualKeyCode::Numpad6 || k == VirtualKeyCode::Numpad7 || k == VirtualKeyCode::Numpad8 || k == VirtualKeyCode::Numpad9 || k == VirtualKeyCode::NumpadAdd || k == VirtualKeyCode::NumpadSubtract || k == VirtualKeyCode::NumpadMultiply || k == VirtualKeyCode::NumpadDivide || k == VirtualKeyCode::NumpadDecimal || k == VirtualKeyCode::NumpadComma || k == VirtualKeyCode::NumpadEquals || k == VirtualKeyCode::Plus || k == VirtualKeyCode::Asterisk || k == VirtualKeyCode::At || k == VirtualKeyCode::Caret || k == VirtualKeyCode::Colon || k == VirtualKeyCode::Underline
}

pub fn is_layout_sensitive_printable(key: VirtualKeyCode) -> (r: bool)
    ensures
        r == layout_sensitive(key),
{
    match key {
        VirtualKeyCode::Key0
            | VirtualKeyCode::Key1
            | VirtualKeyCode::Key2
            | VirtualKeyCode::Key3
            | VirtualKeyCode::Key4
            | VirtualKeyCode::Key5
            | VirtualKeyCode::Key6
            | VirtualKeyCode::Key7
            | VirtualKeyCode::Key8
            | VirtualKeyCode::Key9
            | VirtualKeyCode::A
            | VirtualKeyCode::B
            | VirtualKeyCode::C
            | VirtualKeyCode::D
            | VirtualKeyCode::E
            | VirtualKeyCode::F
            | VirtualKeyCode::G
            | VirtualKeyCode::H
            | VirtualKeyCode::I
            | VirtualKeyCode::J
            | VirtualKeyCode::K
            | VirtualKeyCode::L
            | VirtualKeyCode::M
            | VirtualKeyCode::N
            | VirtualKeyCode::O
            | VirtualKeyCode::P
            | VirtualKeyCode::Q
            | VirtualKeyCode::R
            | VirtualKeyCode::S
            | VirtualKeyCode::T
            | VirtualKeyCode::U
            | VirtualKeyCode::V
            | VirtualKeyCode::W
            | VirtualKeyCode::X
            | VirtualKeyCode::Y
            | VirtualKeyCode::Z
            | VirtualKeyCode::Apostrophe
            | VirtualKeyCode::Backslash
            | VirtualKeyCode::Comma
            | VirtualKeyCode::Equals
            | VirtualKeyCode::Grave
            | VirtualKeyCode::LBracket
            | VirtualKeyCode::Minus
            | VirtualKeyCode::Period
            | VirtualKeyCode::RBracket
            | VirtualKeyCode::Semicolon
            | VirtualKeyCode::Slash
            | VirtualKeyCode::Space
            | VirtualKeyCode::Numpad0
            | VirtualKeyCode::Numpad1
            | VirtualKeyCode::Numpad2
            | VirtualKeyCode::Numpad3
            | VirtualKeyCode::Numpad4
            | VirtualKeyCode::Numpad5
            | VirtualKeyCode::Numpad6
            | VirtualKeyCode::Numpad7
            | VirtualKeyCode::Numpad8
            | VirtualKeyCode::Numpad9
            | VirtualKeyCode::NumpadAdd
            | VirtualKeyCode::NumpadSubtract
            | VirtualKeyCode::NumpadMultiply
            | VirtualKeyCode::NumpadDivide
            | VirtualKeyCode::NumpadDecimal
            | VirtualKeyCode::NumpadComma
            | VirtualKeyCode::NumpadEquals
            | VirtualKeyCode::Plus
            | VirtualKeyCode::Asterisk
            | VirtualKeyCode::At
            | VirtualKeyCode::Caret
            | VirtualKeyCode::Colon
            | VirtualKeyCode::Underline => true,
        _ => false,
    }
}

/// The lower-case letter of a letter key.
pub open spec fn letter_of(k: VirtualKeyCode) -> Option<char> {
    match k {
        VirtualKeyCode::A => Some('a'),
        VirtualKeyCode::B => Some('b'),
        VirtualKeyCode::C => Some('c'),
        VirtualKeyCode::D => Some('d'),
        VirtualKeyCode::E => Some('e'),
        VirtualKeyCode::F => Some('f'),
        VirtualKeyCode::G => Some('g'),
        VirtualKeyCode::H => Some('h'),
        VirtualKeyCode::I => Some('i'),
        VirtualKeyCode::J => Some('j'),
        VirtualKeyCode::K => Some('k'),
        VirtualKeyCode::L => Some('l'),
        VirtualKeyCode::M => Some('m'),
        VirtualKeyCode::N => Some('n'),
        VirtualKeyCode::O => Some('o'),
        VirtualKeyCode::P => Some('p'),
        VirtualKeyCode::Q => Some('q'),
        VirtualKeyCode::R => Some('r'),
        VirtualKeyCode::S => Some('s'),
        VirtualKeyCode::T => Some('t'),
        VirtualKeyCode::U => Some('u'),
        VirtualKeyCode::V => Some('v'),
        VirtualKeyCode::W => Some('w'),
        VirtualKeyCode::X => Some('x'),
        VirtualKeyCode::Y => Some('y'),
        VirtualKeyCode::Z => Some('z'),
        _ => None,
    }
}

pub fn ascii_letter(key: VirtualKeyCode) -> (r: Option<char>)
    ensures
        r == letter_of(key),
{
    match key {
        VirtualKeyCode::A => Some('a'),
        VirtualKeyCode::B => Some('b'),
        VirtualKeyCode::C => Some('c'),
        VirtualKeyCode::D => Some('d'),
        VirtualKeyCode::E => Some('e'),
        VirtualKeyCode::F => Some('f'),
        VirtualKeyCode::G => Some('g'),
        VirtualKeyCode::H => Some('h'),
        VirtualKeyCode::I => Some('i'),
        VirtualKeyCode::J => Some('j'),
        VirtualKeyCode::K => Some('k'),
        VirtualKeyCode::L => Some('l'),
        VirtualKeyCode::M => Some('m'),
        VirtualKeyCode::N => Some('n'),
        VirtualKeyCode::O => Some('o'),
        VirtualKeyCode::P => Some('p'),
        VirtualKeyCode::Q => Some('q'),
        VirtualKeyCode::R => Some('r'),
        VirtualKeyCode::S => Some('s'),
        VirtualKeyCode::T => Some('t'),
        VirtualKeyCode::U => Some('u'),
        VirtualKeyCode::V => Some('v'),
        VirtualKeyCode::W => Some('w'),
        VirtualKeyCode::X => Some('x'),
        VirtualKeyCode::Y => Some('y'),
        VirtualKeyCode::Z => Some('z'),
        _ => None,
    }
}

/// The name of a key.
pub open spec fn key_name(k: VirtualKeyCode) -> Seq<char> {
    match k {
        VirtualKeyCode::Key1 => "Key1"@,
        VirtualKeyCode::Key2 => "Key2"@,
        VirtualKeyCode::Key3 => "Key3"@,
        VirtualKeyCode::Key4 => "Key4"@,
        VirtualKeyCode::Key5 => "Key5"@,
        VirtualKeyCode::Key6 => "Key6"@,
        VirtualKeyCode::Key7 => "Key7"@,
        VirtualKeyCode::Key8 => "Key8"@,
        VirtualKeyCode::Key9 => "Key9"@,
        VirtualKeyCode::Key0 => "Key0"@,
        VirtualKeyCode::A => "A"@,
        VirtualKeyCode::B => "B"@,
        VirtualKeyCode::C => "C"@,
        VirtualKeyCode::D => "D"@,
        VirtualKeyCode::E => "E"@,
        VirtualKeyCode::F => "F"@,
        VirtualKeyCode::G => "G"@,
        VirtualKeyCode::H => "H"@,
        VirtualKeyCode::I => "I"@,
        VirtualKeyCode::J => "J"@,
        VirtualKeyCode::K => "K"@,
        VirtualKeyCode::L => "L"@,
        VirtualKeyCode::M => "M"@,
        VirtualKeyCode::N => "N"@,
        VirtualKeyCode::O => "O"@,
        VirtualKeyCode::P => "P"@,
        VirtualKeyCode::Q => "Q"@,
        VirtualKeyCode::R => "R"@,
        VirtualKeyCode::S => "S"@,
        VirtualKeyCode::T => "T"@,
        VirtualKeyCode::U => "U"@,
        VirtualKeyCode::V => "V"@,
        VirtualKeyCode::W => "W"@,
        VirtualKeyCode::X => "X"@,
        VirtualKeyCode::Y => "Y"@,
        VirtualKeyCode::Z => "Z"@,
        VirtualKeyCode::Escape => "Escape"@,
        VirtualKeyCode::F1 => "F1"@,
        VirtualKeyCode::F2 => "F2"@,
        VirtualKeyCode::F3 => "F3"@,
        VirtualKeyCode::F4 => "F4"@,
        VirtualKeyCode::F5 => "F5"@,
        VirtualKeyCode::F6 => "F6"@,
        VirtualKeyCode::F7 => "F7"@,
        VirtualKeyCode::F8 => "F8"@,
        VirtualKeyCode::F9 => "F9"@,
        VirtualKeyCode::F10 => "F10"@,
        VirtualKeyCode::F11 => "F11"@,
        VirtualKeyCode::F12 => "F12"@,
        VirtualKeyCode::F13 => "F13"@,
        VirtualKeyCode::F14 => "F14"@,
        VirtualKeyCode::F15 => "F15"@,
        VirtualKeyCode::F16 => "F16"@,
        VirtualKeyCode::F17 => "F17"@,
        VirtualKeyCode::F18 => "F18"@,
        VirtualKeyCode::F19 => "F19"@,
        VirtualKeyCode::F20 => "F20"@,
        VirtualKeyCode::F21 => "F21"@,
        VirtualKeyCode::F22 => "F22"@,
        VirtualKeyCode::F23 => "F23"@,
        VirtualKeyCode::F24 => "F24"@,
        VirtualKeyCode::Snapshot => "Snapshot"@,
        VirtualKeyCode::Scroll => "Scroll"@,
        VirtualKeyCode::Pause => "Pause"@,
        VirtualKeyCode::Insert => "Insert"@,
        VirtualKeyCode::Home => "Home"@,
        VirtualKeyCode::Delete => "Delete"@,
        VirtualKeyCode::End => "End"@,
        VirtualKeyCode::PageDown => "PageDown"@,
        VirtualKeyCode::PageUp => "PageUp"@,
        VirtualKeyCode::Left => "Left"@,
        VirtualKeyCode::Up => "Up"@,
        VirtualKeyCode::Right => "Right"@,
        VirtualKeyCode::Down => "Down"@,
        VirtualKeyCode::Back => "Back"@,
        VirtualKeyCode::Return => "Return"@,
        VirtualKeyCode::Space => "Space"@,
        VirtualKeyCode::Compose => "Compose"@,
        VirtualKeyCode::Caret => "Caret"@,
        VirtualKeyCode::Numlock => "Numlock"@,
        VirtualKeyCode::Numpad0 => "Numpad0"@,
        VirtualKeyCode::Numpad1 => "Numpad1"@,
        VirtualKeyCode::Numpad2 => "Numpad2"@,
        VirtualKeyCode::Numpad3 => "Numpad3"@,
        VirtualKeyCode::Numpad4 => "Numpad4"@,
        VirtualKeyCode::Numpad5 => "Numpad5"@,
        VirtualKeyCode::Numpad6 => "Numpad6"@,
        VirtualKeyCode::Numpad7 => "Numpad7"@,
        VirtualKeyCode::Numpad8 => "Numpad8"@,
        VirtualKeyCode::Numpad9 => "Numpad9"@,
        VirtualKeyCode::NumpadAdd => "NumpadAdd"@,
        VirtualKeyCode::NumpadDivide => "NumpadDivide"@,
        VirtualKeyCode::NumpadDecimal => "NumpadDecimal"@,
        VirtualKeyCode::NumpadComma => "NumpadComma"@,
        VirtualKeyCode::NumpadEnter => "NumpadEnter"@,
        VirtualKeyCode::NumpadEquals => "NumpadEquals"@,
        VirtualKeyCode::NumpadMultiply => "NumpadMultiply"@,
        VirtualKeyCode::NumpadSubtract => "NumpadSubtract"@,
        VirtualKeyCode::AbntC1 => "AbntC1"@,
        VirtualKeyCode::AbntC2 => "AbntC2"@,
        VirtualKeyCode::Apostrophe => "Apostrophe"@,
        VirtualKeyCode::Apps => "Apps"@,
        VirtualKeyCode::Asterisk => "Asterisk"@,
        VirtualKeyCode::At => "At"@,
        VirtualKeyCode::Ax => "Ax"@,
        VirtualKeyCode::Backslash => "Backslash"@,
        VirtualKeyCode::Calculator => "Calculator"@,
        VirtualKeyCode::Capital => "Capital"@,
        VirtualKeyCode::Colon => "Colon"@,
        VirtualKeyCode::Comma => "Comma"@,
        VirtualKeyCode::Convert => "Convert"@,
        VirtualKeyCode::Equals => "Equals"@,
        VirtualKeyCode::Grave => "Grave"@,
        VirtualKeyCode::Kana => "Kana"@,
        VirtualKeyCode::Kanji => "Kanji"@,
        VirtualKeyCode::LAlt => "LAlt"@,
        VirtualKeyCode::LBracket => "LBracket"@,
        VirtualKeyCode::LControl => "LControl"@,
        VirtualKeyCode::LShift => "LShift"@,
        VirtualKeyCode::LWin => "LWin"@,
        VirtualKeyCode::Mail => "Mail"@,
        VirtualKeyCode::MediaSelect => "MediaSelect"@,
        VirtualKeyCode::MediaStop => "MediaStop"@,
        VirtualKeyCode::Minus => "Minus"@,
        VirtualKeyCode::Mute => "Mute"@,
        VirtualKeyCode::MyComputer => "MyComputer"@,
        VirtualKeyCode::NavigateForward => "NavigateForward"@,
        VirtualKeyCode::NavigateBackward => "NavigateBackward"@,
        VirtualKeyCode::NextTrack => "NextTrack"@,
        VirtualKeyCode::NoConvert => "NoConvert"@,
        VirtualKeyCode::OEM102 => "OEM102"@,
        VirtualKeyCode::Period => "Period"@,
        VirtualKeyCode::PlayPause => "PlayPause"@,
        VirtualKeyCode::Plus => "Plus"@,
        VirtualKeyCode::Power => "Power"@,
        VirtualKeyCode::PrevTrack => "PrevTrack"@,
        VirtualKeyCode::RAlt => "RAlt"@,
        VirtualKeyCode::RBracket => "RBracket"@,
        VirtualKeyCode::RControl => "RControl"@,
        VirtualKeyCode::RShift => "RShift"@,
        VirtualKeyCode::RWin => "RWin"@,
        VirtualKeyCode::Semicolon => "Semicolon"@,
        VirtualKeyCode::Slash => "Slash"@,
        VirtualKeyCode::Sleep => "Sleep"@,
        VirtualKeyCode::Stop => "Stop"@,
        VirtualKeyCode::Sysrq => "Sysrq"@,
        VirtualKeyCode::Tab => "Tab"@,
        VirtualKeyCode::Underline => "Underline"@,
        VirtualKeyCode::Unlabeled => "Unlabeled"@,
        VirtualKeyCode::VolumeDown => "VolumeDown"@,
        VirtualKeyCode::VolumeUp => "VolumeUp"@,
        VirtualKeyCode::Wake => "Wake"@,
        VirtualKeyCode::WebBack => "WebBack"@,
        VirtualKeyCode::WebFavorites => "WebFavorites"@,
        VirtualKeyCode::WebForward => "WebForward"@,
        VirtualKeyCode::WebHome => "WebHome"@,
        VirtualKeyCode::WebRefresh => "WebRefresh"@,
        VirtualKeyCode::WebSearch => "WebSearch"@,
        VirtualKeyCode::WebStop => "WebStop"@,
        VirtualKeyCode::Yen => "Yen"@,
        VirtualKeyCode::Copy => "Copy"@,
        VirtualKeyCode::Paste => "Paste"@,
        VirtualKeyCode::Cut => "Cut"@,
    }
}

/// The name of a key, as its variant is spelled.
pub fn key_name_of(key: VirtualKeyCode) -> (r: &'static str)
    ensures
        r@ == key_name(key),
{
    match key {
        VirtualKeyCode::Key1 => "Key1",
        VirtualKeyCode::Key2 => "Key2",
        VirtualKeyCode::Key3 => "Key3",
        VirtualKeyCode::Key4 => "Key4",
        VirtualKeyCode::Key5 => "Key5",
        VirtualKeyCode::Key6 => "Key6",
        VirtualKeyCode::Key7 => "Key7",
        VirtualKeyCode::Key8 => "Key8",
        VirtualKeyCode::Key9 => "Key9",
        VirtualKeyCode::Key0 => "Key0",
        VirtualKeyCode::A => "A",
        VirtualKeyCode::B => "B",
        VirtualKeyCode::C => "C",
        VirtualKeyCode::D => "D",
        VirtualKeyCode::E => "E",
        VirtualKeyCode::F => "F",
        VirtualKeyCode::G => "G",
        VirtualKeyCode::H => "H",
        VirtualKeyCode::I => "I",
        VirtualKeyCode::J => "J",
        VirtualKeyCode::K => "K",
        VirtualKeyCode::L => "L",
        VirtualKeyCode::M => "M",
        VirtualKeyCode::N => "N",
        VirtualKeyCode::O => "O",
        VirtualKeyCode::P => "P",
        VirtualKeyCode::Q => "Q",
        VirtualKeyCode::R => "R",
        VirtualKeyCode::S => "S",
        VirtualKeyCode::T => "T",
        VirtualKeyCode::U => "U",
        VirtualKeyCode::V => "V",
        VirtualKeyCode::W => "W",
        VirtualKeyCode::X => "X",
        VirtualKeyCode::Y => "Y",
        VirtualKeyCode::Z => "Z",
        VirtualKeyCode::Escape => "Escape",
        VirtualKeyCode::F1 => "F1",
        VirtualKeyCode::F2 => "F2",
        VirtualKeyCode::F3 => "F3",
        VirtualKeyCode::F4 => "F4",
        VirtualKeyCode::F5 => "F5",
        VirtualKeyCode::F6 => "F6",
        VirtualKeyCode::F7 => "F7",
        VirtualKeyCode::F8 => "F8",
        VirtualKeyCode::F9 => "F9",
        VirtualKeyCode::F10 => "F10",
        VirtualKeyCode::F11 => "F11",
        VirtualKeyCode::F12 => "F12",
        VirtualKeyCode::F13 => "F13",
        VirtualKeyCode::F14 => "F14",
        VirtualKeyCode::F15 => "F15",
        VirtualKeyCode::F16 => "F16",
        VirtualKeyCode::F17 => "F17",
        VirtualKeyCode::F18 => "F18",
        VirtualKeyCode::F19 => "F19",
        VirtualKeyCode::F20 => "F20",
        VirtualKeyCode::F21 => "F21",
        VirtualKeyCode::F22 => "F22",
        VirtualKeyCode::F23 => "F23",
        VirtualKeyCode::F24 => "F24",
        VirtualKeyCode::Snapshot => "Snapshot",
        VirtualKeyCode::Scroll => "Scroll",
        VirtualKeyCode::Pause => "Pause",
        VirtualKeyCode::Insert => "Insert",
        VirtualKeyCode::Home => "Home",
        VirtualKeyCode::Delete => "Delete",
        VirtualKeyCode::End => "End",
        VirtualKeyCode::PageDown => "PageDown",
        VirtualKeyCode::PageUp => "PageUp",
        VirtualKeyCode::Left => "Left",
        VirtualKeyCode::Up => "Up",
        VirtualKeyCode::Right => "Right",
        VirtualKeyCode::Down => "Down",
        VirtualKeyCode::Back => "Back",
        VirtualKeyCode::Return => "Return",
        VirtualKeyCode::Space => "Space",
        VirtualKeyCode::Compose => "Compose",
        VirtualKeyCode::Caret => "Caret",
        VirtualKeyCode::Numlock => "Numlock",
        VirtualKeyCode::Numpad0 => "Numpad0",
        VirtualKeyCode::Numpad1 => "Numpad1",
        VirtualKeyCode::Numpad2 => "Numpad2",
        VirtualKeyCode::Numpad3 => "Numpad3",
        VirtualKeyCode::Numpad4 => "Numpad4",
        VirtualKeyCode::Numpad5 => "Numpad5",
        VirtualKeyCode::Numpad6 => "Numpad6",
        VirtualKeyCode::Numpad7 => "Numpad7",
        VirtualKeyCode::Numpad8 => "Numpad8",
        VirtualKeyCode::Numpad9 => "Numpad9",
        VirtualKeyCode::NumpadAdd => "NumpadAdd",
        VirtualKeyCode::NumpadDivide => "NumpadDivide",
        VirtualKeyCode::NumpadDecimal => "NumpadDecimal",
        VirtualKeyCode::NumpadComma => "NumpadComma",
        VirtualKeyCode::NumpadEnter => "NumpadEnter",
        VirtualKeyCode::NumpadEquals => "NumpadEquals",
        VirtualKeyCode::NumpadMultiply => "NumpadMultiply",
        VirtualKeyCode::NumpadSubtract => "NumpadSubtract",
        VirtualKeyCode::AbntC1 => "AbntC1",
        VirtualKeyCode::AbntC2 => "AbntC2",
        VirtualKeyCode::Apostrophe => "Apostrophe",
        VirtualKeyCode::Apps => "Apps",
        VirtualKeyCode::Asterisk => "Asterisk",
        VirtualKeyCode::At => "At",
        VirtualKeyCode::Ax => "Ax",
        VirtualKeyCode::Backslash => "Backslash",
        VirtualKeyCode::Calculator => "Calculator",
        VirtualKeyCode::Capital => "Capital",
        VirtualKeyCode::Colon => "Colon",
        VirtualKeyCode::Comma => "Comma",
        VirtualKeyCode::Convert => "Convert",
        VirtualKeyCode::Equals => "Equals",
        VirtualKeyCode::Grave => "Grave",
        VirtualKeyCode::Kana => "Kana",
        VirtualKeyCode::Kanji => "Kanji",
        VirtualKeyCode::LAlt => "LAlt",
        VirtualKeyCode::LBracket => "LBracket",
        VirtualKeyCode::LControl => "LControl",
        VirtualKeyCode::LShift => "LShift",
        VirtualKeyCode::LWin => "LWin",
        VirtualKeyCode::Mail => "Mail",
        VirtualKeyCode::MediaSelect => "MediaSelect",
        VirtualKeyCode::MediaStop => "MediaStop",
        VirtualKeyCode::Minus => "Minus",
        VirtualKeyCode::Mute => "Mute",
        VirtualKeyCode::MyComputer => "MyComputer",
        VirtualKeyCode::NavigateForward => "NavigateForward",
        VirtualKeyCode::NavigateBackward => "NavigateBackward",
        VirtualKeyCode::NextTrack => "NextTrack",
        VirtualKeyCode::NoConvert => "NoConvert",
        VirtualKeyCode::OEM102 => "OEM102",
        VirtualKeyCode::Period => "Period",
        VirtualKeyCode::PlayPause => "PlayPause",
        VirtualKeyCode::Plus => "Plus",
        VirtualKeyCode::Power => "Power",
        VirtualKeyCode::PrevTrack => "PrevTrack",
        VirtualKeyCode::RAlt => "RAlt",
        VirtualKeyCode::RBracket => "RBracket",
        VirtualKeyCode::RControl => "RControl",
        VirtualKeyCode::RShift => "RShift",
        VirtualKeyCode::RWin => "RWin",
        VirtualKeyCode::Semicolon => "Semicolon",
        VirtualKeyCode::Slash => "Slash",
        VirtualKeyCode::Sleep => "Sleep",
        VirtualKeyCode::Stop => "Stop",
        VirtualKeyCode::Sysrq => "Sysrq",
        VirtualKeyCode::Tab => "Tab",
        VirtualKeyCode::Underline => "Underline",
        VirtualKeyCode::Unlabeled => "Unlabeled",
        VirtualKeyCode::VolumeDown => "VolumeDown",
        VirtualKeyCode::VolumeUp => "VolumeUp",
        VirtualKeyCode::Wake => "Wake",
        VirtualKeyCode::WebBack => "WebBack",
        VirtualKeyCode::WebFavorites => "WebFavorites",
        VirtualKeyCode::WebForward => "WebForward",
        VirtualKeyCode::WebHome => "WebHome",
        VirtualKeyCode::WebRefresh => "WebRefresh",
        VirtualKeyCode::WebSearch => "WebSearch",
        VirtualKeyCode::WebStop => "WebStop",
        VirtualKeyCode::Yen => "Yen",
        VirtualKeyCode::Copy => "Copy",
        VirtualKeyCode::Paste => "Paste",
        VirtualKeyCode::Cut => "Cut",
    }
}

/// The browser's value of a key that is not a letter, where it has one.
pub open spec fn browser_value(k: VirtualKeyCode, shift: bool) -> Option<Seq<char>> {
    match k {
        VirtualKeyCode::LShift | VirtualKeyCode::RShift => Some("Shift"@),
        VirtualKeyCode::LControl | VirtualKeyCode::RControl => Some("Control"@),
        VirtualKeyCode::LAlt | VirtualKeyCode::RAlt => Some("Alt"@),
        VirtualKeyCode::LWin | VirtualKeyCode::RWin => Some("Meta"@),
        VirtualKeyCode::Space => Some(" "@),
        VirtualKeyCode::Left => Some("ArrowLeft"@),
        VirtualKeyCode::Right => Some("ArrowRight"@),
        VirtualKeyCode::Up => Some("ArrowUp"@),
        VirtualKeyCode::Down => Some("ArrowDown"@),
        VirtualKeyCode::Return | VirtualKeyCode::NumpadEnter => Some("Enter"@),
        VirtualKeyCode::Back => Some("Backspace"@),
        VirtualKeyCode::Capital => Some("CapsLock"@),
        VirtualKeyCode::Snapshot => Some("PrintScreen"@),
        VirtualKeyCode::Sysrq => Some("PrintScreen"@),
        VirtualKeyCode::Scroll => Some("ScrollLock"@),
        VirtualKeyCode::Numlock => Some("NumLock"@),
        VirtualKeyCode::Apps => Some("ContextMenu"@),
        VirtualKeyCode::NoConvert => Some("NonConvert"@),
        VirtualKeyCode::Kana => Some("KanaMode"@),
        VirtualKeyCode::Kanji => Some("KanjiMode"@),
        VirtualKeyCode::NextTrack => Some("MediaTrackNext"@),
        VirtualKeyCode::PrevTrack => Some("MediaTrackPrevious"@),
        VirtualKeyCode::PlayPause => Some("MediaPlayPause"@),
        VirtualKeyCode::Mute => Some("AudioVolumeMute"@),
        VirtualKeyCode::VolumeDown => Some("AudioVolumeDown"@),
        VirtualKeyCode::VolumeUp => Some("AudioVolumeUp"@),
        VirtualKeyCode::WebBack | VirtualKeyCode::NavigateBackward => Some("BrowserBack"@),
        VirtualKeyCode::WebForward | VirtualKeyCode::NavigateForward => Some("BrowserForward"@),
        VirtualKeyCode::WebFavorites => Some("BrowserFavorites"@),
        VirtualKeyCode::WebHome => Some("BrowserHome"@),
        VirtualKeyCode::WebRefresh => Some("BrowserRefresh"@),
        VirtualKeyCode::WebSearch => Some("BrowserSearch"@),
        VirtualKeyCode::WebStop => Some("BrowserStop"@),
        VirtualKeyCode::Mail => Some("LaunchMail"@),
        VirtualKeyCode::MediaSelect => Some("LaunchMediaPlayer"@),
        VirtualKeyCode::Calculator => Some("LaunchCalculator"@),
        VirtualKeyCode::Wake => Some("WakeUp"@),
        VirtualKeyCode::Equals => Some(if shift { "+"@ } else { "="@ }),
        VirtualKeyCode::Minus => Some(if shift { "_"@ } else { "-"@ }),
        VirtualKeyCode::Comma => Some(if shift { "<"@ } else { ","@ }),
        VirtualKeyCode::Period => Some(if shift { ">"@ } else { "."@ }),
        VirtualKeyCode::Slash => Some(if shift { "?"@ } else { "/"@ }),
        VirtualKeyCode::Backslash => Some(if shift { "|"@ } else { "\\"@ }),
        VirtualKeyCode::Semicolon => Some(if shift { ":"@ } else { ";"@ }),
        VirtualKeyCode::Apostrophe => Some(if shift { "\""@ } else { "'"@ }),
        VirtualKeyCode::Grave => Some(if shift { "~"@ } else { "`"@ }),
        VirtualKeyCode::LBracket => Some(if shift { "{"@ } else { "["@ }),
        VirtualKeyCode::RBracket => Some(if shift { "}"@ } else { "]"@ }),
        VirtualKeyCode::Key1 => Some(if shift { "!"@ } else { "1"@ }),
        VirtualKeyCode::Key2 => Some(if shift { "@"@ } else { "2"@ }),
        VirtualKeyCode::Key3 => Some(if shift { "#"@ } else { "3"@ }),
        VirtualKeyCode::Key4 => Some(if shift { "$"@ } else { "4"@ }),
        VirtualKeyCode::Key5 => Some(if shift { "%"@ } else { "5"@ }),
        VirtualKeyCode::Key6 => Some(if shift { "^"@ } else { "6"@ }),
        VirtualKeyCode::Key7 => Some(if shift { "&"@ } else { "7"@ }),
        VirtualKeyCode::Key8 => Some(if shift { "*"@ } else { "8"@ }),
        VirtualKeyCode::Key9 => Some(if shift { "("@ } else { "9"@ }),
        VirtualKeyCode::Key0 => Some(if shift { ")"@ } else { "0"@ }),
        VirtualKeyCode::Numpad0 => Some("0"@),
        VirtualKeyCode::Numpad1 => Some("1"@),
        VirtualKeyCode::Numpad2 => Some("2"@),
        VirtualKeyCode::Numpad3 => Some("3"@),
        VirtualKeyCode::Numpad4 => Some("4"@),
        VirtualKeyCode::Numpad5 => Some("5"@),
        VirtualKeyCode::Numpad6 => Some("6"@),
        VirtualKeyCode::Numpad7 => Some("7"@),
        VirtualKeyCode::Numpad8 => Some("8"@),
        VirtualKeyCode::Numpad9 => Some("9"@),
        VirtualKeyCode::NumpadAdd => Some("+"@),
        VirtualKeyCode::NumpadSubtract => Some("-"@),
        VirtualKeyCode::NumpadMultiply => Some("*"@),
        VirtualKeyCode::NumpadDivide => Some("/"@),
        VirtualKeyCode::NumpadDecimal => Some("."@),
        VirtualKeyCode::NumpadComma => Some(","@),
        VirtualKeyCode::NumpadEquals => Some("="@),
        VirtualKeyCode::Plus => Some("+"@),
        VirtualKeyCode::Asterisk => Some("*"@),
        VirtualKeyCode::At => Some("@"@),
        VirtualKeyCode::Caret => Some("^"@),
        VirtualKeyCode::Colon => Some(":"@),
        VirtualKeyCode::Underline => Some("_"@),
        _ => None,
    }
}

fn browser_value_of(key: VirtualKeyCode, shift: bool) -> (r: Option<&'static str>)
    ensures
        match r {
            Some(s) => browser_value(key, shift) == Some(s@),
            None => browser_value(key, shift) is None,
        },
{
    match key {
        VirtualKeyCode::LShift | VirtualKeyCode::RShift => Some("Shift"),
        VirtualKeyCode::LControl | VirtualKeyCode::RControl => Some("Control"),
        VirtualKeyCode::LAlt | VirtualKeyCode::RAlt => Some("Alt"),
        VirtualKeyCode::LWin | VirtualKeyCode::RWin => Some("Meta"),
        VirtualKeyCode::Space => Some(" "),
        VirtualKeyCode::Left => Some("ArrowLeft"),
        VirtualKeyCode::Right => Some("ArrowRight"),
        VirtualKeyCode::Up => Some("ArrowUp"),
        VirtualKeyCode::Down => Some("ArrowDown"),
        VirtualKeyCode::Return | VirtualKeyCode::NumpadEnter => Some("Enter"),
        VirtualKeyCode::Back => Some("Backspace"),
        VirtualKeyCode::Capital => Some("CapsLock"),
        VirtualKeyCode::Snapshot => Some("PrintScreen"),
        VirtualKeyCode::Sysrq => Some("PrintScreen"),
        VirtualKeyCode::Scroll => Some("ScrollLock"),
        VirtualKeyCode::Numlock => Some("NumLock"),
        VirtualKeyCode::Apps => Some("ContextMenu"),
        VirtualKeyCode::NoConvert => Some("NonConvert"),
        VirtualKeyCode::Kana => Some("KanaMode"),
        VirtualKeyCode::Kanji => Some("KanjiMode"),
        VirtualKeyCode::NextTrack => Some("MediaTrackNext"),
        VirtualKeyCode::PrevTrack => Some("MediaTrackPrevious"),
        VirtualKeyCode::PlayPause => Some("MediaPlayPause"),
        VirtualKeyCode::Mute => Some("AudioVolumeMute"),
        VirtualKeyCode::VolumeDown => Some("AudioVolumeDown"),
        VirtualKeyCode::VolumeUp => Some("AudioVolumeUp"),
        VirtualKeyCode::WebBack | VirtualKeyCode::NavigateBackward => Some("BrowserBack"),
        VirtualKeyCode::WebForward | VirtualKeyCode::NavigateForward => Some("BrowserForward"),
        VirtualKeyCode::WebFavorites => Some("BrowserFavorites"),
        VirtualKeyCode::WebHome => Some("BrowserHome"),
        VirtualKeyCode::WebRefresh => Some("BrowserRefresh"),
        VirtualKeyCode::WebSearch => Some("BrowserSearch"),
        VirtualKeyCode::WebStop => Some("BrowserStop"),
        VirtualKeyCode::Mail => Some("LaunchMail"),
        VirtualKeyCode::MediaSelect => Some("LaunchMediaPlayer"),
        VirtualKeyCode::Calculator => Some("LaunchCalculator"),
        VirtualKeyCode::Wake => Some("WakeUp"),
        VirtualKeyCode::Equals => Some(if shift { "+" } else { "=" }),
        VirtualKeyCode::Minus => Some(if shift { "_" } else { "-" }),
        VirtualKeyCode::Comma => Some(if shift { "<" } else { "," }),
        VirtualKeyCode::Period => Some(if shift { ">" } else { "." }),
        VirtualKeyCode::Slash => Some(if shift { "?" } else { "/" }),
        VirtualKeyCode::Backslash => Some(if shift { "|" } else { "\\" }),
        VirtualKeyCode::Semicolon => Some(if shift { ":" } else { ";" }),
        VirtualKeyCode::Apostrophe => Some(if shift { "\"" } else { "'" }),
        VirtualKeyCode::Grave => Some(if shift { "~" } else { "`" }),
        VirtualKeyCode::LBracket => Some(if shift { "{" } else { "[" }),
        VirtualKeyCode::RBracket => Some(if shift { "}" } else { "]" }),
        VirtualKeyCode::Key1 => Some(if shift { "!" } else { "1" }),
        VirtualKeyCode::Key2 => Some(if shift { "@" } else { "2" }),
        VirtualKeyCode::Key3 => Some(if shift { "#" } else { "3" }),
        VirtualKeyCode::Key4 => Some(if shift { "$" } else { "4" }),
        VirtualKeyCode::Key5 => Some(if shift { "%" } else { "5" }),
        VirtualKeyCode::Key6 => Some(if shift { "^" } else { "6" }),
        VirtualKeyCode::Key7 => Some(if shift { "&" } else { "7" }),
        VirtualKeyCode::Key8 => Some(if shift { "*" } else { "8" }),
        VirtualKeyCode::Key9 => Some(if shift { "(" } else { "9" }),
        VirtualKeyCode::Key0 => Some(if shift { ")" } else { "0" }),
        VirtualKeyCode::Numpad0 => Some("0"),
        VirtualKeyCode::Numpad1 => Some("1"),
        VirtualKeyCode::Numpad2 => Some("2"),
        VirtualKeyCode::Numpad3 => Some("3"),
        VirtualKeyCode::Numpad4 => Some("4"),
        VirtualKeyCode::Numpad5 => Some("5"),
        VirtualKeyCode::Numpad6 => Some("6"),
        VirtualKeyCode::Numpad7 => Some("7"),
        VirtualKeyCode::Numpad8 => Some("8"),
        VirtualKeyCode::Numpad9 => Some("9"),
        VirtualKeyCode::NumpadAdd => Some("+"),
        VirtualKeyCode::NumpadSubtract => Some("-"),
        VirtualKeyCode::NumpadMultiply => Some("*"),
        VirtualKeyCode::NumpadDivide => Some("/"),
        VirtualKeyCode::NumpadDecimal => Some("."),
        VirtualKeyCode::NumpadComma => Some(","),
        VirtualKeyCode::NumpadEquals => Some("="),
        VirtualKeyCode::Plus => Some("+"),
        VirtualKeyCode::Asterisk => Some("*"),
        VirtualKeyCode::At => Some("@"),
        VirtualKeyCode::Caret => Some("^"),
        VirtualKeyCode::Colon => Some(":"),
        VirtualKeyCode::Underline => Some("_"),
        _ => None,
    }
}

/// The upper-case form of an ASCII lower-case letter.
pub open spec fn upper(c: char) -> char {
    ((c as u32) - 32) as char
}

/// The value that a browser reports for a key: the letter (upper case with Shift) for a
/// letter key, its fixed name or (with Shift) its shifted character for the others, and
/// the key's own name for a key the browser has no value for.
pub open spec fn browser_key(k: VirtualKeyCode, shift: bool) -> Seq<char> {
    match letter_of(k) {
        Some(c) => if shift {
            seq![upper(c)]
        } else {
            seq![c]
        },
        None => match browser_value(k, shift) {
            Some(v) => v,
            None => key_name(k),
        },
    }
}

pub fn browser_key_name(key: VirtualKeyCode, shift: bool) -> (r: String)
    ensures
        r@ == browser_key(key, shift),
{
    if let Some(letter) = ascii_letter(key) {
        let mut s = String::new();
        if shift {
            let code: u32 = letter as u32 - 32;
            let upper_letter: char = char_from_code(code);
            crate::text::push_char(&mut s, upper_letter);
        } else {
            crate::text::push_char(&mut s, letter);
        }
        proof {
            assert(s@ =~= browser_key(key, shift));
        }
        return s;
    }
    match browser_value_of(key, shift) {
        Some(v) => v.to_owned(),
        None => key_name_of(key).to_owned(),
    }
}

/// The upper-case letters, by their code.
fn char_from_code(code: u32) -> (c: char)
    requires
        65 <= code <= 90,
    ensures
        c as u32 == code,
{
    match code {
        65 => 'A',
        66 => 'B',
        67 => 'C',
        68 => 'D',
        69 => 'E',
        70 => 'F',
        71 => 'G',
        72 => 'H',
        73 => 'I',
        74 => 'J',
        75 => 'K',
        76 => 'L',
        77 => 'M',
        78 => 'N',
        79 => 'O',
        80 => 'P',
        81 => 'Q',
        82 => 'R',
        83 => 'S',
        84 => 'T',
        85 => 'U',
        86 => 'V',
        87 => 'W',
        88 => 'X',
        89 => 'Y',
        _ => 'Z',
    }
}

proof fn lemma_held_push(o: Seq<(u32, Seq<char>)>, e: (u32, Seq<char>), x: u32)
    ensures
        scancode_held(o.push(e), x) <==> (scancode_held(o, x) || x == e.0),
{
    let p = o.push(e);
    if scancode_held(p, x) {
        let j = choose|j: int| 0 <= j < p.len() && p[j].0 == x;
        if j < o.len() {
            assert(o[j].0 == x);
        }
    }
    if scancode_held(o, x) {
        let j = choose|j: int| 0 <= j < o.len() && o[j].0 == x;
        assert(p[j].0 == x);
    }
    if x == e.0 {
        assert(p[o.len() as int].0 == x);
    }
}

proof fn lemma_held_remove(o: Seq<(u32, Seq<char>)>, i: int, x: u32)
    requires
        0 <= i < o.len(),
        forall|a: int, b: int| 0 <= a < b < o.len() ==> o[a].0 != o[b].0,
    ensures
        scancode_held(o.remove(i), x) <==> (scancode_held(o, x) && x != o[i].0),
{
    let r = o.remove(i);
    if scancode_held(r, x) {
        let j = choose|j: int| 0 <= j < r.len() && r[j].0 == x;
        if j < i {
            assert(o[j].0 == x);
        } else {
            assert(o[j + 1].0 == x);
        }
    }
    if scancode_held(o, x) && x != o[i].0 {
        let j = choose|j: int| 0 <= j < o.len() && o[j].0 == x;
        if j < i {
            assert(r[j].0 == x);
        } else {
            assert(r[j - 1].0 == x);
        }
    }
}

/// The events of an optional key event, as a list.
fn to_events(e: Option<InputEventValue>) -> (r: Vec<InputEventValue>)
    ensures
        crate::sim_ui::key_events_view(r@) == edges(keyboard_view(e)),
        e is None ==> r@.len() == 0,
        e matches Some(InputEventValue::Keyboard { .. }) ==> r@.len() == 1,
{
    let mut v: Vec<InputEventValue> = Vec::new();
    match e {
        Some(InputEventValue::Keyboard { pressed, key }) => {
            let ghost k = key@;
            v.push(InputEventValue::Keyboard { pressed, key });
            proof {
                assert(crate::sim_ui::key_events_view(v@) =~= seq![(pressed == Pressed::Yes, k)]);
            }
        },
        _ => {
            proof {
                assert(crate::sim_ui::key_events_view(v@) =~= Seq::<(bool, Seq<char>)>::empty());
            }
        },
    }
    v
}

/// A printable key that went down and waits for the character that the layout makes of
/// it: its scan code, the value to use when a dead key composes it, and the value to use
/// when no character comes.
#[derive(Clone, Debug)]
pub struct PendingPrintableKey {
    pub scancode: u32,
    pub fallback: String,
    pub missing_text_value: String,
}

/// The keys waiting for their characters, viewed.
pub open spec fn pending_view(v: Seq<PendingPrintableKey>) -> Seq<(u32, Seq<char>, Seq<char>)> {
    v.map_values(|p: PendingPrintableKey| (p.scancode, p.fallback@, p.missing_text_value@))
}

/// A key waiting for its character has the scan code `scancode`.
pub open spec fn pending_has(p: Seq<(u32, Seq<char>, Seq<char>)>, scancode: u32) -> bool {
    exists|i: int| 0 <= i < p.len() && p[i].0 == scancode
}

/// The position of the key with the scan code `scancode` among those waiting.
pub open spec fn pending_index(p: Seq<(u32, Seq<char>, Seq<char>)>, scancode: u32) -> int {
    choose|i: int| 0 <= i < p.len() && p[i].0 == scancode
}

/// A shortcut modifier is held: Command, or Control or Alt alone (both together are
/// AltGr).
pub open spec fn command_modifier(m: ModifiersState) -> bool {
    m.logo || (m.ctrl && !m.alt) || (m.alt && !m.ctrl)
}

/// The edge of an optional event, as a list.
pub open spec fn edges(o: Option<(bool, Seq<char>)>) -> Seq<(bool, Seq<char>)> {
    match o {
        Some(e) => seq![e],
        None => seq![],
    }
}

/// What the keyboard state is: the keys waiting for characters, the physical keys held
/// with their logical values, the keys that the user interface took, the modifiers, and
/// whether a dead key waits to compose the next character.
#[verifier::ext_equal]
pub struct KeyboardView {
    pub pending: Seq<(u32, Seq<char>, Seq<char>)>,
    pub active: Seq<(u32, Seq<char>)>,
    pub ui_owned: Seq<u32>,
    pub modifiers: ModifiersState,
    pub dead: bool,
}

/// The value that a printable key reports when no character comes: its own value as a
/// shortcut, `Dead` otherwise.
pub open spec fn missing_value(m: ModifiersState, fallback: Seq<char>) -> Seq<char> {
    if command_modifier(m) {
        fallback
    } else {
        "Dead"@
    }
}

/// The state and the key edges after a physical key goes down or up; `route` is false
/// when the user interface has the focus.
pub open spec fn routed_outcome(v: KeyboardView, input: KeyboardInput, route: bool) -> (
    KeyboardView,
    Seq<(bool, Seq<char>)>,
) {
    let sc = input.scancode;
    match input.state {
        ElementState::Pressed => {
            if scancode_held(v.active, sc) || v.ui_owned.contains(sc) || pending_has(v.pending, sc) {
                (v, seq![])
            } else {
                match input.virtual_keycode {
                    None => (v, seq![]),
                    Some(key) => {
                        if !route {
                            (KeyboardView { ui_owned: v.ui_owned.push(sc), ..v }, seq![])
                        } else {
                            let fallback = browser_key(key, v.modifiers.shift);
                            if layout_sensitive(key) {
                                (
                                    KeyboardView {
                                        pending: v.pending.push(
                                            (sc, fallback, missing_value(v.modifiers, fallback)),
                                        ),
                                        ..v
                                    },
                                    seq![],
                                )
                            } else {
                                let (a, e) = press_spec(v.active, sc, fallback);
                                (KeyboardView { active: a, ..v }, edges(e))
                            }
                        }
                    },
                }
            }
        },
        ElementState::Released => {
            if v.ui_owned.contains(sc) {
                (KeyboardView { ui_owned: v.ui_owned.remove(v.ui_owned.index_of(sc)), ..v }, seq![])
            } else if pending_has(v.pending, sc) {
                let i = pending_index(v.pending, sc);
                let p = v.pending[i];
                let (a1, e1) = press_spec(v.active, sc, p.2);
                let (a2, e2) = release_spec(a1, sc);
                (
                    KeyboardView {
                        pending: v.pending.remove(i),
                        active: a2,
                        dead: v.dead || p.2 == "Dead"@,
                        ..v
                    },
                    edges(e1) + edges(e2),
                )
            } else {
                let (a, e) = release_spec(v.active, sc);
                (KeyboardView { active: a, ..v }, edges(e))
            }
        },
    }
}

/// A control character (general category Cc).
pub open spec fn is_control_char(c: char) -> bool {
    (c as u32) <= 0x1f || (0x7f <= (c as u32) && (c as u32) <= 0x9f)
}

/// The state and the key edges after the layout delivers the character `c`: the oldest
/// waiting key goes down with it (or, after a dead key, with its own value).
pub open spec fn character_outcome(v: KeyboardView, c: char) -> (KeyboardView, Seq<(bool, Seq<char>)>) {
    if is_control_char(c) || v.pending.len() == 0 {
        (v, seq![])
    } else {
        let p = v.pending[0];
        let value = if v.dead {
            p.1
        } else {
            seq![c]
        };
        let (a, e) = press_spec(v.active, p.0, value);
        (KeyboardView { pending: v.pending.drop_first(), active: a, dead: false, ..v }, edges(e))
    }
}

/// The held keys, the dead-key flag and the edges after the waiting keys `ps` go down,
/// in order, each with the value it reports when no character comes.
pub open spec fn flush_spec(active: Seq<(u32, Seq<char>)>, dead: bool, ps: Seq<(u32, Seq<char>, Seq<char>)>) -> (
    Seq<(u32, Seq<char>)>,
    bool,
    Seq<(bool, Seq<char>)>,
)
    decreases ps.len(),
{
    if ps.len() == 0 {
        (active, dead, seq![])
    } else {
        let (a, d, e) = flush_spec(active, dead, ps.drop_last());
        let p = ps.last();
        let (a2, e2) = press_spec(a, p.0, p.2);
        (a2, d || p.2 == "Dead"@, e + edges(e2))
    }
}

/// Translates physical key events into the values a browser reports: printable keys wait
/// for the character of the active layout; a shortcut without text falls back to its own
/// key, and a printable without text is `Dead`. A release reuses the value chosen when the
/// key went down, and a logical key stays down while any physical key holds it.
#[derive(Clone, Debug, Default)]
pub struct SimulationKeyboardInput {
    pub pending_printable: Vec<PendingPrintableKey>,
    pub active: KeyOwners,
    pub ui_owned: Vec<u32>,
    pub modifiers: ModifiersState,
    pub dead_composition_pending: bool,
}

impl SimulationKeyboardInput {
    pub open spec fn view(&self) -> KeyboardView {
        KeyboardView {
            pending: pending_view(self.pending_printable@),
            active: owners_view(self.active.active@),
            ui_owned: self.ui_owned@,
            modifiers: self.modifiers,
            dead: self.dead_composition_pending,
        }
    }

    /// No physical key is held twice, and a key waiting for its character is not held.
    pub open spec fn wf(&self) -> bool {
        &&& self.active.wf()
        &&& forall|i: int, j: int|
            0 <= i < j < self.pending_printable@.len() ==> self.pending_printable@[i].scancode
                != self.pending_printable@[j].scancode
        &&& forall|i: int|
            0 <= i < self.pending_printable@.len() ==> !scancode_held(
                owners_view(self.active.active@),
                #[trigger] self.pending_printable@[i].scancode,
            )
        &&& self.ui_owned@.no_duplicates()
    }

    pub fn new() -> (r: SimulationKeyboardInput)
        ensures
            r.wf(),
            r.view().pending.len() == 0,
            r.view().active.len() == 0,
            r.view().ui_owned.len() == 0,
            r.view().modifiers == ModifiersState::empty_spec(),
            !r.view().dead,
    {
        SimulationKeyboardInput {
            pending_printable: Vec::new(),
            active: KeyOwners::new(),
            ui_owned: Vec::new(),
            modifiers: ModifiersState::empty(),
            dead_composition_pending: false,
        }
    }

    pub fn on_modifiers_changed(&mut self, modifiers: ModifiersState)
        ensures
            final(self).view() == (KeyboardView { modifiers, ..old(self).view() }),
            old(self).wf() ==> final(self).wf(),
    {
        self.modifiers = modifiers;
    }

    /// A physical key goes down or up; `route` is false when the user interface has the
    /// focus, which then owns the keys pressed. Returns the key edges for the simulation.
    pub fn on_keyboard_input_routed(&mut self, input: &KeyboardInput, route: bool) -> (r: Vec<InputEventValue>)
        requires
            old(self).wf(),
        ensures
            final(self).wf(),
            (final(self).view(), crate::sim_ui::key_events_view(r@)) == routed_outcome(old(self).view(), *input, route),
    {
        let sc = input.scancode;
        let ghost v = self.view();
        match input.state {
            ElementState::Pressed => {
                let f1 = self.active.find_scancode(sc);
                let f2 = self.find_ui_owned(sc);
                let f3 = self.find_pending(sc);
                proof {
                    if let Some(i) = f1 {
                        assert(v.active[i as int].0 == sc);
                    }
                    if let Some(i) = f2 {
                        assert(v.ui_owned[i as int] == sc);
                    }
                    if let Some(i) = f3 {
                        assert(v.pending[i as int].0 == sc);
                    }
                }
                if f1.is_some() || f2.is_some() || f3.is_some() {
                    proof {
                        assert(crate::sim_ui::key_events_view(Seq::<InputEventValue>::empty()) =~= Seq::<(bool, Seq<char>)>::empty());
                    }
                    return Vec::new();
                }
                let key = match input.virtual_keycode {
                    None => {
                        proof {
                            assert(crate::sim_ui::key_events_view(Seq::<InputEventValue>::empty()) =~= Seq::<(bool, Seq<char>)>::empty());
                        }
                        return Vec::new();
                    },
                    Some(k) => k,
                };
                if !route {
                    self.ui_owned.push(sc);
                    proof {
                        assert(crate::sim_ui::key_events_view(Seq::<InputEventValue>::empty()) =~= Seq::<(bool, Seq<char>)>::empty());
                        assert forall|a: int, b: int| 0 <= a < b < self.ui_owned@.len() implies self.ui_owned@[a] != self.ui_owned@[b] by {
                            if b == self.ui_owned@.len() - 1 {
                                assert(v.ui_owned[a] == self.ui_owned@[a]);
                            }
                        }
                        assert(self.view() =~= KeyboardView { ui_owned: v.ui_owned.push(sc), ..v });
                    }
                    return Vec::new();
                }
                let fallback = browser_key_name(key, self.modifiers.shift);
                if is_layout_sensitive_printable(key) {
                    let m = self.modifiers;
                    let command = m.logo || (m.ctrl && !m.alt) || (m.alt && !m.ctrl);
                    let missing = if command {
                        fallback.clone()
                    } else {
                        "Dead".to_owned()
                    };
                    let ghost entry = (sc, fallback@, missing@);
                    let ghost before = self.pending_printable@;
                    self.pending_printable.push(PendingPrintableKey { scancode: sc, fallback, missing_text_value: missing });
                    proof {
                        assert(crate::sim_ui::key_events_view(Seq::<InputEventValue>::empty()) =~= Seq::<(bool, Seq<char>)>::empty());
                        assert(pending_view(self.pending_printable@) =~= v.pending.push(entry));
                        assert(entry == (sc, browser_key(key, v.modifiers.shift), missing_value(v.modifiers, browser_key(key, v.modifiers.shift))));
                        assert forall|a: int, b: int| 0 <= a < b < self.pending_printable@.len() implies self.pending_printable@[a].scancode != self.pending_printable@[b].scancode by {
                            if b == before.len() {
                                assert(v.pending[a].0 == before[a].scancode);
                            }
                        }
                        assert forall|a: int| 0 <= a < self.pending_printable@.len() implies !scancode_held(
                            owners_view(self.active.active@),
                            #[trigger] self.pending_printable@[a].scancode,
                        ) by {
                            if a < before.len() {
                                assert(self.pending_printable@[a] == before[a]);
                            }
                        }
                        assert(self.view() =~= KeyboardView { pending: v.pending.push(entry), ..v });
                    }
                    Vec::new()
                } else {
                    let ghost fv = fallback@;
                    let e = self.active.press(sc, fallback);
                    proof {
                        assert forall|a: int| 0 <= a < self.pending_printable@.len() implies !scancode_held(
                            owners_view(self.active.active@),
                            #[trigger] self.pending_printable@[a].scancode,
                        ) by {
                            lemma_held_push(v.active, (sc, fv), self.pending_printable@[a].scancode);
                            assert(v.pending[a].0 == self.pending_printable@[a].scancode);
                        }
                        assert(self.view() =~= KeyboardView { active: press_spec(v.active, sc, fv).0, ..v });
                    }
                    to_events(e)
                }
            },
            ElementState::Released => {
                match self.find_ui_owned(sc) {
                    Some(i) => {
                        proof {
                            assert(v.ui_owned.contains(sc)) by {
                                assert(v.ui_owned[i as int] == sc);
                            }
                            let j = v.ui_owned.index_of(sc);
                            assert(j == i) by {
                                if j != i {
                                    assert(v.ui_owned[j] == v.ui_owned[i as int]);
                                }
                            }
                        }
                        self.ui_owned.remove(i);
                        proof {
                            assert(crate::sim_ui::key_events_view(Seq::<InputEventValue>::empty()) =~= Seq::<(bool, Seq<char>)>::empty());
                            assert forall|a: int, b: int| 0 <= a < b < self.ui_owned@.len() implies self.ui_owned@[a] != self.ui_owned@[b] by {
                                let a1 = if a < i { a } else { a + 1 };
                                let b1 = if b < i { b } else { b + 1 };
                                assert(self.ui_owned@[a] == v.ui_owned[a1] && self.ui_owned@[b] == v.ui_owned[b1]);
                            }
                            assert(self.view() =~= KeyboardView { ui_owned: v.ui_owned.remove(i as int), ..v });
                        }
                        return Vec::new();
                    },
                    None => {},
                }
                match self.find_pending(sc) {
                    Some(i) => {
                        proof {
                            assert(pending_has(v.pending, sc)) by {
                                assert(v.pending[i as int].0 == sc);
                            }
                            let j = pending_index(v.pending, sc);
                            assert(j == i) by {
                                if j != i {
                                    assert(self.pending_printable@[j].scancode == self.pending_printable@[i as int].scancode);
                                }
                            }
                            assert(!scancode_held(v.active, sc)) by {
                                assert(self.pending_printable@[i as int].scancode == sc);
                            }
                        }
                        let ghost before = self.pending_printable@;
                        let pending = self.pending_printable.remove(i);
                        let mut events: Vec<InputEventValue> = Vec::new();
                        if str_eq(pending.missing_text_value.as_str(), "Dead") {
                            self.dead_composition_pending = true;
                        }
                        let ghost missing = pending.missing_text_value@;
                        let ghost a0 = owners_view(self.active.active@);
                        let e1 = self.active.press(pending.scancode, pending.missing_text_value);
                        let ghost a1 = owners_view(self.active.active@);
                        proof {
                            lemma_held_push(a0, (sc, missing), sc);
                        }
                        let e2 = self.active.release(pending.scancode);
                        let ghost a2 = owners_view(self.active.active@);
                        let ev1 = to_events(e1);
                        let ev2 = to_events(e2);
                        let mut ev = ev1;
                        let mut ev2m = ev2;
                        ev.append(&mut ev2m);
                        proof {
                            assert(crate::sim_ui::key_events_view(ev@) =~= edges(keyboard_view(e1)) + edges(keyboard_view(e2)));
                            // the released key is the one just pressed, so what remains is what was held
                            let k = scancode_index(a1, sc);
                            assert(a1[a1.len() - 1].0 == sc);
                            assert(k == a1.len() - 1) by {
                                if k != a1.len() - 1 {
                                    assert(a1[k].0 == sc);
                                    if k < a0.len() {
                                        assert(a0[k].0 == sc);
                                    }
                                }
                            }
                            assert(a1.remove(k) =~= a0);
                            assert(pending_view(self.pending_printable@) =~= v.pending.remove(i as int));
                            assert forall|a: int, b: int| 0 <= a < b < self.pending_printable@.len() implies self.pending_printable@[a].scancode != self.pending_printable@[b].scancode by {
                                let a_1 = if a < i { a } else { a + 1 };
                                let b_1 = if b < i { b } else { b + 1 };
                                assert(self.pending_printable@[a] == before[a_1] && self.pending_printable@[b] == before[b_1]);
                            }
                            assert forall|a: int| 0 <= a < self.pending_printable@.len() implies !scancode_held(
                                owners_view(self.active.active@),
                                #[trigger] self.pending_printable@[a].scancode,
                            ) by {
                                let a_1 = if a < i { a } else { a + 1 };
                                assert(self.pending_printable@[a] == before[a_1]);
                            }
                            reveal_strlit("Dead");
                            assert(self.dead_composition_pending == (v.dead || missing == "Dead"@));
                            assert(self.view() =~= KeyboardView {
                                pending: v.pending.remove(i as int),
                                active: a2,
                                dead: v.dead || missing == "Dead"@,
                                ..v
                            });
                        }
                        return ev;
                    },
                    None => {},
                }
                let ghost a0 = owners_view(self.active.active@);
                let e = self.active.release(sc);
                proof {
                    assert forall|a: int| 0 <= a < self.pending_printable@.len() implies !scancode_held(
                        owners_view(self.active.active@),
                        #[trigger] self.pending_printable@[a].scancode,
                    ) by {
                        let x = self.pending_printable@[a].scancode;
                        if scancode_held(a0, sc) {
                            lemma_held_remove(a0, scancode_index(a0, sc), x);
                        }
                    }
                    assert(self.view() =~= KeyboardView { active: release_spec(v.active, sc).0, ..v });
                }
                to_events(e)
            },
        }
    }

    /// A physical key goes down or up while the simulation has the focus.
    pub fn on_keyboard_input(&mut self, input: &KeyboardInput) -> (r: Vec<InputEventValue>)
        requires
            old(self).wf(),
        ensures
            final(self).wf(),
            (final(self).view(), crate::sim_ui::key_events_view(r@)) == routed_outcome(old(self).view(), *input, true),
    {
        self.on_keyboard_input_routed(input, true)
    }

    /// The layout delivers the character `character`: the oldest key waiting for one goes
    /// down with it, or with its own value after a dead key.
    pub fn on_received_character(&mut self, character: char) -> (r: Vec<InputEventValue>)
        requires
            old(self).wf(),
        ensures
            final(self).wf(),
            (final(self).view(), crate::sim_ui::key_events_view(r@)) == character_outcome(old(self).view(), character),
    {
        let ghost v = self.view();
        let code = character as u32;
        if code <= 0x1f || (0x7f <= code && code <= 0x9f) || self.pending_printable.len() == 0 {
            proof {
                assert(crate::sim_ui::key_events_view(Seq::<InputEventValue>::empty()) =~= Seq::<(bool, Seq<char>)>::empty());
            }
            return Vec::new();
        }
        let ghost before = self.pending_printable@;
        let pending = self.pending_printable.remove(0);
        let value = if self.dead_composition_pending {
            pending.fallback
        } else {
            let mut text = String::new();
            crate::text::push_char(&mut text, character);
            proof {
                assert(text@ =~= seq![character]);
            }
            text
        };
        self.dead_composition_pending = false;
        let ghost a0 = owners_view(self.active.active@);
        let ghost value_view = value@;
        proof {
            assert(!scancode_held(a0, pending.scancode)) by {
                assert(before[0].scancode == pending.scancode);
            }
        }
        let e = self.active.press(pending.scancode, value);
        proof {
            assert(pending_view(self.pending_printable@) =~= v.pending.drop_first());
            assert forall|a: int, b: int| 0 <= a < b < self.pending_printable@.len() implies self.pending_printable@[a].scancode != self.pending_printable@[b].scancode by {
                assert(self.pending_printable@[a] == before[a + 1] && self.pending_printable@[b] == before[b + 1]);
            }
            assert forall|a: int| 0 <= a < self.pending_printable@.len() implies !scancode_held(
                owners_view(self.active.active@),
                #[trigger] self.pending_printable@[a].scancode,
            ) by {
                assert(self.pending_printable@[a] == before[a + 1]);
                lemma_held_push(a0, (pending.scancode, value_view), self.pending_printable@[a].scancode);
            }
            assert(self.view() =~= KeyboardView {
                pending: v.pending.drop_first(),
                active: press_spec(v.active, v.pending[0].0, value_view).0,
                dead: false,
                ..v
            });
        }
        to_events(e)
    }

    /// The tick comes before the characters: every key still waiting goes down with the
    /// value it reports when no character comes.
    pub fn flush_pending(&mut self) -> (r: Vec<InputEventValue>)
        requires
            old(self).wf(),
        ensures
            final(self).wf(),
            final(self).view().pending.len() == 0,
            final(self).view().ui_owned == old(self).view().ui_owned,
            final(self).view().modifiers == old(self).view().modifiers,
            ({
                let (a, d, e) = flush_spec(old(self).view().active, old(self).view().dead, old(self).view().pending);
                &&& final(self).view().active == a
                &&& final(self).view().dead == d
                &&& crate::sim_ui::key_events_view(r@) == e
            }),
    {
        let ghost v = self.view();
        let mut pending: Vec<PendingPrintableKey> = Vec::new();
        std::mem::swap(&mut pending, &mut self.pending_printable);
        let ghost ps = pending_view(pending@);
        let mut events: Vec<InputEventValue> = Vec::new();
        let mut i: usize = 0;
        while i < pending.len()
            invariant
                ps == pending_view(pending@),
                ps == v.pending,
                0 <= i <= ps.len(),
                self.active.wf(),
                self.pending_printable@.len() == 0,
                self.ui_owned@ == v.ui_owned,
                self.ui_owned@.no_duplicates(),
                self.modifiers == v.modifiers,
                forall|a: int, b: int| 0 <= a < b < pending@.len() ==> pending@[a].scancode != pending@[b].scancode,
                forall|a: int| i <= a < pending@.len() ==> !scancode_held(owners_view(self.active.active@), #[trigger] pending@[a].scancode),
                ({
                    let (a, d, e) = flush_spec(v.active, v.dead, ps.take(i as int));
                    &&& owners_view(self.active.active@) == a
                    &&& self.dead_composition_pending == d
                    &&& crate::sim_ui::key_events_view(events@) == e
                }),
            decreases ps.len() - i,
        {
            proof {
                assert(ps.take(i + 1).drop_last() =~= ps.take(i as int));
                assert(ps.take(i + 1).last() == ps[i as int]);
                reveal_strlit("Dead");
            }
            let p = &pending[i];
            if str_eq(p.missing_text_value.as_str(), "Dead") {
                self.dead_composition_pending = true;
            }
            let ghost a0 = owners_view(self.active.active@);
            let ghost mv = p.missing_text_value@;
            let sc = p.scancode;
            let e = self.active.press(sc, p.missing_text_value.clone());
            let mut ev = to_events(e);
            let ghost before = crate::sim_ui::key_events_view(events@);
            events.append(&mut ev);
            proof {
                assert(crate::sim_ui::key_events_view(events@) =~= before + edges(keyboard_view(e)));
                assert forall|a: int| i + 1 <= a < pending@.len() implies !scancode_held(owners_view(self.active.active@), #[trigger] pending@[a].scancode) by {
                    lemma_held_push(a0, (sc, mv), pending@[a].scancode);
                }
            }
            i = i + 1;
        }
        proof {
            assert(ps.take(ps.len() as int) =~= ps);
            assert(pending_view(self.pending_printable@) =~= Seq::<(u32, Seq<char>, Seq<char>)>::empty());
        }
        events
    }

    /// Forgets every key, the modifiers and a pending dead key, without events.
    pub fn clear(&mut self)
        ensures
            final(self).wf(),
            final(self).view().pending.len() == 0,
            final(self).view().active.len() == 0,
            final(self).view().ui_owned.len() == 0,
            final(self).view().modifiers == ModifiersState::empty_spec(),
            !final(self).view().dead,
    {
        self.pending_printable = Vec::new();
        self.active.clear();
        self.ui_owned = Vec::new();
        self.modifiers = ModifiersState { shift: false, ctrl: false, alt: false, logo: false };
        self.dead_composition_pending = false;
    }

    fn find_pending(&self, scancode: u32) -> (r: Option<usize>)
        ensures
            match r {
                Some(i) => i < self.pending_printable@.len() && self.pending_printable@[i as int].scancode
                    == scancode,
                None => !pending_has(self.view().pending, scancode),
            },
    {
        let mut i: usize = 0;
        while i < self.pending_printable.len()
            invariant
                0 <= i <= self.pending_printable@.len(),
                forall|j: int| 0 <= j < i ==> self.pending_printable@[j].scancode != scancode,
            decreases self.pending_printable@.len() - i,
        {
            if self.pending_printable[i].scancode == scancode {
                return Some(i);
            }
            i = i + 1;
        }
        proof {
            if pending_has(self.view().pending, scancode) {
                let j = choose|j: int| 0 <= j < self.view().pending.len() && self.view().pending[j].0 == scancode;
                assert(self.pending_printable@[j].scancode == scancode);
            }
        }
        None
    }

    fn find_ui_owned(&self, scancode: u32) -> (r: Option<usize>)
        ensures
            match r {
                Some(i) => i < self.ui_owned@.len() && self.ui_owned@[i as int] == scancode && forall|j: int|
                    0 <= j < i ==> self.ui_owned@[j] != scancode,
                None => !self.ui_owned@.contains(scancode),
            },
    {
        let mut i: usize = 0;
        while i < self.ui_owned.len()
            invariant
                0 <= i <= self.ui_owned@.len(),
                forall|j: int| 0 <= j < i ==> self.ui_owned@[j] != scancode,
            decreases self.ui_owned@.len() - i,
        {
            if self.ui_owned[i] == scancode {
                return Some(i);
            }
            i = i + 1;
        }
        None
    }
}

/// The value a key reports when it goes down and up with no character in between: its
/// own value, or for a key that waits for a character, the value it has without one.
pub open spec fn tapped_value(v: KeyboardView, key: VirtualKeyCode) -> Seq<char> {
    let fallback = browser_key(key, v.modifiers.shift);
    if layout_sensitive(key) {
        missing_value(v.modifiers, fallback)
    } else {
        fallback
    }
}

/// A physical key that goes down and straight up again, as `key`, leaves the held keys
/// as they were.
proof fn lemma_release_of_fresh_key(o: Seq<(u32, Seq<char>)>, scancode: u32, key: Seq<char>)
    requires
        !scancode_held(o, scancode),
    ensures
        release_spec(o.push((scancode, key)), scancode) == (o, if owned(o, key) {
            None::<(bool, Seq<char>)>
        } else {
            Some(key_event(false, key))
        }),
{
    let a = o.push((scancode, key));
    assert(a[o.len() as int].0 == scancode);
    assert(scancode_held(a, scancode));
    let i = scancode_index(a, scancode);
    if i < o.len() {
        assert(o[i].0 == scancode);
    }
    assert(i == o.len());
    assert(a.remove(i) =~= o);
}

/// Every key edge is balanced: a physical key that goes down and up again, with no
/// character in between, sends its logical key down and then up (or nothing, when another
/// physical key holds that logical key), and leaves the keyboard as it was but for a dead
/// key that now waits to compose.
pub proof fn lemma_tap_balances_edges(v: KeyboardView, scancode: u32, key: VirtualKeyCode)
    requires
        !scancode_held(v.active, scancode),
        !v.ui_owned.contains(scancode),
        !pending_has(v.pending, scancode),
    ensures
        ({
            let press = KeyboardInput { scancode, state: ElementState::Pressed, virtual_keycode: Some(key) };
            let release = KeyboardInput { scancode, state: ElementState::Released, virtual_keycode: Some(key) };
            let (v1, e1) = routed_outcome(v, press, true);
            let (v2, e2) = routed_outcome(v1, release, true);
            let k = tapped_value(v, key);
            &&& v2 == (KeyboardView { dead: v.dead || (layout_sensitive(key) && k == "Dead"@), ..v })
            &&& e1 + e2 == if owned(v.active, k) {
                Seq::<(bool, Seq<char>)>::empty()
            } else {
                seq![key_event(true, k), key_event(false, k)]
            }
        }),
{
    let press = KeyboardInput { scancode, state: ElementState::Pressed, virtual_keycode: Some(key) };
    let release = KeyboardInput { scancode, state: ElementState::Released, virtual_keycode: Some(key) };
    let (v1, e1) = routed_outcome(v, press, true);
    let (v2, e2) = routed_outcome(v1, release, true);
    let k = tapped_value(v, key);
    lemma_release_of_fresh_key(v.active, scancode, k);
    if layout_sensitive(key) {
        let fallback = browser_key(key, v.modifiers.shift);
        let entry = (scancode, fallback, k);
        assert(v1.pending == v.pending.push(entry));
        assert(v1.pending[v.pending.len() as int].0 == scancode);
        assert(pending_has(v1.pending, scancode));
        let i = pending_index(v1.pending, scancode);
        if i < v.pending.len() {
            assert(v.pending[i].0 == scancode);
        }
        assert(i == v.pending.len());
        assert(v1.pending.remove(i) =~= v.pending);
        assert(v2 =~= (KeyboardView { dead: v.dead || (layout_sensitive(key) && k == "Dead"@), ..v }));
    } else {
        assert(v2 =~= (KeyboardView { dead: v.dead || (layout_sensitive(key) && k == "Dead"@), ..v }));
    }
    if owned(v.active, k) {
        assert(e1 + e2 =~= Seq::<(bool, Seq<char>)>::empty());
    } else {
        assert(e1 + e2 =~= seq![key_event(true, k), key_event(false, k)]);
    }
}

/// The values a browser reports for the keys, whatever the keyboard layout: the arrows
/// keep their directions, the modifiers, editing and media keys their names, the letters
/// are lower case without Shift and upper case with it, and the keys of the main block
/// give their character or, with Shift, their shifted one.
pub proof fn lemma_browser_key_values(shift: bool)
    ensures
        browser_key(VirtualKeyCode::LShift, shift) == "Shift"@,
        browser_key(VirtualKeyCode::RShift, shift) == "Shift"@,
        browser_key(VirtualKeyCode::LControl, shift) == "Control"@,
        browser_key(VirtualKeyCode::RControl, shift) == "Control"@,
        browser_key(VirtualKeyCode::LAlt, shift) == "Alt"@,
        browser_key(VirtualKeyCode::RAlt, shift) == "Alt"@,
        browser_key(VirtualKeyCode::LWin, shift) == "Meta"@,
        browser_key(VirtualKeyCode::RWin, shift) == "Meta"@,
        browser_key(VirtualKeyCode::Space, shift) == " "@,
        browser_key(VirtualKeyCode::Left, shift) == "ArrowLeft"@,
        browser_key(VirtualKeyCode::Right, shift) == "ArrowRight"@,
        browser_key(VirtualKeyCode::Up, shift) == "ArrowUp"@,
        browser_key(VirtualKeyCode::Down, shift) == "ArrowDown"@,
        browser_key(VirtualKeyCode::Return, shift) == "Enter"@,
        browser_key(VirtualKeyCode::NumpadEnter, shift) == "Enter"@,
        browser_key(VirtualKeyCode::Back, shift) == "Backspace"@,
        browser_key(VirtualKeyCode::Capital, shift) == "CapsLock"@,
        browser_key(VirtualKeyCode::Snapshot, shift) == "PrintScreen"@,
        browser_key(VirtualKeyCode::Sysrq, shift) == "PrintScreen"@,
        browser_key(VirtualKeyCode::Scroll, shift) == "ScrollLock"@,
        browser_key(VirtualKeyCode::Numlock, shift) == "NumLock"@,
        browser_key(VirtualKeyCode::Apps, shift) == "ContextMenu"@,
        browser_key(VirtualKeyCode::NoConvert, shift) == "NonConvert"@,
        browser_key(VirtualKeyCode::Kana, shift) == "KanaMode"@,
        browser_key(VirtualKeyCode::Kanji, shift) == "KanjiMode"@,
        browser_key(VirtualKeyCode::NextTrack, shift) == "MediaTrackNext"@,
        browser_key(VirtualKeyCode::PrevTrack, shift) == "MediaTrackPrevious"@,
        browser_key(VirtualKeyCode::PlayPause, shift) == "MediaPlayPause"@,
        browser_key(VirtualKeyCode::Mute, shift) == "AudioVolumeMute"@,
        browser_key(VirtualKeyCode::VolumeDown, shift) == "AudioVolumeDown"@,
        browser_key(VirtualKeyCode::VolumeUp, shift) == "AudioVolumeUp"@,
        browser_key(VirtualKeyCode::WebBack, shift) == "BrowserBack"@,
        browser_key(VirtualKeyCode::NavigateBackward, shift) == "BrowserBack"@,
        browser_key(VirtualKeyCode::WebForward, shift) == "BrowserForward"@,
        browser_key(VirtualKeyCode::NavigateForward, shift) == "BrowserForward"@,
        browser_key(VirtualKeyCode::WebFavorites, shift) == "BrowserFavorites"@,
        browser_key(VirtualKeyCode::WebHome, shift) == "BrowserHome"@,
        browser_key(VirtualKeyCode::WebRefresh, shift) == "BrowserRefresh"@,
        browser_key(VirtualKeyCode::WebSearch, shift) == "BrowserSearch"@,
        browser_key(VirtualKeyCode::WebStop, shift) == "BrowserStop"@,
        browser_key(VirtualKeyCode::Mail, shift) == "LaunchMail"@,
        browser_key(VirtualKeyCode::MediaSelect, shift) == "LaunchMediaPlayer"@,
        browser_key(VirtualKeyCode::Calculator, shift) == "LaunchCalculator"@,
        browser_key(VirtualKeyCode::Wake, shift) == "WakeUp"@,
        browser_key(VirtualKeyCode::Equals, true) == "+"@,
        browser_key(VirtualKeyCode::Equals, false) == "="@,
        browser_key(VirtualKeyCode::Minus, true) == "_"@,
        browser_key(VirtualKeyCode::Minus, false) == "-"@,
        browser_key(VirtualKeyCode::Comma, true) == "<"@,
        browser_key(VirtualKeyCode::Comma, false) == ","@,
        browser_key(VirtualKeyCode::Period, true) == ">"@,
        browser_key(VirtualKeyCode::Period, false) == "."@,
        browser_key(VirtualKeyCode::Slash, true) == "?"@,
        browser_key(VirtualKeyCode::Slash, false) == "/"@,
        browser_key(VirtualKeyCode::Backslash, true) == "|"@,
        browser_key(VirtualKeyCode::Backslash, false) == "\\"@,
        browser_key(VirtualKeyCode::Semicolon, true) == ":"@,
        browser_key(VirtualKeyCode::Semicolon, false) == ";"@,
        browser_key(VirtualKeyCode::Apostrophe, true) == "\""@,
        browser_key(VirtualKeyCode::Apostrophe, false) == "'"@,
        browser_key(VirtualKeyCode::Grave, true) == "~"@,
        browser_key(VirtualKeyCode::Grave, false) == "`"@,
        browser_key(VirtualKeyCode::LBracket, true) == "{"@,
        browser_key(VirtualKeyCode::LBracket, false) == "["@,
        browser_key(VirtualKeyCode::RBracket, true) == "}"@,
        browser_key(VirtualKeyCode::RBracket, false) == "]"@,
        browser_key(VirtualKeyCode::Key1, true) == "!"@,
        browser_key(VirtualKeyCode::Key1, false) == "1"@,
        browser_key(VirtualKeyCode::Key2, true) == "@"@,
        browser_key(VirtualKeyCode::Key2, false) == "2"@,
        browser_key(VirtualKeyCode::Key3, true) == "#"@,
        browser_key(VirtualKeyCode::Key3, false) == "3"@,
        browser_key(VirtualKeyCode::Key4, true) == "$"@,
        browser_key(VirtualKeyCode::Key4, false) == "4"@,
        browser_key(VirtualKeyCode::Key5, true) == "%"@,
        browser_key(VirtualKeyCode::Key5, false) == "5"@,
        browser_key(VirtualKeyCode::Key6, true) == "^"@,
        browser_key(VirtualKeyCode::Key6, false) == "6"@,
        browser_key(VirtualKeyCode::Key7, true) == "&"@,
        browser_key(VirtualKeyCode::Key7, false) == "7"@,
        browser_key(VirtualKeyCode::Key8, true) == "*"@,
        browser_key(VirtualKeyCode::Key8, false) == "8"@,
        browser_key(VirtualKeyCode::Key9, true) == "("@,
        browser_key(VirtualKeyCode::Key9, false) == "9"@,
        browser_key(VirtualKeyCode::Key0, true) == ")"@,
        browser_key(VirtualKeyCode::Key0, false) == "0"@,
        browser_key(VirtualKeyCode::Numpad0, shift) == "0"@,
        browser_key(VirtualKeyCode::Numpad1, shift) == "1"@,
        browser_key(VirtualKeyCode::Numpad2, shift) == "2"@,
        browser_key(VirtualKeyCode::Numpad3, shift) == "3"@,
        browser_key(VirtualKeyCode::Numpad4, shift) == "4"@,
        browser_key(VirtualKeyCode::Numpad5, shift) == "5"@,
        browser_key(VirtualKeyCode::Numpad6, shift) == "6"@,
        browser_key(VirtualKeyCode::Numpad7, shift) == "7"@,
        browser_key(VirtualKeyCode::Numpad8, shift) == "8"@,
        browser_key(VirtualKeyCode::Numpad9, shift) == "9"@,
        browser_key(VirtualKeyCode::NumpadAdd, shift) == "+"@,
        browser_key(VirtualKeyCode::NumpadSubtract, shift) == "-"@,
        browser_key(VirtualKeyCode::NumpadMultiply, shift) == "*"@,
        browser_key(VirtualKeyCode::NumpadDivide, shift) == "/"@,
        browser_key(VirtualKeyCode::NumpadDecimal, shift) == "."@,
        browser_key(VirtualKeyCode::NumpadComma, shift) == ","@,
        browser_key(VirtualKeyCode::NumpadEquals, shift) == "="@,
        browser_key(VirtualKeyCode::Plus, shift) == "+"@,
        browser_key(VirtualKeyCode::Asterisk, shift) == "*"@,
        browser_key(VirtualKeyCode::At, shift) == "@"@,
        browser_key(VirtualKeyCode::Caret, shift) == "^"@,
        browser_key(VirtualKeyCode::Colon, shift) == ":"@,
        browser_key(VirtualKeyCode::Underline, shift) == "_"@,
        browser_key(VirtualKeyCode::A, false) == seq!['a'],
        browser_key(VirtualKeyCode::A, true) == seq!['A'],
        browser_key(VirtualKeyCode::B, false) == seq!['b'],
        browser_key(VirtualKeyCode::B, true) == seq!['B'],
        browser_key(VirtualKeyCode::C, false) == seq!['c'],
        browser_key(VirtualKeyCode::C, true) == seq!['C'],
        browser_key(VirtualKeyCode::D, false) == seq!['d'],
        browser_key(VirtualKeyCode::D, true) == seq!['D'],
        browser_key(VirtualKeyCode::E, false) == seq!['e'],
        browser_key(VirtualKeyCode::E, true) == seq!['E'],
        browser_key(VirtualKeyCode::F, false) == seq!['f'],
        browser_key(VirtualKeyCode::F, true) == seq!['F'],
        browser_key(VirtualKeyCode::G, false) == seq!['g'],
        browser_key(VirtualKeyCode::G, true) == seq!['G'],
        browser_key(VirtualKeyCode::H, false) == seq!['h'],
        browser_key(VirtualKeyCode::H, true) == seq!['H'],
        browser_key(VirtualKeyCode::I, false) == seq!['i'],
        browser_key(VirtualKeyCode::I, true) == seq!['I'],
        browser_key(VirtualKeyCode::J, false) == seq!['j'],
        browser_key(VirtualKeyCode::J, true) == seq!['J'],
        browser_key(VirtualKeyCode::K, false) == seq!['k'],
        browser_key(VirtualKeyCode::K, true) == seq!['K'],
        browser_key(VirtualKeyCode::L, false) == seq!['l'],
        browser_key(VirtualKeyCode::L, true) == seq!['L'],
        browser_key(VirtualKeyCode::M, false) == seq!['m'],
        browser_key(VirtualKeyCode::M, true) == seq!['M'],
        browser_key(VirtualKeyCode::N, false) == seq!['n'],
        browser_key(VirtualKeyCode::N, true) == seq!['N'],
        browser_key(VirtualKeyCode::O, false) == seq!['o'],
        browser_key(VirtualKeyCode::O, true) == seq!['O'],
        browser_key(VirtualKeyCode::P, false) == seq!['p'],
        browser_key(VirtualKeyCode::P, true) == seq!['P'],
        browser_key(VirtualKeyCode::Q, false) == seq!['q'],
        browser_key(VirtualKeyCode::Q, true) == seq!['Q'],
        browser_key(VirtualKeyCode::R, false) == seq!['r'],
        browser_key(VirtualKeyCode::R, true) == seq!['R'],
        browser_key(VirtualKeyCode::S, false) == seq!['s'],
        browser_key(VirtualKeyCode::S, true) == seq!['S'],
        browser_key(VirtualKeyCode::T, false) == seq!['t'],
        browser_key(VirtualKeyCode::T, true) == seq!['T'],
        browser_key(VirtualKeyCode::U, false) == seq!['u'],
        browser_key(VirtualKeyCode::U, true) == seq!['U'],
        browser_key(VirtualKeyCode::V, false) == seq!['v'],
        browser_key(VirtualKeyCode::V, true) == seq!['V'],
        browser_key(VirtualKeyCode::W, false) == seq!['w'],
        browser_key(VirtualKeyCode::W, true) == seq!['W'],
        browser_key(VirtualKeyCode::X, false) == seq!['x'],
        browser_key(VirtualKeyCode::X, true) == seq!['X'],
        browser_key(VirtualKeyCode::Y, false) == seq!['y'],
        browser_key(VirtualKeyCode::Y, true) == seq!['Y'],
        browser_key(VirtualKeyCode::Z, false) == seq!['z'],
        browser_key(VirtualKeyCode::Z, true) == seq!['Z'],
{
}

/// The keys a browser reports by their own names (function keys, navigation and editing
/// keys, Escape, Tab and the rest), with or without Shift.
pub proof fn lemma_named_browser_keys(shift: bool)
    ensures
        browser_key(VirtualKeyCode::Escape, shift) == "Escape"@,
        browser_key(VirtualKeyCode::F1, shift) == "F1"@,
        browser_key(VirtualKeyCode::F2, shift) == "F2"@,
        browser_key(VirtualKeyCode::F3, shift) == "F3"@,
        browser_key(VirtualKeyCode::F4, shift) == "F4"@,
        browser_key(VirtualKeyCode::F5, shift) == "F5"@,
        browser_key(VirtualKeyCode::F6, shift) == "F6"@,
        browser_key(VirtualKeyCode::F7, shift) == "F7"@,
        browser_key(VirtualKeyCode::F8, shift) == "F8"@,
        browser_key(VirtualKeyCode::F9, shift) == "F9"@,
        browser_key(VirtualKeyCode::F10, shift) == "F10"@,
        browser_key(VirtualKeyCode::F11, shift) == "F11"@,
        browser_key(VirtualKeyCode::F12, shift) == "F12"@,
        browser_key(VirtualKeyCode::F13, shift) == "F13"@,
        browser_key(VirtualKeyCode::F14, shift) == "F14"@,
        browser_key(VirtualKeyCode::F15, shift) == "F15"@,
        browser_key(VirtualKeyCode::F16, shift) == "F16"@,
        browser_key(VirtualKeyCode::F17, shift) == "F17"@,
        browser_key(VirtualKeyCode::F18, shift) == "F18"@,
        browser_key(VirtualKeyCode::F19, shift) == "F19"@,
        browser_key(VirtualKeyCode::F20, shift) == "F20"@,
        browser_key(VirtualKeyCode::F21, shift) == "F21"@,
        browser_key(VirtualKeyCode::F22, shift) == "F22"@,
        browser_key(VirtualKeyCode::F23, shift) == "F23"@,
        browser_key(VirtualKeyCode::F24, shift) == "F24"@,
        browser_key(VirtualKeyCode::Pause, shift) == "Pause"@,
        browser_key(VirtualKeyCode::Insert, shift) == "Insert"@,
        browser_key(VirtualKeyCode::Home, shift) == "Home"@,
        browser_key(VirtualKeyCode::Delete, shift) == "Delete"@,
        browser_key(VirtualKeyCode::End, shift) == "End"@,
        browser_key(VirtualKeyCode::PageDown, shift) == "PageDown"@,
        browser_key(VirtualKeyCode::PageUp, shift) == "PageUp"@,
        browser_key(VirtualKeyCode::Compose, shift) == "Compose"@,
        browser_key(VirtualKeyCode::AbntC1, shift) == "AbntC1"@,
        browser_key(VirtualKeyCode::AbntC2, shift) == "AbntC2"@,
        browser_key(VirtualKeyCode::Ax, shift) == "Ax"@,
        browser_key(VirtualKeyCode::Convert, shift) == "Convert"@,
        browser_key(VirtualKeyCode::MediaStop, shift) == "MediaStop"@,
        browser_key(VirtualKeyCode::MyComputer, shift) == "MyComputer"@,
        browser_key(VirtualKeyCode::OEM102, shift) == "OEM102"@,
        browser_key(VirtualKeyCode::Power, shift) == "Power"@,
        browser_key(VirtualKeyCode::Sleep, shift) == "Sleep"@,
        browser_key(VirtualKeyCode::Stop, shift) == "Stop"@,
        browser_key(VirtualKeyCode::Tab, shift) == "Tab"@,
        browser_key(VirtualKeyCode::Unlabeled, shift) == "Unlabeled"@,
        browser_key(VirtualKeyCode::Yen, shift) == "Yen"@,
        browser_key(VirtualKeyCode::Copy, shift) == "Copy"@,
        browser_key(VirtualKeyCode::Paste, shift) == "Paste"@,
        browser_key(VirtualKeyCode::Cut, shift) == "Cut"@,
{
}

} // verus!
