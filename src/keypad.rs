use vstd::prelude::*;

verus! {

/// Number of keys on the hexadecimal keypad.
pub const KEY_COUNT: usize = 16;

/// The sixteen physical keys of the host keyboard that drive the keypad.
///
/// Layout on the host keyboard and the logical key each one stands for:
///
/// ```text
/// 1 2 3 4        1 2 3 C
/// Q W E R   =>   4 5 6 D
/// A S D F        7 8 9 E
/// Z X C V        A 0 B F
/// ```
#[derive(Clone, Copy, Debug, PartialEq, Eq, Structural)]
pub enum Key {
    Num1,
    Num2,
    Num3,
    Num4,
    Q,
    W,
    E,
    R,
    A,
    S,
    D,
    F,
    Z,
    X,
    C,
    V,
}

/// The logical keypad index that a physical key stands for.
pub open spec fn key_index(key: Key) -> nat {
    match key {
        Key::Num1 => 0x1,
        Key::Num2 => 0x2,
        Key::Num3 => 0x3,
        Key::Num4 => 0xc,
        Key::Q => 0x4,
        Key::W => 0x5,
        Key::E => 0x6,
        Key::R => 0xd,
        Key::A => 0x7,
        Key::S => 0x8,
        Key::D => 0x9,
        Key::F => 0xe,
        Key::Z => 0xa,
        Key::X => 0x0,
        Key::C => 0xb,
        Key::V => 0xf,
    }
}

/// Pressed / released state of the sixteen keys `0x0..=0xF`.
#[derive(Debug)]
pub struct Keypad {
    keys: Vec<bool>,
}

impl View for Keypad {
    type V = Seq<bool>;

    closed spec fn view(&self) -> Seq<bool> {
        self.keys@
    }
}

impl Keypad {
    pub open spec fn wf(&self) -> bool {
        self@.len() == KEY_COUNT
    }

    /// A keypad with every key released.
    pub fn new() -> (r: Keypad)
        ensures
            r.wf(),
            forall|k: int| 0 <= k < KEY_COUNT ==> !r@[k],
    {
        Keypad { keys: vec![false; KEY_COUNT] }
    }

    /// Whether key `index` is currently held down.
    pub fn pressed(&self, index: usize) -> (r: bool)
        requires
            self.wf(),
            index < KEY_COUNT,
        ensures
            r == self@[index as int],
    {
        self.keys[index]
    }

    /// Records that the physical key `key` went down (`state == true`) or up.
    pub fn press(&mut self, key: Key, state: bool)
        requires
            old(self).wf(),
        ensures
            final(self).wf(),
            final(self)@ == old(self)@.update(key_index(key) as int, state),
    {
        let index: usize = match key {
            Key::Num1 => 0x1,
            Key::Num2 => 0x2,
            Key::Num3 => 0x3,
            Key::Num4 => 0xc,
            Key::Q => 0x4,
            Key::W => 0x5,
            Key::E => 0x6,
            Key::R => 0xd,
            Key::A => 0x7,
            Key::S => 0x8,
            Key::D => 0x9,
            Key::F => 0xe,
            Key::Z => 0xa,
            Key::X => 0x0,
            Key::C => 0xb,
            Key::V => 0xf,
        };
        self.set_key(index, state);
    }

    /// Sets the state of logical key `index`; the other keys keep theirs.
    pub fn set_key(&mut self, index: usize, state: bool)
        requires
            old(self).wf(),
            index < KEY_COUNT,
        ensures
            final(self).wf(),
            final(self)@ == old(self)@.update(index as int, state),
    {
        self.keys.set(index, state);
    }
}

impl Default for Keypad {
    fn default() -> (r: Keypad)
        ensures
            r.wf(),
            forall|k: int| 0 <= k < KEY_COUNT ==> !r@[k],
    {
        Keypad::new()
    }
}

} // verus!
