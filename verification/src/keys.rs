//! The keys that repair objects.

use vstd::prelude::*;

verus! {

/// A key of the keyboard, by its symbolic name. Two keys are equal when they
/// are the same variant; two unlisted keys, when their codes are equal.
#[derive(Clone, Copy, Debug, PartialEq, Eq, Structural, Hash)]
pub enum FixKey {
    Key1,
    Key2,
    Key3,
    Key4,
    Key5,
    Key6,
    Key7,
    Key8,
    Key9,
    Key0,
    A,
    B,
    C,
    D,
    E,
    F,
    G,
    H,
    I,
    J,
    K,
    L,
    M,
    N,
    O,
    P,
    Q,
    R,
    S,
    T,
    U,
    V,
    W,
    X,
    Y,
    Z,
    Escape,
    Left,
    Up,
    Right,
    Down,
    Back,
    Return,
    Space,
    Tab,
    /// A key without a name in this list, by the code the host gives it.
    Other(u32),
}

impl FixKey {
    /// The name that is shown for the key.
    pub open spec fn label(self) -> Seq<char> {
        match self {
            FixKey::Key1 => "Key1"@,
            FixKey::Key2 => "Key2"@,
            FixKey::Key3 => "Key3"@,
            FixKey::Key4 => "Key4"@,
            FixKey::Key5 => "Key5"@,
            FixKey::Key6 => "Key6"@,
            FixKey::Key7 => "Key7"@,
            FixKey::Key8 => "Key8"@,
            FixKey::Key9 => "Key9"@,
            FixKey::Key0 => "Key0"@,
            FixKey::A => "A"@,
            FixKey::B => "B"@,
            FixKey::C => "C"@,
            FixKey::D => "D"@,
            FixKey::E => "E"@,
            FixKey::F => "F"@,
            FixKey::G => "G"@,
            FixKey::H => "H"@,
            FixKey::I => "I"@,
            FixKey::J => "J"@,
            FixKey::K => "K"@,
            FixKey::L => "L"@,
            FixKey::M => "M"@,
            FixKey::N => "N"@,
            FixKey::O => "O"@,
            FixKey::P => "P"@,
            FixKey::Q => "Q"@,
            FixKey::R => "R"@,
            FixKey::S => "S"@,
            FixKey::T => "T"@,
            FixKey::U => "U"@,
            FixKey::V => "V"@,
            FixKey::W => "W"@,
            FixKey::X => "X"@,
            FixKey::Y => "Y"@,
            FixKey::Z => "Z"@,
            FixKey::Escape => "Escape"@,
            FixKey::Left => "Left"@,
            FixKey::Up => "Up"@,
            FixKey::Right => "Right"@,
            FixKey::Down => "Down"@,
            FixKey::Back => "Back"@,
            FixKey::Return => "Return"@,
            FixKey::Space => "Space"@,
            FixKey::Tab => "Tab"@,
            FixKey::Other(_) => "Other"@,
        }
    }

    /// The name that is shown for the key.
    pub fn name(&self) -> (name: &'static str)
        ensures
            name@ == self.label(),
    {
        match self {
            FixKey::Key1 => "Key1",
            FixKey::Key2 => "Key2",
            FixKey::Key3 => "Key3",
            FixKey::Key4 => "Key4",
            FixKey::Key5 => "Key5",
            FixKey::Key6 => "Key6",
            FixKey::Key7 => "Key7",
            FixKey::Key8 => "Key8",
            FixKey::Key9 => "Key9",
            FixKey::Key0 => "Key0",
            FixKey::A => "A",
            FixKey::B => "B",
            FixKey::C => "C",
            FixKey::D => "D",
            FixKey::E => "E",
            FixKey::F => "F",
            FixKey::G => "G",
            FixKey::H => "H",
            FixKey::I => "I",
            FixKey::J => "J",
            FixKey::K => "K",
            FixKey::L => "L",
            FixKey::M => "M",
            FixKey::N => "N",
            FixKey::O => "O",
            FixKey::P => "P",
            FixKey::Q => "Q",
            FixKey::R => "R",
            FixKey::S => "S",
            FixKey::T => "T",
            FixKey::U => "U",
            FixKey::V => "V",
            FixKey::W => "W",
            FixKey::X => "X",
            FixKey::Y => "Y",
            FixKey::Z => "Z",
            FixKey::Escape => "Escape",
            FixKey::Left => "Left",
            FixKey::Up => "Up",
            FixKey::Right => "Right",
            FixKey::Down => "Down",
            FixKey::Back => "Back",
            FixKey::Return => "Return",
            FixKey::Space => "Space",
            FixKey::Tab => "Tab",
            FixKey::Other(_) => "Other",
        }
    }
}

} // verus!
