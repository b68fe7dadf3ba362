use vstd::prelude::*;

verus! {

/// A key press, as far as the screens tell keys apart.
#[derive(Clone, Copy, Debug, PartialEq, Eq)]
pub enum Key {
    Char(char),
    Up,
    Down,
    Left,
    Right,
    Enter,
    Esc,
    Other,
}

impl Key {
    /// Whether the key is the letter `lower` or its capital `upper`.
    pub open spec fn is_letter(self, lower: char, upper: char) -> bool {
        self == Key::Char(lower) || self == Key::Char(upper)
    }

    /// Decides [`Key::is_letter`].
    pub fn letter(&self, lower: char, upper: char) -> (b: bool)
        ensures
            b == self.is_letter(lower, upper),
    {
        match self {
            Key::Char(c) => *c == lower || *c == upper,
            _ => false,
        }
    }
}

} // verus!
