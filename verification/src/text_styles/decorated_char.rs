use super::text_style::TextStyle;
use vstd::prelude::*;

verus! {

/// A character together with the style it was printed in.
#[derive(Clone, Copy, Debug, PartialEq, Eq, Structural)]
pub struct DecoratedChar {
    pub char: char,
    pub style: TextStyle,
}

impl DecoratedChar {
    /// Pairs a character with a copy of a style.
    pub fn new(char: char, style: TextStyle) -> (d: Self)
        ensures
            d.char == char,
            d.style == style,
    {
        DecoratedChar { char, style }
    }
}

/// Lets a decorated character be read where a plain one is wanted: the character
/// without its style.
impl From<DecoratedChar> for char {
    fn from(decorated_char: DecoratedChar) -> (c: char) {
        decorated_char.char
    }
}

impl vstd::std_specs::convert::FromSpecImpl<DecoratedChar> for char {
    open spec fn obeys_from_spec() -> bool {
        true
    }

    open spec fn from_spec(decorated_char: DecoratedChar) -> char {
        decorated_char.char
    }
}

} // verus!
