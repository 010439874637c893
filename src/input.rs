use vstd::prelude::*;

verus! {

/// What one character means to the number recogniser.
#[derive(PartialEq, Eq, Structural, Debug, Clone, Copy)]
pub enum Input {
    /// A decimal digit, holding its value `0..=9`.
    Digit(u8),
    /// The character `'.'`.
    DecimalPoint,
    /// Any other character.
    Invalid,
}

/// `c` is one of `'0'..='9'`.
pub open spec fn is_digit(c: char) -> bool {
    '0' as u32 <= c as u32 <= '9' as u32
}

/// `c` is one of `'1'..='9'`.
pub open spec fn is_nonzero_digit(c: char) -> bool {
    '1' as u32 <= c as u32 <= '9' as u32
}

/// The input category of a character.
pub open spec fn classify(c: char) -> Input {
    if is_digit(c) {
        Input::Digit((c as u32 - '0' as u32) as u8)
    } else if c == '.' {
        Input::DecimalPoint
    } else {
        Input::Invalid
    }
}

impl Input {
    /// Classifies one character.
    pub fn from_char(c: char) -> (r: Self)
        ensures
            r == classify(c),
            r matches Input::Digit(d) ==> d <= 9 && (d == 0 <==> c == '0'),
    {
        if '0' <= c && c <= '9' {
            Input::Digit((c as u32 - '0' as u32) as u8)
        } else if c == '.' {
            Input::DecimalPoint
        } else {
            Input::Invalid
        }
    }
}

} // verus!
