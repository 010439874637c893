use vstd::prelude::*;
use crate::input::Input;

verus! {

/// The states of the number recogniser.
#[derive(PartialEq, Eq, Structural, Debug, Clone, Copy)]
pub enum NumberState {
    /// Nothing consumed yet.
    Start,
    /// Exactly the single digit `0`, no point yet.
    Zero,
    /// The input can no longer become a number; never left once entered.
    Fail,
    /// A point has just been consumed, with no digit after it yet.
    DecimalPoint,
    /// One or more digits, the first nonzero, no point yet.
    DigitBeforeDecimalPoint,
    /// At least one digit after the point.
    DigitAfterDecimalPoint,
}

/// The transition table.
pub open spec fn step(s: NumberState, i: Input) -> NumberState {
    match (s, i) {
        (NumberState::Start, Input::Digit(d)) => if d == 0 {
            NumberState::Zero
        } else {
            NumberState::DigitBeforeDecimalPoint
        },
        (NumberState::Zero, Input::DecimalPoint) => NumberState::DecimalPoint,
        (NumberState::DigitBeforeDecimalPoint, Input::Digit(_)) => NumberState::DigitBeforeDecimalPoint,
        (NumberState::DigitBeforeDecimalPoint, Input::DecimalPoint) => NumberState::DecimalPoint,
        (NumberState::DecimalPoint, Input::Digit(_)) => NumberState::DigitAfterDecimalPoint,
        (NumberState::DigitAfterDecimalPoint, Input::Digit(_)) => NumberState::DigitAfterDecimalPoint,
        _ => NumberState::Fail,
    }
}

/// The accepting states: the input read so far is a number.
pub open spec fn accepting(s: NumberState) -> bool {
    s is Zero || s is DigitBeforeDecimalPoint || s is DigitAfterDecimalPoint
}

/// The human-readable name of a state.
pub open spec fn label_of(s: NumberState) -> Seq<char> {
    match s {
        NumberState::Start => "start"@,
        NumberState::Zero => "zero"@,
        NumberState::Fail => "fail"@,
        NumberState::DecimalPoint => "decimal point"@,
        NumberState::DigitBeforeDecimalPoint => "digit before decimal point"@,
        NumberState::DigitAfterDecimalPoint => "digit after decimal point"@,
    }
}

impl NumberState {
    /// The initial state.
    pub fn new() -> (r: Self)
        ensures
            r == NumberState::Start,
    {
        NumberState::Start
    }

    /// The state after reading one more input; defined for every state and input.
    pub fn next(self, i: Input) -> (r: Self)
        ensures
            r == step(self, i),
    {
        match self {
            NumberState::Start => match i {
                Input::Digit(0) => NumberState::Zero,
                Input::Digit(_) => NumberState::DigitBeforeDecimalPoint,
                Input::DecimalPoint => NumberState::Fail,
                Input::Invalid => NumberState::Fail,
            },
            NumberState::Zero => match i {
                Input::DecimalPoint => NumberState::DecimalPoint,
                Input::Digit(_) => NumberState::Fail,
                Input::Invalid => NumberState::Fail,
            },
            NumberState::Fail => NumberState::Fail,
            NumberState::DecimalPoint => match i {
                Input::Digit(_) => NumberState::DigitAfterDecimalPoint,
                Input::DecimalPoint => NumberState::Fail,
                Input::Invalid => NumberState::Fail,
            },
            NumberState::DigitBeforeDecimalPoint => match i {
                Input::Digit(_) => NumberState::DigitBeforeDecimalPoint,
                Input::DecimalPoint => NumberState::DecimalPoint,
                Input::Invalid => NumberState::Fail,
            },
            NumberState::DigitAfterDecimalPoint => match i {
                Input::Digit(_) => NumberState::DigitAfterDecimalPoint,
                Input::DecimalPoint => NumberState::Fail,
                Input::Invalid => NumberState::Fail,
            },
        }
    }

    /// Whether the input read so far is a well-formed number.
    pub fn is_valid(&self) -> (r: bool)
        ensures
            r == accepting(*self),
    {
        match self {
            NumberState::DigitAfterDecimalPoint => true,
            NumberState::DigitBeforeDecimalPoint => true,
            NumberState::Zero => true,
            _ => false,
        }
    }

    /// The state's name: "start", "zero", "fail", "decimal point",
    /// "digit before decimal point" or "digit after decimal point".
    pub fn label(&self) -> (r: &'static str)
        ensures
            r@ == label_of(*self),
    {
        match self {
            NumberState::Start => "start",
            NumberState::Zero => "zero",
            NumberState::Fail => "fail",
            NumberState::DecimalPoint => "decimal point",
            NumberState::DigitBeforeDecimalPoint => "digit before decimal point",
            NumberState::DigitAfterDecimalPoint => "digit after decimal point",
        }
    }
}

/// `Fail` is absorbing: every input leaves it in `Fail`.
pub proof fn lemma_fail_absorbing(i: Input)
    ensures
        step(NumberState::Fail, i) == NumberState::Fail,
{
}

/// An invalid character sends every state to `Fail`.
pub proof fn lemma_invalid_fails(s: NumberState)
    ensures
        step(s, Input::Invalid) == NumberState::Fail,
{
}

} // verus!
