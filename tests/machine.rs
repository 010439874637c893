use number_fsm::driver::{get_final_state_for_input, validate};
use number_fsm::input::Input;
use number_fsm::state::NumberState;
use number_fsm::state::NumberState::{
    DecimalPoint, DigitAfterDecimalPoint, DigitBeforeDecimalPoint, Fail, Start, Zero,
};

const ALL_STATES: [NumberState; 6] = [
    NumberState::Start,
    NumberState::Zero,
    NumberState::Fail,
    NumberState::DecimalPoint,
    NumberState::DigitBeforeDecimalPoint,
    NumberState::DigitAfterDecimalPoint,
];

fn all_inputs() -> Vec<Input> {
    let mut v: Vec<Input> = (0u8..=9).map(Input::Digit).collect();
    v.push(Input::DecimalPoint);
    v.push(Input::Invalid);
    v
}

fn state_of(s: &str) -> NumberState {
    get_final_state_for_input(s.to_string())
}

#[test]
fn classifies_characters() {
    assert_eq!(Input::from_char('0'), Input::Digit(0));
    assert_eq!(Input::from_char('7'), Input::Digit(7));
    assert_eq!(Input::from_char('9'), Input::Digit(9));
    assert_eq!(Input::from_char('.'), Input::DecimalPoint);
    assert_eq!(Input::from_char('a'), Input::Invalid);
    assert_eq!(Input::from_char(' '), Input::Invalid);
    assert_eq!(Input::from_char('/'), Input::Invalid);
    assert_eq!(Input::from_char(':'), Input::Invalid);
    assert_eq!(Input::from_char('٣'), Input::Invalid);
}

#[test]
fn transition_table() {
    let cases = [
        (Start, Input::Digit(0), Zero),
        (Start, Input::Digit(5), DigitBeforeDecimalPoint),
        (Start, Input::DecimalPoint, Fail),
        (Start, Input::Invalid, Fail),
        (Zero, Input::Digit(0), Fail),
        (Zero, Input::Digit(3), Fail),
        (Zero, Input::DecimalPoint, DecimalPoint),
        (Zero, Input::Invalid, Fail),
        (DigitBeforeDecimalPoint, Input::Digit(0), DigitBeforeDecimalPoint),
        (DigitBeforeDecimalPoint, Input::Digit(8), DigitBeforeDecimalPoint),
        (DigitBeforeDecimalPoint, Input::DecimalPoint, DecimalPoint),
        (DigitBeforeDecimalPoint, Input::Invalid, Fail),
        (DecimalPoint, Input::Digit(0), DigitAfterDecimalPoint),
        (DecimalPoint, Input::Digit(1), DigitAfterDecimalPoint),
        (DecimalPoint, Input::DecimalPoint, Fail),
        (DecimalPoint, Input::Invalid, Fail),
        (DigitAfterDecimalPoint, Input::Digit(0), DigitAfterDecimalPoint),
        (DigitAfterDecimalPoint, Input::Digit(9), DigitAfterDecimalPoint),
        (DigitAfterDecimalPoint, Input::DecimalPoint, Fail),
        (DigitAfterDecimalPoint, Input::Invalid, Fail),
    ];
    for (from, input, to) in cases {
        assert_eq!(from.next(input), to);
    }
}

#[test]
fn every_pair_has_a_successor() {
    for s in ALL_STATES {
        for i in all_inputs() {
            let n = s.next(i);
            assert!(ALL_STATES.contains(&n));
        }
    }
}

#[test]
fn fail_is_absorbing() {
    for i in all_inputs() {
        assert_eq!(NumberState::Fail.next(i), NumberState::Fail);
    }
}

#[test]
fn new_is_start() {
    assert_eq!(NumberState::new(), NumberState::Start);
}

#[test]
fn accepting_states() {
    let accepting: Vec<bool> = ALL_STATES.iter().map(|s| s.is_valid()).collect();
    assert_eq!(accepting, vec![false, true, false, false, true, true]);
}

#[test]
fn labels() {
    assert_eq!(NumberState::Start.label(), "start");
    assert_eq!(NumberState::Zero.label(), "zero");
    assert_eq!(NumberState::Fail.label(), "fail");
    assert_eq!(NumberState::DecimalPoint.label(), "decimal point");
    assert_eq!(NumberState::DigitBeforeDecimalPoint.label(), "digit before decimal point");
    assert_eq!(NumberState::DigitAfterDecimalPoint.label(), "digit after decimal point");
}

#[test]
fn same_input_same_state() {
    for s in ["", "0", "01", "45.6", "3.ad", " 7 ", "1."] {
        assert_eq!(state_of(s), state_of(s));
        assert_eq!(validate(s.to_string()), validate(s.to_string()));
    }
}

#[test]
fn leading_zero_rejected() {
    assert!(!state_of("00").is_valid());
    assert!(!state_of("01").is_valid());
    assert!(state_of("0").is_valid());
    assert_eq!(state_of("0"), NumberState::Zero);
    assert_eq!(state_of("01"), NumberState::Fail);
}

#[test]
fn decimal_edge_cases() {
    for s in ["0.", "1.", ".", ".1", ".0"] {
        assert!(!state_of(s).is_valid(), "{s:?}");
    }
    for s in ["0.0", "1.0", "45.6"] {
        assert!(state_of(s).is_valid(), "{s:?}");
    }
    assert_eq!(state_of("1."), NumberState::DecimalPoint);
    assert_eq!(state_of(".1"), NumberState::Fail);
    assert_eq!(state_of("45.6"), NumberState::DigitAfterDecimalPoint);
    assert_eq!(state_of("45"), NumberState::DigitBeforeDecimalPoint);
}

#[test]
fn double_point_rejected() {
    assert!(!state_of("0..").is_valid());
    assert!(!state_of("1.2.3").is_valid());
    assert_eq!(state_of("1.2.3"), NumberState::Fail);
}

#[test]
fn empty_and_non_numeric() {
    assert_eq!(state_of(""), NumberState::Start);
    assert_eq!(state_of("abc"), NumberState::Fail);
    assert_eq!(state_of("3.ad"), NumberState::Fail);
    for s in ["", "abc", "3.ad"] {
        assert!(!state_of(s).is_valid());
    }
}

#[test]
fn no_sign_or_exponent() {
    for s in ["-1", "+1", "1e5", "1,000"] {
        assert_eq!(state_of(s), NumberState::Fail, "{s:?}");
    }
}

#[test]
fn surrounding_white_space_ignored() {
    assert_eq!(state_of(" 42 "), NumberState::DigitBeforeDecimalPoint);
    assert_eq!(state_of("\t0.5\n"), NumberState::DigitAfterDecimalPoint);
    assert_eq!(state_of("\u{3000}7\u{2003}"), NumberState::DigitBeforeDecimalPoint);
    assert_eq!(state_of("   "), NumberState::Start);
    assert_eq!(state_of(" 0 "), state_of("0"));
    assert_eq!(validate(" 42 ".to_string()), (NumberState::DigitBeforeDecimalPoint, true));
}

#[test]
fn inner_white_space_fails() {
    assert_eq!(state_of("4 2"), NumberState::Fail);
    assert_eq!(state_of(" 4 2 "), NumberState::Fail);
    assert_eq!(state_of("1.\u{a0}5"), NumberState::Fail);
    assert_eq!(validate("4 2".to_string()), (NumberState::Fail, false));
}

#[test]
fn validate_pairs_state_and_verdict() {
    assert_eq!(validate("3.14".to_string()), (NumberState::DigitAfterDecimalPoint, true));
    assert_eq!(validate("".to_string()), (NumberState::Start, false));
    assert_eq!(validate("7.".to_string()), (NumberState::DecimalPoint, false));
    assert_eq!(validate("0".to_string()), (NumberState::Zero, true));
}
