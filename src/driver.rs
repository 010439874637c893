use vstd::prelude::*;
use crate::input::{classify, Input};
use crate::state::{accepting, step, NumberState};
use crate::grammar::{lemma_accepts_grammar, number_grammar};
use crate::text::{
    has_content, is_white_space, lemma_trim_keeps_inner, lemma_trim_surrounded, strip_leading,
    trim_white_space, trimmed, all_white_space,
};

verus! {

/// The state the recogniser reaches from `Start` after reading `t`.
pub open spec fn run(t: Seq<char>) -> NumberState
    decreases t.len(),
{
    if t.len() == 0 {
        NumberState::Start
    } else {
        step(run(t.drop_last()), classify(t.last()))
    }
}

/// The state reached on `s` once its surrounding white space is trimmed.
pub open spec fn final_state(s: Seq<char>) -> NumberState {
    run(trimmed(s))
}

/// Trims `input` and runs the recogniser over its characters from `Start`.
pub fn get_final_state_for_input(input: String) -> (r: NumberState)
    ensures
        r == final_state(input@),
{
    let text = trim_white_space(input.as_str());
    let mut current_state = NumberState::new();
    for c in it: text.chars()
        invariant
            it.seq() == text@,
            current_state == run(text@.take(it.index() as int)),
    {
        assert(text@.take(it.index() + 1).drop_last() =~= text@.take(it.index() as int));
        let i = Input::from_char(c);
        current_state = current_state.next(i);
    }
    assert(text@.take(text@.len() as int) =~= text@);
    current_state
}

/// The state reached on `input` and whether `input` is a well-formed number.
pub fn validate(input: String) -> (r: (NumberState, bool))
    ensures
        r.0 == final_state(input@),
        r.1 == accepting(final_state(input@)),
{
    let s = get_final_state_for_input(input);
    (s, s.is_valid())
}

/// A character that is neither a digit nor a point, anywhere in `t`, ends the
/// run in `Fail`.
pub proof fn lemma_invalid_char_fails(t: Seq<char>, k: int)
    requires
        0 <= k < t.len(),
        classify(t[k]) == Input::Invalid,
    ensures
        run(t) == NumberState::Fail,
    decreases t.len(),
{
    if k + 1 < t.len() {
        assert(t.drop_last()[k] == t[k]);
        lemma_invalid_char_fails(t.drop_last(), k);
    }
}

/// The final state and the verdict depend on the input's characters alone:
/// equal inputs give equal results.
pub proof fn lemma_deterministic(s: Seq<char>, t: Seq<char>)
    requires
        s == t,
    ensures
        final_state(s) == final_state(t),
        accepting(final_state(s)) == accepting(final_state(t)),
{
}

/// An input is accepted exactly when, trimmed, it matches
/// `0 | [1-9][0-9]* | (0|[1-9][0-9]*)\.[0-9]+`.
pub proof fn lemma_valid_iff_grammar(s: Seq<char>)
    ensures
        accepting(final_state(s)) <==> number_grammar(trimmed(s)),
{
    lemma_accepts_grammar(trimmed(s));
}

/// White space around an input does not change the state it ends in.
pub proof fn lemma_surrounding_white_space(p: Seq<char>, s: Seq<char>, q: Seq<char>)
    requires
        all_white_space(p),
        all_white_space(q),
    ensures
        final_state(p + s + q) == final_state(s),
{
    lemma_trim_surrounded(p, s, q);
}

/// White space between two parts that are not all white space makes the
/// input fail.
pub proof fn lemma_inner_white_space_fails(a: Seq<char>, w: char, b: Seq<char>)
    requires
        has_content(a),
        has_content(b),
        is_white_space(w),
    ensures
        final_state(a + seq![w] + b) == NumberState::Fail,
{
    lemma_trim_keeps_inner(a, w, b);
    let t = trimmed(a + seq![w] + b);
    let k = strip_leading(a).len() as int;
    assert(t[k] == w);
    lemma_invalid_char_fails(t, k);
}

} // verus!
