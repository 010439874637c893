use vstd::prelude::*;
use crate::driver::run;
use crate::input::{classify, is_digit, is_nonzero_digit};
use crate::state::{accepting, step, NumberState};
use vstd::utf8::char_u32_cast;

verus! {

/// Every character of `t` is a decimal digit.
pub open spec fn all_digits(t: Seq<char>) -> bool {
    forall|i: int| 0 <= i < t.len() ==> is_digit(#[trigger] t[i])
}

/// `t` matches `[1-9][0-9]*`.
pub open spec fn nonzero_integer(t: Seq<char>) -> bool {
    t.len() >= 1 && is_nonzero_digit(t[0]) && all_digits(t.drop_first())
}

/// `t` matches `0 | [1-9][0-9]*`.
pub open spec fn integer_part(t: Seq<char>) -> bool {
    t == seq!['0'] || nonzero_integer(t)
}

/// `t` matches `(0|[1-9][0-9]*)\.[0-9]+`, with the point at index `k`.
pub open spec fn fraction_at(t: Seq<char>, k: int) -> bool {
    &&& 0 <= k
    &&& k + 2 <= t.len()
    &&& t[k] == '.'
    &&& integer_part(t.take(k))
    &&& all_digits(t.skip(k + 1))
}

/// `t` matches `(0|[1-9][0-9]*)\.[0-9]+`.
pub open spec fn fraction(t: Seq<char>) -> bool {
    exists|k: int| fraction_at(t, k)
}

/// `t` matches `0 | [1-9][0-9]* | (0|[1-9][0-9]*)\.[0-9]+`.
pub open spec fn number_grammar(t: Seq<char>) -> bool {
    integer_part(t) || fraction(t)
}

/// What each state says of the characters read to reach it.
pub proof fn lemma_run_meaning(t: Seq<char>)
    ensures
        run(t) == NumberState::Start <==> t.len() == 0,
        run(t) == NumberState::Zero <==> t == seq!['0'],
        run(t) == NumberState::DigitBeforeDecimalPoint <==> nonzero_integer(t),
        run(t) == NumberState::DecimalPoint <==> (t.len() >= 1 && t.last() == '.'
            && integer_part(t.drop_last())),
        run(t) == NumberState::DigitAfterDecimalPoint <==> fraction(t),
    decreases t.len(),
{
    if t.len() == 0 {
        assert(!fraction(t));
    } else {
        let u = t.drop_last();
        let c = t.last();
        lemma_run_meaning(u);
        assert(t =~= u.push(c));
        assert(run(t) == step(run(u), classify(c)));
        // Zero
        if t == seq!['0'] {
            assert(u.len() == 0);
        }
        if run(t) == NumberState::Zero {
            assert(u.len() == 0);
            char_u32_cast(c, c as u32);
            char_u32_cast('0', '0' as u32);
            assert(t =~= seq![c]);
        }
        // DigitBeforeDecimalPoint
        if nonzero_integer(t) {
            assert(is_digit(c)) by {
                if t.len() > 1 {
                    assert(t.drop_first()[t.len() - 2] == c);
                }
            }
            if u.len() > 0 {
                assert(u.drop_first() =~= t.drop_first().drop_last());
                assert(nonzero_integer(u));
            }
        }
        if run(t) == NumberState::DigitBeforeDecimalPoint {
            if u.len() > 0 {
                assert(t.drop_first() =~= u.drop_first().push(c));
            } else {
                assert(t.drop_first().len() == 0);
            }
        }
        // DigitAfterDecimalPoint
        if fraction(t) {
            let k = choose|k: int| fraction_at(t, k);
            assert(is_digit(c)) by {
                assert(t.skip(k + 1)[t.len() - k - 2] == c);
            }
            if k + 2 == t.len() {
                assert(u.drop_last() =~= t.take(k));
            } else {
                assert(u.take(k) =~= t.take(k));
                assert(u.skip(k + 1) =~= t.skip(k + 1).drop_last());
                assert(fraction_at(u, k));
            }
        }
        if run(t) == NumberState::DigitAfterDecimalPoint {
            if run(u) == NumberState::DecimalPoint {
                let k = u.len() - 1;
                assert(t.take(k) =~= u.drop_last());
                assert(t.skip(k + 1) =~= seq![c]);
                assert(fraction_at(t, k));
            } else {
                let k = choose|k: int| fraction_at(u, k);
                assert(t.take(k) =~= u.take(k));
                assert(t.skip(k + 1) =~= u.skip(k + 1).push(c));
                assert(fraction_at(t, k));
            }
        }
    }
}

/// The recogniser accepts exactly the strings of the number grammar.
pub proof fn lemma_accepts_grammar(t: Seq<char>)
    ensures
        accepting(run(t)) <==> number_grammar(t),
{
    lemma_run_meaning(t);
}

} // verus!
