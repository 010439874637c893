use vstd::prelude::*;

verus! {

/// `c` has the Unicode `White_Space` property (the characters that
/// `char::is_whitespace` accepts).
pub open spec fn is_white_space(c: char) -> bool {
    let u = c as u32;
    ||| 0x09 <= u <= 0x0d
    ||| u == 0x20
    ||| u == 0x85
    ||| u == 0xa0
    ||| u == 0x1680
    ||| 0x2000 <= u <= 0x200a
    ||| u == 0x2028
    ||| u == 0x2029
    ||| u == 0x202f
    ||| u == 0x205f
    ||| u == 0x3000
}

/// Every character of `s` is white space.
pub open spec fn all_white_space(s: Seq<char>) -> bool {
    forall|i: int| 0 <= i < s.len() ==> is_white_space(#[trigger] s[i])
}

/// Some character of `s` is not white space.
pub open spec fn has_content(s: Seq<char>) -> bool {
    exists|i: int| 0 <= i < s.len() && !is_white_space(#[trigger] s[i])
}

/// `s` without its leading white space.
pub open spec fn strip_leading(s: Seq<char>) -> Seq<char>
    decreases s.len(),
{
    if s.len() > 0 && is_white_space(s[0]) {
        strip_leading(s.drop_first())
    } else {
        s
    }
}

/// `s` without its trailing white space.
pub open spec fn strip_trailing(s: Seq<char>) -> Seq<char>
    decreases s.len(),
{
    if s.len() > 0 && is_white_space(s.last()) {
        strip_trailing(s.drop_last())
    } else {
        s
    }
}

/// `s` without its leading and trailing white space.
pub open spec fn trimmed(s: Seq<char>) -> Seq<char> {
    strip_trailing(strip_leading(s))
}

/// Relies on `str::trim`: the slice with leading and trailing `White_Space`
/// characters removed.
#[verifier::external_body]
pub(crate) fn trim_white_space(s: &str) -> (r: &str)
    ensures
        r@ == trimmed(s@),
{
    s.trim()
}

/// Leading white space is dropped whatever follows it.
pub proof fn lemma_strip_leading_white(p: Seq<char>, t: Seq<char>)
    requires
        all_white_space(p),
    ensures
        strip_leading(p + t) == strip_leading(t),
    decreases p.len(),
{
    if p.len() > 0 {
        assert((p + t).drop_first() =~= p.drop_first() + t);
        assert(is_white_space(p[0]));
        assert((p + t)[0] == p[0]);
        lemma_strip_leading_white(p.drop_first(), t);
    } else {
        assert(p + t =~= t);
    }
}

/// Trailing white space is dropped whatever precedes it.
pub proof fn lemma_strip_trailing_white(t: Seq<char>, q: Seq<char>)
    requires
        all_white_space(q),
    ensures
        strip_trailing(t + q) == strip_trailing(t),
    decreases q.len(),
{
    if q.len() > 0 {
        assert((t + q).drop_last() =~= t + q.drop_last());
        assert(is_white_space(q.last()));
        assert((t + q).last() == q.last());
        lemma_strip_trailing_white(t, q.drop_last());
    } else {
        assert(t + q =~= t);
    }
}

/// Stripping the front of a string with content leaves what follows it alone.
pub proof fn lemma_strip_leading_append(s: Seq<char>, q: Seq<char>)
    requires
        has_content(s),
    ensures
        strip_leading(s + q) == strip_leading(s) + q,
    decreases s.len(),
{
    let k = choose|k: int| 0 <= k < s.len() && !is_white_space(#[trigger] s[k]);
    assert((s + q)[0] == s[0]);
    if is_white_space(s[0]) {
        assert(s.drop_first()[k - 1] == s[k]);
        assert((s + q).drop_first() =~= s.drop_first() + q);
        lemma_strip_leading_append(s.drop_first(), q);
    }
}

/// Stripping the back of a string with content leaves what precedes it alone.
pub proof fn lemma_strip_trailing_prepend(p: Seq<char>, s: Seq<char>)
    requires
        has_content(s),
    ensures
        strip_trailing(p + s) == p + strip_trailing(s),
    decreases s.len(),
{
    let k = choose|k: int| 0 <= k < s.len() && !is_white_space(#[trigger] s[k]);
    assert((p + s).last() == s.last());
    if is_white_space(s.last()) {
        assert(s.drop_last()[k] == s[k]);
        assert((p + s).drop_last() =~= p + s.drop_last());
        lemma_strip_trailing_prepend(p, s.drop_last());
    }
}

/// A string of white space trims to nothing.
pub proof fn lemma_trim_all_white(s: Seq<char>)
    requires
        all_white_space(s),
    ensures
        trimmed(s) == Seq::<char>::empty(),
{
    lemma_strip_leading_white(s, Seq::empty());
    assert(s + Seq::<char>::empty() =~= s);
}

/// White space around a string does not change what it trims to.
pub proof fn lemma_trim_surrounded(p: Seq<char>, s: Seq<char>, q: Seq<char>)
    requires
        all_white_space(p),
        all_white_space(q),
    ensures
        trimmed(p + s + q) == trimmed(s),
{
    assert(p + s + q =~= p + (s + q));
    lemma_strip_leading_white(p, s + q);
    if has_content(s) {
        lemma_strip_leading_append(s, q);
        lemma_strip_trailing_white(strip_leading(s), q);
    } else {
        assert(all_white_space(s)) by {
            assert forall|i: int| 0 <= i < s.len() implies is_white_space(#[trigger] s[i]) by {
                if !is_white_space(s[i]) {
                    assert(has_content(s));
                }
            }
        }
        lemma_strip_leading_white(s, q);
        lemma_trim_all_white(q);
        lemma_trim_all_white(s);
    }
}

/// White space between two parts with content survives trimming.
pub proof fn lemma_trim_keeps_inner(a: Seq<char>, w: char, b: Seq<char>)
    requires
        has_content(a),
        has_content(b),
    ensures
        trimmed(a + seq![w] + b) == strip_leading(a) + seq![w] + strip_trailing(b),
{
    assert(a + seq![w] + b =~= a + (seq![w] + b));
    lemma_strip_leading_append(a, seq![w] + b);
    assert(strip_leading(a) + (seq![w] + b) =~= (strip_leading(a) + seq![w]) + b);
    lemma_strip_trailing_prepend(strip_leading(a) + seq![w], b);
}

} // verus!
