//! Text operations shared by the query builder and the error rendering.
//!
//! The two executable functions here hand the work to the standard library and
//! are believed, not proved; everything else in the crate is proved from what
//! they promise.

use vstd::prelude::*;

verus! {

/// `s` with every occurrence of `from` replaced by `to`; all other characters
/// stay where they were, in order.
pub open spec fn replaced(s: Seq<char>, from: char, to: Seq<char>) -> Seq<char>
    decreases s.len(),
{
    if s.len() == 0 {
        Seq::empty()
    } else if s[0] == from {
        to + replaced(s.drop_first(), from, to)
    } else {
        seq![s[0]] + replaced(s.drop_first(), from, to)
    }
}

/// The text that the standard `{:?}` formatting gives for a string: the string
/// between double quotes, with its special characters escaped. The escaping
/// table is the standard library's and is not restated here.
pub uninterp spec fn debug_quoted(s: Seq<char>) -> Seq<char>;

/// Calls `str::replace` with a `char` pattern.
///
/// Trusted: the standard library documents that the result is a new string in
/// which every match of the pattern is replaced by `to`; for a `char` pattern
/// the matches are the occurrences of that character.
#[verifier::external_body]
pub(crate) fn replace_char(s: &str, from: char, to: &str) -> (r: String)
    ensures
        r@ == replaced(s@, from, to@),
{
    s.replace(from, to)
}

/// Formats a string with `{:?}`, that is through `<str as Debug>::fmt`.
///
/// Trusted: the only claim is that the result depends on the characters of `s`
/// alone, so that it can be called `debug_quoted(s@)`.
#[verifier::external_body]
pub(crate) fn debug_quote(s: &str) -> (r: String)
    ensures
        r@ == debug_quoted(s@),
{
    format!("{:?}", s)
}

/// Replacing in a concatenation is replacing in both parts.
pub proof fn lemma_replaced_concat(a: Seq<char>, b: Seq<char>, from: char, to: Seq<char>)
    ensures
        replaced(a + b, from, to) == replaced(a, from, to) + replaced(b, from, to),
    decreases a.len(),
{
    if a.len() == 0 {
        assert(a + b == b);
        assert(replaced(a, from, to) + replaced(b, from, to) == replaced(b, from, to));
    } else {
        assert((a + b).drop_first() == a.drop_first() + b);
        lemma_replaced_concat(a.drop_first(), b, from, to);
        let tail = replaced(a.drop_first(), from, to);
        let rest = replaced(b, from, to);
        assert((to + tail) + rest == to + (tail + rest));
        assert((seq![a[0]] + tail) + rest == seq![a[0]] + (tail + rest));
    }
}

/// Replacing a character that does not occur changes nothing.
pub proof fn lemma_replaced_absent(s: Seq<char>, from: char, to: Seq<char>)
    requires
        !s.contains(from),
    ensures
        replaced(s, from, to) == s,
    decreases s.len(),
{
    if s.len() == 0 {
        assert(s == Seq::<char>::empty());
    } else {
        assert(s[0] != from);
        assert forall|c: char| s.drop_first().contains(c) implies s.contains(c) by {
            let i = choose|i: int| 0 <= i < s.drop_first().len() && s.drop_first()[i] == c;
            assert(s[i + 1] == c);
        }
        lemma_replaced_absent(s.drop_first(), from, to);
        assert(seq![s[0]] + s.drop_first() == s);
    }
}

} // verus!
