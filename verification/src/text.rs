//! Text as sequences of characters: white space, trimming, comparison
//! and search.

use vstd::prelude::*;
use vstd::string::*;

verus! {

/// Whether `c` has the Unicode property `White_Space`: the controls from
/// the tab to the carriage return, the space, the next line, the no-break
/// space, the Ogham space mark, the spaces from the en quad to the hair
/// space, the line and the paragraph separator, the narrow no-break space,
/// the medium mathematical space and the ideographic space.
pub open spec fn is_white_space(c: char) -> bool {
    let n = c as u32;
    ||| 0x09 <= n <= 0x0d
    ||| n == 0x20
    ||| n == 0x85
    ||| n == 0xa0
    ||| n == 0x1680
    ||| 0x2000 <= n <= 0x200a
    ||| n == 0x2028
    ||| n == 0x2029
    ||| n == 0x202f
    ||| n == 0x205f
    ||| n == 0x3000
}

/// Whether `s` holds white space only.
pub open spec fn all_white_space(s: Seq<char>) -> bool {
    forall|i: int| 0 <= i < s.len() ==> is_white_space(#[trigger] s[i])
}

/// `s` without its leading white space.
pub open spec fn trim_start(s: Seq<char>) -> Seq<char>
    decreases s.len(),
{
    if s.len() > 0 && is_white_space(s[0]) {
        trim_start(s.drop_first())
    } else {
        s
    }
}

/// `s` without its trailing white space.
pub open spec fn trim_end(s: Seq<char>) -> Seq<char>
    decreases s.len(),
{
    if s.len() > 0 && is_white_space(s.last()) {
        trim_end(s.drop_last())
    } else {
        s
    }
}

/// `s` without its leading and trailing white space.
pub open spec fn trimmed(s: Seq<char>) -> Seq<char> {
    trim_end(trim_start(s))
}

/// Whether `needle` occurs in `hay` as a run of consecutive characters.
pub open spec fn occurs_in(needle: Seq<char>, hay: Seq<char>) -> bool {
    exists|i: int|
        0 <= i && i + needle.len() <= hay.len() && #[trigger] hay.subrange(
            i,
            i + needle.len(),
        ) == needle
}

/// Calls `str::trim`, which returns the sub-slice left after the leading
/// and the trailing white space are removed, white space being the
/// characters with the Unicode property `White_Space`. The contract is
/// taken from the documentation of std and is not proved here.
#[verifier::external_body]
pub(crate) fn trim(s: &str) -> (r: &str)
    ensures
        r@ == trimmed(s@),
{
    s.trim()
}

/// Calls `str::contains` with a string as the pattern, which tells whether
/// the pattern matches a sub-slice of the text. The contract is taken from
/// the documentation of std and is not proved here.
#[verifier::external_body]
pub(crate) fn contains(hay: &str, needle: &str) -> (r: bool)
    ensures
        r == occurs_in(needle@, hay@),
{
    hay.contains(needle)
}

/// Whether `a` and `b` hold the same characters.
pub(crate) fn same_text(a: &str, b: &str) -> (r: bool)
    ensures
        r == (a@ == b@),
{
    let n = a.unicode_len();
    if n != b.unicode_len() {
        return false;
    }
    let mut i: usize = 0;
    while i < n
        invariant
            n == a@.len(),
            n == b@.len(),
            i <= n,
            forall|j: int| 0 <= j < i ==> a@[j] == b@[j],
        decreases n - i,
    {
        if a.get_char(i) != b.get_char(i) {
            return false;
        }
        i += 1;
    }
    assert(a@ =~= b@);
    true
}

/// White space in front of a text does not change what is left of it after
/// the leading white space is removed.
pub proof fn lemma_trim_start_skips(pad: Seq<char>, s: Seq<char>)
    requires
        all_white_space(pad),
    ensures
        trim_start(pad + s) == trim_start(s),
    decreases pad.len(),
{
    if pad.len() > 0 {
        assert((pad + s)[0] == pad[0]);
        assert((pad + s).drop_first() =~= pad.drop_first() + s);
        lemma_trim_start_skips(pad.drop_first(), s);
    } else {
        assert(pad + s =~= s);
    }
}

/// White space behind a text does not change what is left of it after the
/// trailing white space is removed.
pub proof fn lemma_trim_end_skips(s: Seq<char>, pad: Seq<char>)
    requires
        all_white_space(pad),
    ensures
        trim_end(s + pad) == trim_end(s),
    decreases pad.len(),
{
    if pad.len() > 0 {
        assert((s + pad).last() == pad.last());
        assert((s + pad).drop_last() =~= s + pad.drop_last());
        lemma_trim_end_skips(s, pad.drop_last());
    } else {
        assert(s + pad =~= s);
    }
}

/// Removing the leading white space of `s + tail` leaves `tail` alone
/// unless `s` is white space throughout.
pub proof fn lemma_trim_start_append(s: Seq<char>, tail: Seq<char>)
    ensures
        trim_start(s + tail) == if trim_start(s).len() == 0 {
            trim_start(tail)
        } else {
            trim_start(s) + tail
        },
    decreases s.len(),
{
    if s.len() == 0 {
        assert(s + tail =~= tail);
    } else if is_white_space(s[0]) {
        assert((s + tail)[0] == s[0]);
        assert((s + tail).drop_first() =~= s.drop_first() + tail);
        lemma_trim_start_append(s.drop_first(), tail);
    } else {
        assert((s + tail)[0] == s[0]);
    }
}

/// Trimming ignores white space put around a text.
pub proof fn lemma_trimmed_ignores_padding(before: Seq<char>, s: Seq<char>, after: Seq<char>)
    requires
        all_white_space(before),
        all_white_space(after),
    ensures
        trimmed(before + s + after) == trimmed(s),
{
    assert(before + s + after =~= before + (s + after));
    lemma_trim_start_skips(before, s + after);
    lemma_trim_start_append(s, after);
    if trim_start(s).len() == 0 {
        lemma_trim_start_skips(after, Seq::empty());
        assert(after + Seq::<char>::empty() =~= after);
    } else {
        lemma_trim_end_skips(trim_start(s), after);
    }
}

/// Where the leading white space of `s` ends.
proof fn lemma_trim_start_cut(s: Seq<char>) -> (from: int)
    ensures
        0 <= from <= s.len(),
        trim_start(s) == s.subrange(from, s.len() as int),
        all_white_space(s.subrange(0, from)),
        from < s.len() ==> !is_white_space(s[from]),
    decreases s.len(),
{
    if s.len() > 0 && is_white_space(s[0]) {
        let rest = s.drop_first();
        let from = lemma_trim_start_cut(rest);
        assert(rest.subrange(from, rest.len() as int) =~= s.subrange(from + 1, s.len() as int));
        assert forall|k: int| 0 <= k < from + 1 implies is_white_space(
            #[trigger] s.subrange(0, from + 1)[k],
        ) by {
            if k > 0 {
                assert(s.subrange(0, from + 1)[k] == rest.subrange(0, from)[k - 1]);
            }
        }
        from + 1
    } else {
        assert(s.subrange(0, s.len() as int) =~= s);
        0
    }
}

/// Where the trailing white space of `s` begins.
proof fn lemma_trim_end_cut(s: Seq<char>) -> (to: int)
    ensures
        0 <= to <= s.len(),
        trim_end(s) == s.subrange(0, to),
        all_white_space(s.subrange(to, s.len() as int)),
        0 < to ==> !is_white_space(s[to - 1]),
    decreases s.len(),
{
    if s.len() > 0 && is_white_space(s.last()) {
        let rest = s.drop_last();
        let to = lemma_trim_end_cut(rest);
        assert(rest.subrange(0, to) =~= s.subrange(0, to));
        assert forall|k: int| 0 <= k < s.len() - to implies is_white_space(
            #[trigger] s.subrange(to, s.len() as int)[k],
        ) by {
            if k < s.len() - to - 1 {
                assert(s.subrange(to, s.len() as int)[k] == rest.subrange(
                    to,
                    rest.len() as int,
                )[k]);
            }
        }
        to
    } else {
        assert(s.subrange(0, s.len() as int) =~= s);
        s.len() as int
    }
}

/// The trimmed form of a text is the stretch of it between two cuts, with
/// nothing but white space before the first cut and behind the second, and
/// it neither begins nor ends with white space.
pub proof fn lemma_trimmed_is_the_core(s: Seq<char>) -> (cut: (int, int))
    ensures
        0 <= cut.0 <= cut.1 <= s.len(),
        trimmed(s) == s.subrange(cut.0, cut.1),
        all_white_space(s.subrange(0, cut.0)),
        all_white_space(s.subrange(cut.1, s.len() as int)),
        trimmed(s).len() > 0 ==> !is_white_space(trimmed(s)[0]) && !is_white_space(
            trimmed(s).last(),
        ),
{
    let from = lemma_trim_start_cut(s);
    let tail = s.subrange(from, s.len() as int);
    let len = lemma_trim_end_cut(tail);
    assert(tail.subrange(0, len) =~= s.subrange(from, from + len));
    assert(tail.subrange(len, tail.len() as int) =~= s.subrange(from + len, s.len() as int));
    (from, from + len)
}

/// A text that neither begins nor ends with white space is its own
/// trimmed form.
pub proof fn lemma_trimmed_of_clean(s: Seq<char>)
    requires
        s.len() > 0 ==> !is_white_space(s[0]) && !is_white_space(s.last()),
    ensures
        trimmed(s) == s,
{
}

} // verus!
