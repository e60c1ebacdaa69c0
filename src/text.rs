use vstd::prelude::*;

use crate::error::StdinError;

verus! {

/// Whether a character has Unicode's White_Space property.
pub open spec fn white_space(c: char) -> bool {
    let u = c as u32;
    ||| 0x09 <= u <= 0x0d
    ||| u == 0x20
    ||| u == 0x85
    ||| u == 0xa0
    ||| u == 0x1680
    ||| 0x2000 <= u <= 0x200a
    ||| u == 0x2028
    ||| u == 0x2029
    ||| u == 0x202f
    ||| u == 0x205f
    ||| u == 0x3000
}

/// Whether `c` has Unicode's White_Space property.
pub fn is_white_space(c: char) -> (r: bool)
    ensures
        r == white_space(c),
{
    let u = c as u32;
    (0x09 <= u && u <= 0x0d) || u == 0x20 || u == 0x85 || u == 0xa0 || u == 0x1680 || (0x2000
        <= u && u <= 0x200a) || u == 0x2028 || u == 0x2029 || u == 0x202f || u == 0x205f || u
        == 0x3000
}

/// `t` with its trailing white space removed; leading white space stays.
pub open spec fn trim_end(t: Seq<char>) -> Seq<char>
    decreases t.len(),
{
    if t.len() > 0 && white_space(t.last()) {
        trim_end(t.drop_last())
    } else {
        t
    }
}

/// Cutting white space off the end of `t` does not change what it trims to.
proof fn lemma_trim_end_prefix(t: Seq<char>, i: int)
    requires
        0 <= i <= t.len(),
        forall|j: int| i <= j < t.len() ==> white_space(t[j]),
    ensures
        trim_end(t) == trim_end(t.subrange(0, i)),
    decreases t.len() - i,
{
    if i < t.len() {
        assert(white_space(t.last()));
        assert(t.drop_last().subrange(0, i) =~= t.subrange(0, i));
        lemma_trim_end_prefix(t.drop_last(), i);
    } else {
        assert(t.subrange(0, i) =~= t);
    }
}

/// Removes the trailing white space of `s`.
pub fn trim_trailing(s: &str) -> (r: &str)
    ensures
        r@ == trim_end(s@),
{
    let n = s.unicode_len();
    let mut i: usize = n;
    while i > 0 && is_white_space(s.get_char(i - 1))
        invariant
            n == s@.len(),
            i <= n,
            forall|j: int| i <= j < n ==> white_space(s@[j]),
        decreases i,
    {
        i = i - 1;
    }
    proof {
        lemma_trim_end_prefix(s@, i as int);
        let p = s@.subrange(0, i as int);
        if i > 0 {
            assert(p.last() == s@[i - 1]);
        }
    }
    s.substring_char(0, i)
}

/// Trailing white space never reaches the conversion: `t` followed by any
/// white space trims to what `t` trims to.
pub proof fn lemma_trailing_white_space_ignored(t: Seq<char>, w: Seq<char>)
    requires
        forall|j: int| 0 <= j < w.len() ==> white_space(w[j]),
    ensures
        trim_end(t + w) == trim_end(t),
{
    let tw = t + w;
    assert forall|j: int| t.len() <= j < tw.len() implies white_space(tw[j]) by {
        assert(tw[j] == w[j - t.len()]);
    }
    lemma_trim_end_prefix(tw, t.len() as int);
    assert(tw.subrange(0, t.len() as int) =~= t);
}

/// Leading white space is kept: white space put before a text that holds
/// some other character stays in front of what that text trims to.
pub proof fn lemma_leading_white_space_kept(w: Seq<char>, t: Seq<char>)
    requires
        exists|j: int| 0 <= j < t.len() && !white_space(t[j]),
    ensures
        trim_end(w + t) == w + trim_end(t),
    decreases t.len(),
{
    let j = choose|j: int| 0 <= j < t.len() && !white_space(t[j]);
    assert((w + t).last() == t.last());
    if white_space(t.last()) {
        assert(j < t.len() - 1);
        assert(t.drop_last()[j] == t[j]);
        lemma_leading_white_space_kept(w, t.drop_last());
        assert((w + t).drop_last() =~= w + t.drop_last());
    }
}

/// What a conversion's outcome becomes: a value stays, a failure becomes
/// `FromStr` with the converter's message.
pub open spec fn outcome_of<T>(c: Result<T, String>) -> Result<T, StdinError> {
    match c {
        Ok(v) => Ok(v),
        Err(m) => Err(StdinError::FromStr(m)),
    }
}

/// Maps the conversion's outcome to the library's error.
pub fn conversion_outcome<T>(c: Result<T, String>) -> (r: Result<T, StdinError>)
    ensures
        r == outcome_of(c),
{
    match c {
        Ok(v) => Ok(v),
        Err(m) => Err(StdinError::FromStr(m)),
    }
}

/// Whether `r` is what converting `text`, with its trailing white space
/// removed, through `convert` gives.
pub open spec fn converted<T, C>(text: Seq<char>, convert: C, r: Result<T, StdinError>) -> bool
    where
        C: FnOnce(&str) -> Result<T, String>,
{
    exists|t: &str, c: Result<T, String>|
        #![trigger convert.ensures((t,), c)]
        t@ == trim_end(text) && convert.ensures((t,), c) && r == outcome_of(c)
}

/// Converts `text` with its trailing white space removed.
pub fn convert_trimmed<T, C>(text: &str, convert: C) -> (r: Result<T, StdinError>)
    where
        C: FnOnce(&str) -> Result<T, String>,
    requires
        forall|t: &str| convert.requires((t,)),
    ensures
        converted(text@, convert, r),
{
    let trimmed = trim_trailing(text);
    let c = convert(trimmed);
    let r = conversion_outcome(c);
    assert(converted(text@, convert, r));
    r
}

} // verus!
