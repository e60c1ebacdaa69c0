use vstd::prelude::*;

use crate::error::StdinError;
use crate::guard::{StdinClaim, StdinGuard};
use crate::source::{is_stdio_token, names_stdio};
use crate::text::{
    convert_trimmed, lemma_trailing_white_space_ignored, outcome_of, trim_end, white_space,
};

verus! {

/// A value given either directly as an argument or, for the token `-`, as
/// the content of standard input.
///
/// The value is read and converted when the argument is resolved; the
/// wrapper remembers whether it came from standard input.
#[derive(Clone)]
pub struct MaybeStdin<T> {
    inner: T,
    is_stdin: bool,
}

/// Whether `r` is what converting `text`, with its trailing white space
/// removed, through `convert` gives, for a value that came from standard
/// input exactly when `from_stdin`.
pub open spec fn converts_to<T, C>(
    text: Seq<char>,
    convert: C,
    from_stdin: bool,
    r: Result<MaybeStdin<T>, StdinError>,
) -> bool
    where
        C: FnOnce(&str) -> Result<T, String>,
{
    exists|t: &str, c: Result<T, String>|
        #![trigger convert.ensures((t,), c)]
        t@ == trim_end(text) && convert.ensures((t,), c) && match c {
            Ok(v) => r is Ok && r->Ok_0.value() == v && r->Ok_0.from_stdin() == from_stdin,
            Err(m) => r is Err && r->Err_0 == StdinError::FromStr(m),
        }
}

/// Text with white space after it resolves exactly as the text alone: the
/// same outcome, value or error, for every conversion.
pub proof fn lemma_trailing_white_space_converts_alike<T, C>(
    t: Seq<char>,
    w: Seq<char>,
    convert: C,
    from_stdin: bool,
    r: Result<MaybeStdin<T>, StdinError>,
)
    where
        C: FnOnce(&str) -> Result<T, String>,
    requires
        forall|j: int| 0 <= j < w.len() ==> white_space(w[j]),
    ensures
        converts_to(t + w, convert, from_stdin, r) == converts_to(t, convert, from_stdin, r),
{
    lemma_trailing_white_space_ignored(t, w);
}

impl<T> MaybeStdin<T> {
    /// The wrapped value.
    pub closed spec fn value(&self) -> T {
        self.inner
    }

    /// Whether the value was read from standard input.
    pub closed spec fn from_stdin(&self) -> bool {
        self.is_stdin
    }

    /// Resolves the argument token `s`.
    ///
    /// The token `-` claims standard input from `guard` and, only if the
    /// claim succeeds, reads it with `read_stdin`, which takes the claim;
    /// any other token is the value's text itself. The text, with its
    /// trailing white space removed, is then converted with `convert`.
    pub fn from_str<R, C>(s: &str, guard: &mut StdinGuard, read_stdin: R, convert: C) -> (r: Result<
        MaybeStdin<T>,
        StdinError,
    >)
        where
            R: FnOnce(StdinClaim) -> Result<String, std::io::Error>,
            C: FnOnce(&str) -> Result<T, String>,
        requires
            forall|k: StdinClaim| read_stdin.requires((k,)),
            forall|t: &str| convert.requires((t,)),
        ensures
            final(guard)@ == (old(guard)@ || is_stdio_token(s@)),
            !is_stdio_token(s@) ==> converts_to(s@, convert, false, r),
            is_stdio_token(s@) && old(guard)@ ==> r is Err && r->Err_0 is StdInRepeatedUse,
            is_stdio_token(s@) && !old(guard)@ ==> {
                ||| exists|k: StdinClaim, e: std::io::Error|
                    read_stdin.ensures((k,), Err(e)) && r == Err::<MaybeStdin<T>, StdinError>(
                        StdinError::StdIn(e),
                    )
                ||| exists|k: StdinClaim, text: String|
                    read_stdin.ensures((k,), Ok(text)) && converts_to(text@, convert, true, r)
            },
    {
        let from_stdin = names_stdio(s);
        let text = if from_stdin {
            let claim = match guard.claim_token() {
                Ok(claim) => claim,
                Err(e) => return Err(e),
            };
            match read_stdin(claim) {
                Ok(text) => text,
                Err(e) => return Err(StdinError::StdIn(e)),
            }
        } else {
            s.to_owned()
        };
        let c = convert_trimmed(text.as_str(), convert);
        let r = match c {
            Ok(v) => Ok(MaybeStdin { inner: v, is_stdin: from_stdin }),
            Err(e) => Err(e),
        };
        proof {
            let (t, c0) = choose|t: &str, c0: Result<T, String>|
                #![trigger convert.ensures((t,), c0)]
                t@ == trim_end(text@) && convert.ensures((t,), c0) && c == outcome_of(c0);
            assert(t@ == trim_end(text@) && convert.ensures((t,), c0));
        }
        r
    }

    /// Was this value read from standard input.
    pub fn is_stdin(&self) -> (r: bool)
        ensures
            r == self.from_stdin(),
    {
        self.is_stdin
    }

    /// Extracts the wrapped value.
    pub fn into_inner(self) -> (r: T)
        ensures
            r == self.value(),
    {
        self.inner
    }

    /// The wrapped value, by reference.
    pub fn as_inner(&self) -> (r: &T)
        ensures
            *r == self.value(),
    {
        &self.inner
    }
}

impl<T> std::ops::Deref for MaybeStdin<T> {
    type Target = T;

    fn deref(&self) -> (r: &T)
        ensures
            *r == self.value(),
    {
        &self.inner
    }
}

impl<T> std::ops::DerefMut for MaybeStdin<T> {
    fn deref_mut(&mut self) -> (r: &mut T)
        ensures
            *r == old(self).value(),
            final(self).from_stdin() == old(self).from_stdin(),
            final(self).value() == *final(r),
    {
        &mut self.inner
    }
}

} // verus!
