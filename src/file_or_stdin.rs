use std::marker::PhantomData;

use vstd::prelude::*;

use crate::error::StdinError;
use crate::guard::{StdinClaim, StdinGuard};
use crate::source::{Source, source_of};
use crate::text::{converted, convert_trimmed};

verus! {

/// What a lazy input reads from once claimed: standard input, with the
/// claim that permits reading it, or a file path.
pub enum Claimed {
    /// The process's standard input.
    Stdin(StdinClaim),
    /// The file at this path.
    File(String),
}

/// Whether `c` is what claiming the origin `o` gives.
pub open spec fn claimed_from(c: Claimed, o: Source) -> bool {
    match o {
        Source::Stdin => c is Stdin,
        Source::Arg(p) => c is File && c->File_0 == p,
    }
}

/// An input that is either a file, named by the argument, or standard
/// input, for the token `-`.
///
/// Nothing is read, and standard input is not claimed, until the content
/// is asked for.
#[derive(Debug)]
pub struct FileOrStdin<T = String> {
    source: Source,
    _type: PhantomData<T>,
}

impl<T> FileOrStdin<T> {
    /// Where the content will be read from.
    pub closed spec fn origin(&self) -> Source {
        self.source
    }

    /// Resolves the argument token `s`; reads nothing and claims nothing.
    pub fn from_token(s: &str) -> (r: FileOrStdin<T>)
        ensures
            source_of(r.origin(), s@),
    {
        let source = if crate::source::names_stdio(s) {
            Source::Stdin
        } else {
            Source::Arg(s.to_owned())
        };
        FileOrStdin { source, _type: PhantomData }
    }

    /// Was this input given as standard input.
    pub fn is_stdin(&self) -> (r: bool)
        ensures
            r == self.origin() is Stdin,
    {
        self.source.is_stdin()
    }

    /// Was this input given as a file path.
    pub fn is_file(&self) -> (r: bool)
        ensures
            r == self.origin() is Arg,
    {
        !self.is_stdin()
    }

    /// Whether this input is standard input.
    pub open spec fn is_stdin_spec(&self) -> bool {
        self.origin() is Stdin
    }

    /// The token given for this input: `-` for standard input, else the
    /// file path.
    pub fn filename(&self) -> (r: &str)
        ensures
            r@ == self.origin().token(),
    {
        self.source.filename()
    }

    /// Hands back where to read from, claiming standard input from `guard`
    /// when that is where; fails if it was claimed before. A file is not
    /// claimed.
    pub fn claim_source(self, guard: &mut StdinGuard) -> (r: Result<Claimed, StdinError>)
        ensures
            final(guard)@ == (old(guard)@ || self.is_stdin_spec()),
            r is Ok <==> !(self.is_stdin_spec() && old(guard)@),
            r is Ok ==> claimed_from(r->Ok_0, self.origin()),
            r is Err ==> r->Err_0 is StdInRepeatedUse,
    {
        match self.source {
            Source::Stdin => match guard.claim_token() {
                Ok(claim) => Ok(Claimed::Stdin(claim)),
                Err(e) => Err(e),
            },
            Source::Arg(path) => Ok(Claimed::File(path)),
        }
    }

    /// Reads the whole content and converts it.
    ///
    /// Standard input is claimed from `guard` first; only if that succeeds
    /// is `read_all` called, once, with what to read from, which for
    /// standard input holds the claim. The text it gives, with its trailing
    /// white space removed, is converted with `convert`.
    pub fn contents<R, C>(self, guard: &mut StdinGuard, read_all: R, convert: C) -> (r: Result<
        T,
        StdinError,
    >)
        where
            R: FnOnce(Claimed) -> Result<String, std::io::Error>,
            C: FnOnce(&str) -> Result<T, String>,
        requires
            forall|c: Claimed| read_all.requires((c,)),
            forall|t: &str| convert.requires((t,)),
        ensures
            final(guard)@ == (old(guard)@ || self.is_stdin_spec()),
            self.is_stdin_spec() && old(guard)@ ==> r is Err && r->Err_0 is StdInRepeatedUse,
            !(self.is_stdin_spec() && old(guard)@) ==> {
                ||| exists|c: Claimed, e: std::io::Error|
                    claimed_from(c, self.origin()) && read_all.ensures((c,), Err(e)) && r == Err::<
                        T,
                        StdinError,
                    >(StdinError::StdIn(e))
                ||| exists|c: Claimed, text: String|
                    claimed_from(c, self.origin()) && read_all.ensures((c,), Ok(text))
                        && converted(text@, convert, r)
            },
    {
        let ghost origin = self.origin();
        let from = match self.claim_source(guard) {
            Ok(from) => from,
            Err(e) => return Err(e),
        };
        let ghost c = from;
        match read_all(from) {
            Ok(text) => {
                let r = convert_trimmed(text.as_str(), convert);
                assert(claimed_from(c, origin) && read_all.ensures((c,), Ok(text)));
                r
            },
            Err(e) => {
                assert(claimed_from(c, origin) && read_all.ensures((c,), Err(e)));
                Err(StdinError::StdIn(e))
            },
        }
    }
}

/// Every input is exactly one of standard input and a file: `is_stdin`
/// and `is_file` never agree.
pub proof fn lemma_stdin_or_file<T>(f: FileOrStdin<T>)
    ensures
        (f.origin() is Stdin) != (f.origin() is Arg),
{
}

impl<T> Clone for FileOrStdin<T> {
    fn clone(&self) -> (r: FileOrStdin<T>)
        ensures
            r.origin() == self.origin(),
    {
        FileOrStdin { source: self.source.clone(), _type: PhantomData }
    }
}

impl<T> std::str::FromStr for FileOrStdin<T> {
    type Err = StdinError;

    fn from_str(s: &str) -> (r: Result<FileOrStdin<T>, StdinError>)
        ensures
            r is Ok && source_of(r->Ok_0.origin(), s@),
    {
        Ok(FileOrStdin::from_token(s))
    }
}

} // verus!
