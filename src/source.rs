use vstd::prelude::*;

use crate::error::StdinError;
use crate::guard::{StdinGuard, claim_step};

verus! {

/// Whether a token selects standard input or standard output.
pub open spec fn is_stdio_token(t: Seq<char>) -> bool {
    t == seq!['-']
}

/// Whether `s` is the token that selects standard input or standard output.
pub fn names_stdio(s: &str) -> (r: bool)
    ensures
        r == is_stdio_token(s@),
{
    if s.unicode_len() == 1 {
        let c = s.get_char(0);
        proof {
            if c == '-' {
                assert(s@ =~= seq!['-']);
            }
        }
        c == '-'
    } else {
        false
    }
}

/// Where the content of an argument comes from.
#[derive(Debug)]
pub enum Source {
    /// The process's standard input.
    Stdin,
    /// The argument's own text: a literal value or a file path.
    Arg(String),
}

/// Where the output of an argument goes.
#[derive(Debug)]
pub enum Dest {
    /// The process's standard output.
    Stdout,
    /// A file path.
    Arg(String),
}

/// The origin that a token names when resolution succeeds.
pub open spec fn source_of(s: Source, t: Seq<char>) -> bool {
    if is_stdio_token(t) {
        s is Stdin
    } else {
        s is Arg && s->Arg_0@ == t
    }
}

/// The destination that a token names.
pub open spec fn dest_of(d: Dest, t: Seq<char>) -> bool {
    if is_stdio_token(t) {
        d is Stdout
    } else {
        d is Arg && d->Arg_0@ == t
    }
}

impl Clone for Source {
    fn clone(&self) -> (r: Source)
        ensures
            r == *self,
    {
        match self {
            Source::Stdin => Source::Stdin,
            Source::Arg(v) => Source::Arg(v.clone()),
        }
    }
}

impl Clone for Dest {
    fn clone(&self) -> (r: Dest)
        ensures
            r == *self,
    {
        match self {
            Dest::Stdout => Dest::Stdout,
            Dest::Arg(v) => Dest::Arg(v.clone()),
        }
    }
}

impl Source {
    /// The token that this origin was written as.
    pub open spec fn token(&self) -> Seq<char> {
        match self {
            Source::Stdin => seq!['-'],
            Source::Arg(v) => v@,
        }
    }

    /// Resolves a token. Standard input is claimed from `guard` when the
    /// token selects it, and fails if it was claimed before; any other token
    /// leaves the guard untouched.
    pub fn from_str(s: &str, guard: &mut StdinGuard) -> (r: Result<Source, StdinError>)
        ensures
            r is Ok ==> source_of(r->Ok_0, s@),
            is_stdio_token(s@) ==> {
                &&& (r is Ok, final(guard)@) == claim_step(old(guard)@)
                &&& r is Err ==> r->Err_0 is StdInRepeatedUse
            },
            !is_stdio_token(s@) ==> r is Ok && final(guard)@ == old(guard)@,
    {
        if names_stdio(s) {
            match guard.claim() {
                Ok(()) => Ok(Source::Stdin),
                Err(e) => Err(e),
            }
        } else {
            Ok(Source::Arg(s.to_owned()))
        }
    }

    /// Whether this origin is standard input.
    pub fn is_stdin(&self) -> (r: bool)
        ensures
            r == self is Stdin,
    {
        match self {
            Source::Stdin => true,
            Source::Arg(_) => false,
        }
    }

    /// The token this origin was written as: `-` for standard input, else
    /// the argument's text.
    pub fn filename(&self) -> (r: &str)
        ensures
            r@ == self.token(),
    {
        match self {
            Source::Stdin => {
                proof {
                    reveal_strlit("-");
                }
                "-"
            },
            Source::Arg(v) => v.as_str(),
        }
    }
}

impl Dest {
    /// The token that this destination was written as.
    pub open spec fn token(&self) -> Seq<char> {
        match self {
            Dest::Stdout => seq!['-'],
            Dest::Arg(v) => v@,
        }
    }

    /// Resolves a token; output needs no claim.
    pub fn from_str(s: &str) -> (r: Dest)
        ensures
            dest_of(r, s@),
    {
        if names_stdio(s) {
            Dest::Stdout
        } else {
            Dest::Arg(s.to_owned())
        }
    }

    /// Whether this destination is standard output.
    pub fn is_stdout(&self) -> (r: bool)
        ensures
            r == self is Stdout,
    {
        match self {
            Dest::Stdout => true,
            Dest::Arg(_) => false,
        }
    }

    /// The token this destination was written as: `-` for standard output,
    /// else the file path.
    pub fn filename(&self) -> (r: &str)
        ensures
            r@ == self.token(),
    {
        match self {
            Dest::Stdout => {
                proof {
                    reveal_strlit("-");
                }
                "-"
            },
            Dest::Arg(v) => v.as_str(),
        }
    }
}

} // verus!
