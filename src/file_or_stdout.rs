use vstd::prelude::*;

use crate::source::{Dest, dest_of};

verus! {

/// How a file destination is opened: created if missing, then either
/// emptied first or written at its end.
#[derive(Debug, Clone, Copy, PartialEq, Eq, Structural)]
pub enum WriteMode {
    /// Existing content is discarded before writing.
    Truncate,
    /// Writing extends the existing content.
    Append,
}

impl Default for WriteMode {
    fn default() -> (r: WriteMode)
        ensures
            r == WriteMode::Truncate,
    {
        WriteMode::Truncate
    }
}

impl WriteMode {
    /// Whether opening discards the existing content.
    pub fn truncates(&self) -> (r: bool)
        ensures
            r == (*self is Truncate),
    {
        match self {
            WriteMode::Truncate => true,
            WriteMode::Append => false,
        }
    }

    /// Whether writes go to the end of the existing content.
    pub fn appends(&self) -> (r: bool)
        ensures
            r == (*self is Append),
    {
        match self {
            WriteMode::Truncate => false,
            WriteMode::Append => true,
        }
    }
}

/// An output that is either a file, named by the argument, or standard
/// output, for the token `-`.
///
/// Nothing is opened until a writer is asked for; standard output may be
/// chosen by any number of arguments.
#[derive(Debug)]
pub struct FileOrStdout {
    dest: Dest,
    mode: WriteMode,
}

impl FileOrStdout {
    /// Where the output goes.
    pub closed spec fn target(&self) -> Dest {
        self.dest
    }

    /// How a file destination is opened.
    pub closed spec fn write_mode(&self) -> WriteMode {
        self.mode
    }

    /// Whether the output goes to standard output.
    pub open spec fn is_stdout_spec(&self) -> bool {
        self.target() is Stdout
    }

    /// Resolves the argument token `s`; a file is opened with `mode`.
    pub fn with_mode(s: &str, mode: WriteMode) -> (r: FileOrStdout)
        ensures
            dest_of(r.target(), s@),
            r.write_mode() == mode,
    {
        FileOrStdout { dest: Dest::from_str(s), mode }
    }

    /// Resolves the argument token `s`; a file is truncated when opened.
    pub fn from_token(s: &str) -> (r: FileOrStdout)
        ensures
            dest_of(r.target(), s@),
            r.write_mode() == WriteMode::Truncate,
    {
        FileOrStdout::with_mode(s, WriteMode::Truncate)
    }

    /// Does the output go to standard output.
    pub fn is_stdout(&self) -> (r: bool)
        ensures
            r == self.is_stdout_spec(),
    {
        self.dest.is_stdout()
    }

    /// Does the output go to a file.
    pub fn is_file(&self) -> (r: bool)
        ensures
            r == self.target() is Arg,
    {
        !self.is_stdout()
    }

    /// The token given for this output: `-` for standard output, else the
    /// file path.
    pub fn filename(&self) -> (r: &str)
        ensures
            r@ == self.target().token(),
    {
        self.dest.filename()
    }

    /// How a file destination is opened.
    pub fn mode(&self) -> (r: WriteMode)
        ensures
            r == self.write_mode(),
    {
        self.mode
    }

    /// Where the output goes.
    pub fn dest(&self) -> (r: &Dest)
        ensures
            *r == self.target(),
    {
        &self.dest
    }
}

/// Every output is exactly one of standard output and a file: `is_stdout`
/// and `is_file` never agree.
pub proof fn lemma_stdout_or_file(f: FileOrStdout)
    ensures
        (f.target() is Stdout) != (f.target() is Arg),
{
}

impl Clone for FileOrStdout {
    fn clone(&self) -> (r: FileOrStdout)
        ensures
            r.target() == self.target(),
            r.write_mode() == self.write_mode(),
    {
        FileOrStdout { dest: self.dest.clone(), mode: self.mode }
    }
}

impl std::str::FromStr for FileOrStdout {
    type Err = std::io::Error;

    fn from_str(s: &str) -> (r: Result<FileOrStdout, std::io::Error>)
        ensures
            r is Ok && dest_of(r->Ok_0.target(), s@) && r->Ok_0.write_mode() == WriteMode::Truncate,
    {
        Ok(FileOrStdout::from_token(s))
    }
}

} // verus!
