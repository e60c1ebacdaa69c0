use vstd::prelude::*;

verus! {

/// Declares std's I/O error so that it can be carried through the library.
#[verifier::external_type_specification]
#[verifier::external_body]
pub struct ExIoError(std::io::Error);

/// Why an argument's value could not be resolved.
#[derive(Debug)]
pub enum StdinError {
    /// Standard input was claimed by an earlier argument of this process.
    StdInRepeatedUse,
    /// Reading standard input or a file failed.
    StdIn(std::io::Error),
    /// The text did not convert to the value type; holds the converter's message.
    FromStr(String),
}

impl StdinError {
    /// A one-line description of the error, for the user.
    pub fn message(&self) -> (r: String)
        ensures
            self is StdInRepeatedUse ==> r@ == "stdin argument used more than once"@,
            self is FromStr ==> r@ == "unable to parse from_str: "@ + self->FromStr_0@,
            self is StdIn ==> vstd::string::to_string_from_display_ensures::<std::io::Error>(
                &self->StdIn_0,
                r,
            ),
    {
        match self {
            StdinError::StdInRepeatedUse => "stdin argument used more than once".to_owned(),
            StdinError::StdIn(e) => e.to_string(),
            StdinError::FromStr(m) => "unable to parse from_str: ".to_owned().concat(m.as_str()),
        }
    }
}

} // verus!
