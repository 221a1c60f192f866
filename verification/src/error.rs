//! The error that parsing an enumeration from its name reports.
use vstd::prelude::*;
use vstd::string::StringExecFns;

verus! {

/// A string that names no variant of the enumeration it was parsed into.
#[derive(Clone, Debug, PartialEq, Eq)]
pub struct ParseEnumError {
    /// The string that was given.
    pub input: String,
    /// The name of the enumeration it was parsed into.
    pub target: &'static str,
}

/// The text of the message for `input` and `target`.
pub open spec fn parse_error_message(input: Seq<char>, target: Seq<char>) -> Seq<char> {
    "Could not deserialize string '"@ + input + "' to "@ + target
}

impl ParseEnumError {
    /// The error for `input`, which names no variant of `target`.
    pub fn new(input: &str, target: &'static str) -> (e: ParseEnumError)
        ensures
            e.input@ == input@,
            e.target@ == target@,
    {
        ParseEnumError { input: String::from_str(input), target }
    }

    /// The human-readable message:
    /// `Could not deserialize string '<input>' to <target>`.
    pub fn message(&self) -> (m: String)
        ensures
            m@ == parse_error_message(self.input@, self.target@),
    {
        let mut m = String::from_str("Could not deserialize string '");
        m.append(self.input.as_str());
        m.append("' to ");
        m.append(self.target);
        m
    }
}

} // verus!
