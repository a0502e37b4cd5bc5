//! The failures of a checksum operation, and how each is put into words.

use vstd::prelude::*;
use vstd::string::StringExecFns;

verus! {

/// Why a checksum could not be generated or a message was not accepted.
#[derive(Debug, PartialEq, Eq)]
pub enum ChecksumError {
    /// The text holds a character that the algorithm cannot process.
    InvalidMessageError(String),
    /// The check character `got` that the message ends in is not the one
    /// that its payload calls for, `wanted`.
    IncorrectChecksumError { got: String, wanted: String },
    /// The text is too short to hold a check character at all.
    InsufficientMessageError(String),
}

/// A failure as a mathematical value: the strings of a [`ChecksumError`]
/// taken as sequences of characters.
pub ghost enum Failure {
    InvalidMessage(Seq<char>),
    IncorrectChecksum { got: Seq<char>, wanted: Seq<char> },
    InsufficientMessage(Seq<char>),
}

impl Failure {
    /// The sentence that reports this failure.
    pub open spec fn message(self) -> Seq<char> {
        match self {
            Failure::InvalidMessage(text) => "'"@ + text
                + "' was not a valid message for this checksum"@,
            Failure::IncorrectChecksum { got, wanted } => "checksum value '"@ + got
                + "' was not correct; expected '"@ + wanted + "'"@,
            Failure::InsufficientMessage(text) => "'"@ + text
                + "' did not contain enough data to be a checksummed message"@,
        }
    }
}

impl View for ChecksumError {
    type V = Failure;

    open spec fn view(&self) -> Failure {
        match self {
            ChecksumError::InvalidMessageError(text) => Failure::InvalidMessage(text@),
            ChecksumError::IncorrectChecksumError { got, wanted } => Failure::IncorrectChecksum {
                got: got@,
                wanted: wanted@,
            },
            ChecksumError::InsufficientMessageError(text) => Failure::InsufficientMessage(text@),
        }
    }
}

impl ChecksumError {
    /// The sentence that reports this failure to a person.
    pub fn message(&self) -> (sentence: String)
        ensures
            sentence@ == self@.message(),
    {
        match self {
            ChecksumError::InvalidMessageError(text) => {
                let mut sentence = String::from_str("'");
                sentence.append(text.as_str());
                sentence.append("' was not a valid message for this checksum");
                sentence
            },
            ChecksumError::IncorrectChecksumError { got, wanted } => {
                let mut sentence = String::from_str("checksum value '");
                sentence.append(got.as_str());
                sentence.append("' was not correct; expected '");
                sentence.append(wanted.as_str());
                sentence.append("'");
                sentence
            },
            ChecksumError::InsufficientMessageError(text) => {
                let mut sentence = String::from_str("'");
                sentence.append(text.as_str());
                sentence.append("' did not contain enough data to be a checksummed message");
                sentence
            },
        }
    }
}

/// The outcome of an operation that returns a string, as a mathematical
/// value.
pub open spec fn outcome(r: Result<String, ChecksumError>) -> Result<Seq<char>, Failure> {
    match r {
        Ok(text) => Ok(text@),
        Err(e) => Err(e@),
    }
}

} // verus!
