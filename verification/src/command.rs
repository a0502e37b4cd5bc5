//! From the words of a command line to a command, and from a command to its
//! result.

use vstd::prelude::*;
use vstd::string::StringExecFns;

use crate::checksum::{generated, validated, Checksum};
use crate::error::{outcome, ChecksumError, Failure};
use crate::luhn::Luhn;
use crate::text::{ascii_lowercase, reads};

verus! {

/// The algorithms that can be selected by name.
#[derive(Debug, Clone, Copy, PartialEq, Eq, Structural)]
pub enum Algorithm {
    Luhn,
}

/// What is wrong with the words of a command line.
#[derive(Debug, Clone, Copy, PartialEq, Eq, Structural)]
pub enum UsageError {
    /// There is no word for the command.
    MissingCommand,
    /// The command is neither `generate` nor `validate`.
    UnknownCommand,
    /// There is no word for the checksum algorithm.
    MissingChecksum,
    /// The word for the checksum algorithm names none.
    UnknownChecksum,
    /// `generate` has no payload to work on.
    MissingPayload,
    /// `validate` has no message to work on.
    MissingMessage,
}

/// One operation of one algorithm on one string.
#[derive(Debug, PartialEq, Eq)]
pub enum Command {
    Generate(Algorithm, String),
    Validate(Algorithm, String),
}

/// A command as a mathematical value.
pub ghost enum Request {
    Generate(Algorithm, Seq<char>),
    Validate(Algorithm, Seq<char>),
}

impl View for Command {
    type V = Request;

    open spec fn view(&self) -> Request {
        match self {
            Command::Generate(algorithm, payload) => Request::Generate(*algorithm, payload@),
            Command::Validate(algorithm, msg) => Request::Validate(*algorithm, msg@),
        }
    }
}

impl Checksum for Algorithm {
    open spec fn algorithm_name(&self) -> Seq<char> {
        match self {
            Algorithm::Luhn => (Luhn {}).algorithm_name(),
        }
    }

    open spec fn accepts(&self, payload: Seq<char>) -> bool {
        match self {
            Algorithm::Luhn => (Luhn {}).accepts(payload),
        }
    }

    open spec fn is_check_char(&self, c: char) -> bool {
        match self {
            Algorithm::Luhn => (Luhn {}).is_check_char(c),
        }
    }

    open spec fn check_char(&self, payload: Seq<char>) -> char {
        match self {
            Algorithm::Luhn => (Luhn {}).check_char(payload),
        }
    }

    proof fn lemma_check_char_valid(&self, payload: Seq<char>) {
        match self {
            Algorithm::Luhn => (Luhn {}).lemma_check_char_valid(payload),
        }
    }

    fn name(&self) -> (name: &'static str) {
        match self {
            Algorithm::Luhn => (Luhn {}).name(),
        }
    }

    fn generate(&self, payload: &str) -> (r: Result<String, ChecksumError>) {
        match self {
            Algorithm::Luhn => (Luhn {}).generate(payload),
        }
    }

    fn validate(&self, msg: &str) -> (r: Result<String, ChecksumError>) {
        match self {
            Algorithm::Luhn => (Luhn {}).validate(msg),
        }
    }
}

/// The words of a command line as sequences of characters.
pub open spec fn words(args: Seq<String>) -> Seq<Seq<char>> {
    Seq::new(args.len(), |i: int| args[i]@)
}

/// The algorithm that `word` names. Capital and small letters count alike.
pub open spec fn algorithm_named(word: Seq<char>) -> Option<Algorithm> {
    if ascii_lowercase(word) == "luhn"@ {
        Some(Algorithm::Luhn)
    } else {
        None
    }
}

/// The algorithm that the word at position `at` selects.
pub open spec fn checksum_at(args: Seq<Seq<char>>, at: int) -> Result<Algorithm, UsageError> {
    if !(0 <= at < args.len()) {
        Err(UsageError::MissingChecksum)
    } else {
        match algorithm_named(args[at]) {
            Some(algorithm) => Ok(algorithm),
            None => Err(UsageError::UnknownChecksum),
        }
    }
}

/// The `generate` command that the words from position `at` on describe:
/// first the algorithm, then the payload.
pub open spec fn generate_command_at(args: Seq<Seq<char>>, at: int) -> Result<
    Request,
    UsageError,
> {
    match checksum_at(args, at) {
        Err(e) => Err(e),
        Ok(algorithm) => if at + 1 < args.len() {
            Ok(Request::Generate(algorithm, args[at + 1]))
        } else {
            Err(UsageError::MissingPayload)
        },
    }
}

/// The `validate` command that the words from position `at` on describe:
/// first the algorithm, then the message.
pub open spec fn validate_command_at(args: Seq<Seq<char>>, at: int) -> Result<
    Request,
    UsageError,
> {
    match checksum_at(args, at) {
        Err(e) => Err(e),
        Ok(algorithm) => if at + 1 < args.len() {
            Ok(Request::Validate(algorithm, args[at + 1]))
        } else {
            Err(UsageError::MissingMessage)
        },
    }
}

/// The command that the words describe: the command's name, the algorithm,
/// and the string to work on. Capital and small letters count alike in the
/// first two. Words behind the third are not looked at.
pub open spec fn command_of(args: Seq<Seq<char>>) -> Result<Request, UsageError> {
    if args.len() == 0 {
        Err(UsageError::MissingCommand)
    } else if ascii_lowercase(args[0]) == "generate"@ {
        generate_command_at(args, 1)
    } else if ascii_lowercase(args[0]) == "validate"@ {
        validate_command_at(args, 1)
    } else {
        Err(UsageError::UnknownCommand)
    }
}

/// A parsed command as a mathematical value.
pub open spec fn request(r: Result<Command, UsageError>) -> Result<Request, UsageError> {
    match r {
        Ok(command) => Ok(command@),
        Err(e) => Err(e),
    }
}

/// Selects the checksum algorithm that the word at position `at` names.
pub fn get_checksum(args: &Vec<String>, at: usize) -> (r: Result<Algorithm, UsageError>)
    ensures
        r == checksum_at(words(args@), at as int),
{
    if at >= args.len() {
        return Err(UsageError::MissingChecksum);
    }
    let word = args[at].as_str().to_ascii_lowercase();
    if reads(&word, "luhn") {
        Ok(Algorithm::Luhn)
    } else {
        Err(UsageError::UnknownChecksum)
    }
}

/// Reads a `generate` command from the words at position `at` and behind.
pub fn get_generate_command(args: &Vec<String>, at: usize) -> (r: Result<Command, UsageError>)
    ensures
        request(r) == generate_command_at(words(args@), at as int),
{
    let checksum = get_checksum(args, at)?;
    assert(at < args.len());
    if at + 1 < args.len() {
        Ok(Command::Generate(checksum, args[at + 1].clone()))
    } else {
        Err(UsageError::MissingPayload)
    }
}

/// Reads a `validate` command from the words at position `at` and behind.
pub fn get_validate_command(args: &Vec<String>, at: usize) -> (r: Result<Command, UsageError>)
    ensures
        request(r) == validate_command_at(words(args@), at as int),
{
    let checksum = get_checksum(args, at)?;
    assert(at < args.len());
    if at + 1 < args.len() {
        Ok(Command::Validate(checksum, args[at + 1].clone()))
    } else {
        Err(UsageError::MissingMessage)
    }
}

/// Reads a command from the words of a command line, the program's own name
/// left out.
pub fn get_command(args: &Vec<String>) -> (r: Result<Command, UsageError>)
    ensures
        request(r) == command_of(words(args@)),
{
    if args.len() == 0 {
        return Err(UsageError::MissingCommand);
    }
    let word = args[0].as_str().to_ascii_lowercase();
    if reads(&word, "generate") {
        get_generate_command(args, 1)
    } else if reads(&word, "validate") {
        get_validate_command(args, 1)
    } else {
        Err(UsageError::UnknownCommand)
    }
}

impl UsageError {
    /// The sentence that tells the user what to correct.
    pub open spec fn sentence(self) -> Seq<char> {
        match self {
            UsageError::MissingCommand => "please provide a command ('generate' or 'validate')"@,
            UsageError::UnknownCommand => "command must be one of {'generate', 'validate'}"@,
            UsageError::MissingChecksum => "please provide a checksum algorithm ('luhn')"@,
            UsageError::UnknownChecksum => "checksum must be one of {'luhn'}"@,
            UsageError::MissingPayload => "please provide a payload to checksum"@,
            UsageError::MissingMessage =>
                "please provide a message containing a checksummed payload"@,
        }
    }

    /// The sentence that tells the user what to correct.
    pub fn message(&self) -> (sentence: String)
        ensures
            sentence@ == self.sentence(),
    {
        match self {
            UsageError::MissingCommand => String::from_str(
                "please provide a command ('generate' or 'validate')",
            ),
            UsageError::UnknownCommand => String::from_str(
                "command must be one of {'generate', 'validate'}",
            ),
            UsageError::MissingChecksum => String::from_str(
                "please provide a checksum algorithm ('luhn')",
            ),
            UsageError::UnknownChecksum => String::from_str("checksum must be one of {'luhn'}"),
            UsageError::MissingPayload => String::from_str("please provide a payload to checksum"),
            UsageError::MissingMessage => String::from_str(
                "please provide a message containing a checksummed payload",
            ),
        }
    }
}

impl Command {
    /// What carrying out this command gives.
    pub open spec fn result(self) -> Result<Seq<char>, Failure> {
        match self {
            Command::Generate(algorithm, payload) => generated(&algorithm, payload@),
            Command::Validate(algorithm, msg) => validated(&algorithm, msg@),
        }
    }

    /// Carries out the command: the string to print, or the failure to
    /// report.
    pub fn run(&self) -> (r: Result<String, ChecksumError>)
        ensures
            outcome(r) == self.result(),
    {
        match self {
            Command::Generate(algorithm, payload) => algorithm.generate(payload.as_str()),
            Command::Validate(algorithm, msg) => algorithm.validate(msg.as_str()),
        }
    }
}

} // verus!
