use checksums::command::{
    get_checksum, get_command, get_generate_command, get_validate_command, Algorithm, Command,
    UsageError,
};
use checksums::{Checksum, ChecksumError};

fn words(list: &[&str]) -> Vec<String> {
    list.iter().map(|w| w.to_string()).collect()
}

#[test]
fn command_generate() {
    let args = words(&["generate", "luhn", "12345"]);
    assert_eq!(get_command(&args), Ok(Command::Generate(Algorithm::Luhn, "12345".to_owned())));
}

#[test]
fn command_validate() {
    let args = words(&["validate", "luhn", "123455"]);
    assert_eq!(get_command(&args), Ok(Command::Validate(Algorithm::Luhn, "123455".to_owned())));
}

#[test]
fn command_words_ignore_case() {
    let args = words(&["GeNeRaTe", "LUHN", "12345"]);
    assert_eq!(get_command(&args), Ok(Command::Generate(Algorithm::Luhn, "12345".to_owned())));
    let args = words(&["VALIDATE", "Luhn", "AbC"]);
    assert_eq!(get_command(&args), Ok(Command::Validate(Algorithm::Luhn, "AbC".to_owned())));
}

#[test]
fn command_ignores_further_words() {
    let args = words(&["generate", "luhn", "1", "2", "3"]);
    assert_eq!(get_command(&args), Ok(Command::Generate(Algorithm::Luhn, "1".to_owned())));
}

#[test]
fn command_missing() {
    assert_eq!(get_command(&words(&[])), Err(UsageError::MissingCommand));
}

#[test]
fn command_unknown() {
    assert_eq!(get_command(&words(&["check", "luhn", "1"])), Err(UsageError::UnknownCommand));
    assert_eq!(get_command(&words(&["generat\u{e9}"])), Err(UsageError::UnknownCommand));
    assert_eq!(get_command(&words(&[""])), Err(UsageError::UnknownCommand));
}

#[test]
fn checksum_missing() {
    assert_eq!(get_command(&words(&["generate"])), Err(UsageError::MissingChecksum));
    assert_eq!(get_command(&words(&["validate"])), Err(UsageError::MissingChecksum));
    assert_eq!(get_checksum(&words(&["luhn"]), 1), Err(UsageError::MissingChecksum));
    assert_eq!(get_checksum(&words(&["luhn"]), usize::MAX), Err(UsageError::MissingChecksum));
}

#[test]
fn checksum_unknown() {
    assert_eq!(get_command(&words(&["generate", "crc", "1"])), Err(UsageError::UnknownChecksum));
    assert_eq!(get_command(&words(&["validate", "luhn "])), Err(UsageError::UnknownChecksum));
    assert_eq!(get_checksum(&words(&["LUHN\u{131}"]), 0), Err(UsageError::UnknownChecksum));
}

#[test]
fn checksum_selected_by_name() {
    assert_eq!(get_checksum(&words(&["luhn"]), 0), Ok(Algorithm::Luhn));
    assert_eq!(get_checksum(&words(&["x", "LuHn"]), 1), Ok(Algorithm::Luhn));
}

#[test]
fn payload_missing() {
    assert_eq!(get_command(&words(&["generate", "luhn"])), Err(UsageError::MissingPayload));
    assert_eq!(get_generate_command(&words(&["luhn"]), 0), Err(UsageError::MissingPayload));
}

#[test]
fn message_missing() {
    assert_eq!(get_command(&words(&["validate", "luhn"])), Err(UsageError::MissingMessage));
    assert_eq!(get_validate_command(&words(&["luhn"]), 0), Err(UsageError::MissingMessage));
}

#[test]
fn commands_read_from_a_position() {
    let args = words(&["a", "b", "luhn", "77"]);
    assert_eq!(
        get_generate_command(&args, 2),
        Ok(Command::Generate(Algorithm::Luhn, "77".to_owned()))
    );
    assert_eq!(
        get_validate_command(&args, 2),
        Ok(Command::Validate(Algorithm::Luhn, "77".to_owned()))
    );
    assert_eq!(get_validate_command(&args, 1), Err(UsageError::UnknownChecksum));
    assert_eq!(get_generate_command(&args, 3), Err(UsageError::UnknownChecksum));
    assert_eq!(get_generate_command(&args, 4), Err(UsageError::MissingChecksum));
}

#[test]
fn run_generate() {
    let command = Command::Generate(Algorithm::Luhn, "7992739871".to_owned());
    assert_eq!(command.run(), Ok("79927398713".to_owned()));
    let command = Command::Generate(Algorithm::Luhn, "foo".to_owned());
    assert_eq!(command.run(), Err(ChecksumError::InvalidMessageError("foo".to_owned())));
}

#[test]
fn run_validate() {
    let command = Command::Validate(Algorithm::Luhn, "79927398713".to_owned());
    assert_eq!(command.run(), Ok("7992739871".to_owned()));
    let command = Command::Validate(Algorithm::Luhn, "".to_owned());
    assert_eq!(command.run(), Err(ChecksumError::InsufficientMessageError("".to_owned())));
}

#[test]
fn algorithm_is_a_checksum() {
    let algorithm = Algorithm::Luhn;
    assert_eq!(algorithm.name(), "Luhn");
    assert_eq!(algorithm.generate("1000"), Ok("10009".to_owned()));
    assert_eq!(algorithm.validate("10009"), Ok("1000".to_owned()));
}

#[test]
fn usage_sentences() {
    assert_eq!(
        UsageError::MissingCommand.message(),
        "please provide a command ('generate' or 'validate')"
    );
    assert_eq!(
        UsageError::UnknownCommand.message(),
        "command must be one of {'generate', 'validate'}"
    );
    assert_eq!(
        UsageError::MissingChecksum.message(),
        "please provide a checksum algorithm ('luhn')"
    );
    assert_eq!(UsageError::UnknownChecksum.message(), "checksum must be one of {'luhn'}");
    assert_eq!(UsageError::MissingPayload.message(), "please provide a payload to checksum");
    assert_eq!(
        UsageError::MissingMessage.message(),
        "please provide a message containing a checksummed payload"
    );
}
