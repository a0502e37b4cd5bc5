//! The Luhn algorithm: one decimal check digit behind a payload of decimal
//! digits.

use vstd::prelude::*;
use vstd::string::StringSliceAdditionalSpecFns;

use crate::checksum::{generated, lemma_round_trip, validated, Checksum};
use crate::error::{ChecksumError, Failure};
use crate::text::char_string;

verus! {

/// The Luhn checksum algorithm.
pub struct Luhn {}

/// Whether `c` is one of the decimal digits '0' to '9'.
pub open spec fn is_digit(c: char) -> bool {
    '0' <= c && c <= '9'
}

/// Whether `s` holds decimal digits only. The empty sequence does.
pub open spec fn all_digits(s: Seq<char>) -> bool {
    forall|i: int| 0 <= i < s.len() ==> is_digit(#[trigger] s[i])
}

/// The number that the digit `c` stands for.
pub open spec fn digit_value(c: char) -> int {
    c as int - '0' as int
}

/// The digit that stands for `v`, where `0 <= v <= 9`.
pub open spec fn digit_char(v: int) -> char {
    ('0' as int + v) as char
}

/// What one digit adds to the Luhn sum: its value, or, in a doubling
/// position, the sum of the decimal digits of twice its value.
pub open spec fn contribution(c: char, doubled: bool) -> int {
    let v = digit_value(c);
    if doubled {
        (2 * v) / 10 + (2 * v) % 10
    } else {
        v
    }
}

/// The Luhn sum of the digits `s`, counted from the right-hand end: the last
/// digit is in a doubling position exactly if `doubled`, and the positions
/// alternate from there to the left.
pub open spec fn luhn_sum(s: Seq<char>, doubled: bool) -> int
    decreases s.len(),
{
    if s.len() == 0 {
        0
    } else {
        luhn_sum(s.drop_last(), !doubled) + contribution(s.last(), doubled)
    }
}

/// The number of the check digit of the payload `s`: what brings the Luhn
/// sum, in which the last digit of the payload is doubled, to a multiple of
/// ten.
pub open spec fn check_value(s: Seq<char>) -> int {
    (10 - luhn_sum(s, true) % 10) % 10
}

/// The check digit of the payload `s`.
pub open spec fn check_digit(s: Seq<char>) -> char {
    digit_char(check_value(s))
}

/// What `calculate` returns on `s`: the check digit of a payload of digits,
/// and a refusal of anything else.
pub open spec fn calculated(s: Seq<char>) -> Result<char, Failure> {
    if all_digits(s) {
        Ok(check_digit(s))
    } else {
        Err(Failure::InvalidMessage(s))
    }
}

/// The check digit is a decimal digit.
pub proof fn lemma_check_digit_is_digit(s: Seq<char>)
    ensures
        is_digit(check_digit(s)),
        digit_value(check_digit(s)) == check_value(s),
{
}

/// A payload of digits with its check digit behind it has a Luhn sum that is
/// a multiple of ten, and no other digit in that place gives one.
pub proof fn lemma_check_digit_completes_sum(payload: Seq<char>, c: char)
    requires
        all_digits(payload),
        is_digit(c),
    ensures
        luhn_sum(payload.push(c), false) % 10 == 0 <==> c == check_digit(payload),
{
    let message = payload.push(c);
    assert(message.drop_last() =~= payload);
}

/// Round trip: what `generate` makes of a payload of decimal digits, the
/// empty one among them, `validate` takes back to that payload.
pub proof fn lemma_luhn_round_trip(payload: Seq<char>)
    requires
        all_digits(payload),
    ensures
        generated(&Luhn {}, payload) == Ok::<Seq<char>, Failure>(
            payload.push(check_digit(payload)),
        ),
        validated(&Luhn {}, payload.push(check_digit(payload))) == Ok::<Seq<char>, Failure>(
            payload,
        ),
{
    lemma_round_trip(&Luhn {}, payload);
}

/// Whether the given character is valid for this algorithm: a decimal digit.
pub fn is_valid_digit(c: char) -> (valid: bool)
    ensures
        valid == is_digit(c),
{
    c >= '0' && c <= '9'
}

/// The check digit that the payload `msg` calls for.
pub fn calculate(msg: &str) -> (r: Result<char, ChecksumError>)
    ensures
        match r {
            Ok(c) => calculated(msg@) == Ok::<char, Failure>(c),
            Err(e) => calculated(msg@) == Err::<char, Failure>(e@),
        },
{
    let mut sum: u32 = 0;
    // Positions count from the right, the scan runs from the left.
    let bytes: usize = msg.as_bytes().len();
    let mut odd_digit: bool = bytes % 2 == 1;
    for c in it: msg.chars()
        invariant
            it.seq() == msg@,
            bytes == msg.spec_bytes().len(),
            odd_digit == ((bytes - it.index()) % 2 == 1),
            all_digits(msg@.take(it.index() as int)),
            sum < 10,
            sum == luhn_sum(msg@.take(it.index() as int), !odd_digit) % 10,
    {
        let ghost i: int = it.index() as int;
        if !is_valid_digit(c) {
            return Err(ChecksumError::InvalidMessageError(msg.to_owned()));
        }
        let value: u32 = (c as u32) - ('0' as u32);
        let added: u32 = if odd_digit {
            let twice: u32 = 2 * value;
            if twice == 0 {
                0
            } else {
                (twice - 1) % 9 + 1
            }
        } else {
            value
        };
        proof {
            let before = msg@.take(i);
            let after = msg@.take(i + 1);
            assert(after.drop_last() =~= before);
            assert(added == contribution(c, odd_digit));
            assert(all_digits(after));
        }
        sum = (sum + added) % 10;
        odd_digit = !odd_digit;
    }
    proof {
        assert(msg@.take(msg@.len() as int) =~= msg@);
        assert(vstd::utf8::is_ascii_chars(msg@));
        vstd::utf8::is_ascii_chars_encode_utf8(msg@);
    }
    let value: u32 = (10 - sum) % 10;
    Ok((('0' as u8) + (value as u8)) as char)
}

impl Checksum for Luhn {
    open spec fn algorithm_name(&self) -> Seq<char> {
        "Luhn"@
    }

    /// Luhn processes payloads of decimal digits.
    open spec fn accepts(&self, payload: Seq<char>) -> bool {
        all_digits(payload)
    }

    /// A Luhn check character is a decimal digit.
    open spec fn is_check_char(&self, c: char) -> bool {
        is_digit(c)
    }

    open spec fn check_char(&self, payload: Seq<char>) -> char {
        check_digit(payload)
    }

    proof fn lemma_check_char_valid(&self, payload: Seq<char>) {
        lemma_check_digit_is_digit(payload);
    }

    fn name(&self) -> (name: &'static str) {
        proof {
            reveal_strlit("Luhn");
        }
        "Luhn"
    }

    fn generate(&self, payload: &str) -> (r: Result<String, ChecksumError>) {
        let checksum: char = calculate(payload)?;
        let mut result = payload.to_owned();
        result.push(checksum);
        Ok(result)
    }

    fn validate(&self, msg: &str) -> (r: Result<String, ChecksumError>) {
        let mut payload: String = msg.to_owned();
        let actual_checksum: char = match payload.pop() {
            Some(c) => c,
            None => {
                return Err(ChecksumError::InsufficientMessageError(msg.to_owned()));
            },
        };

        // The check character must be a digit itself; `calculate` sees to
        // the payload.
        if !is_valid_digit(actual_checksum) {
            return Err(ChecksumError::InvalidMessageError(msg.to_owned()));
        }
        let expected_checksum: char = match calculate(payload.as_str()) {
            // A complaint about the payload is made about the whole input.
            Err(ChecksumError::InvalidMessageError(_)) => {
                return Err(ChecksumError::InvalidMessageError(msg.to_owned()));
            },
            Err(other) => {
                return Err(other);
            },
            Ok(checksum) => checksum,
        };

        if actual_checksum != expected_checksum {
            return Err(
                ChecksumError::IncorrectChecksumError {
                    got: char_string(actual_checksum),
                    wanted: char_string(expected_checksum),
                },
            );
        }
        Ok(payload)
    }
}

} // verus!
