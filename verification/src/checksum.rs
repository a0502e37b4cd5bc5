//! What every checksum algorithm offers: a name, `generate` and `validate`.

use vstd::prelude::*;

use crate::error::{outcome, ChecksumError, Failure};

verus! {

/// A checksum algorithm that protects a payload with one trailing check
/// character.
///
/// An implementation says in three specification functions which payloads it
/// can process, which characters can stand as a check character and which
/// one a payload calls for. The contracts of `generate` and `validate` are
/// stated over these, so they hold of every implementation alike.
pub trait Checksum {
    /// The name of the algorithm.
    spec fn algorithm_name(&self) -> Seq<char>;

    /// Whether the algorithm can process `payload`.
    spec fn accepts(&self, payload: Seq<char>) -> bool;

    /// Whether `c` can stand as a check character.
    spec fn is_check_char(&self, c: char) -> bool;

    /// The check character that `payload` calls for.
    spec fn check_char(&self, payload: Seq<char>) -> char;

    /// The check character of a payload that the algorithm accepts can
    /// stand as one.
    proof fn lemma_check_char_valid(&self, payload: Seq<char>)
        requires
            self.accepts(payload),
        ensures
            self.is_check_char(self.check_char(payload)),
    ;

    /// Gives the name of this checksum algorithm: the same on every call,
    /// and never empty.
    fn name(&self) -> (name: &'static str)
        ensures
            name@ == self.algorithm_name(),
            name@.len() > 0,
    ;

    /// Given a payload, generates the checksummed version of the payload.
    fn generate(&self, payload: &str) -> (r: Result<String, ChecksumError>)
        ensures
            outcome(r) == generate_outcome(
                payload@,
                self.accepts(payload@),
                self.check_char(payload@),
            ),
    ;

    /// Given a checksummed message, checks the checksum and returns the
    /// payload if it is right.
    fn validate(&self, msg: &str) -> (r: Result<String, ChecksumError>)
        ensures
            msg@.len() == 0 ==> outcome(r) == Err::<Seq<char>, Failure>(
                Failure::InsufficientMessage(msg@),
            ),
            msg@.len() > 0 ==> outcome(r) == validate_outcome(
                msg@,
                self.is_check_char(msg@.last()),
                self.accepts(msg@.drop_last()),
                self.check_char(msg@.drop_last()),
            ),
    ;
}

/// The outcome of `generate` on `payload`, given whether the algorithm
/// accepts the payload and which check character it calls for: the payload
/// with that character behind it, or the refusal of the payload.
pub open spec fn generate_outcome(payload: Seq<char>, accepted: bool, check: char) -> Result<
    Seq<char>,
    Failure,
> {
    if accepted {
        Ok(payload.push(check))
    } else {
        Err(Failure::InvalidMessage(payload))
    }
}

/// The outcome of `validate` on a message `msg` that is not empty. The last
/// character of the message is the claimed check character, what stands
/// before it the payload. Given are whether the claimed character can be a
/// check character, whether the algorithm accepts the payload, and which
/// check character the payload calls for. The message is refused as invalid
/// (and as a whole) if the claimed character cannot be a check character or
/// the payload is not accepted, and as incorrect if the payload calls for
/// another check character. Otherwise the payload is returned.
pub open spec fn validate_outcome(
    msg: Seq<char>,
    claimed_valid: bool,
    payload_accepted: bool,
    wanted: char,
) -> Result<Seq<char>, Failure>
    recommends
        msg.len() > 0,
{
    if !claimed_valid || !payload_accepted {
        Err(Failure::InvalidMessage(msg))
    } else if msg.last() != wanted {
        Err(Failure::IncorrectChecksum { got: seq![msg.last()], wanted: seq![wanted] })
    } else {
        Ok(msg.drop_last())
    }
}

/// What `generate` of the algorithm `c` returns on `payload`.
pub open spec fn generated<C: Checksum + ?Sized>(c: &C, payload: Seq<char>) -> Result<
    Seq<char>,
    Failure,
> {
    generate_outcome(payload, c.accepts(payload), c.check_char(payload))
}

/// What `validate` of the algorithm `c` returns on `msg`: the refusal of an
/// empty message as insufficient, and else the outcome that the algorithm's
/// three functions give.
pub open spec fn validated<C: Checksum + ?Sized>(c: &C, msg: Seq<char>) -> Result<
    Seq<char>,
    Failure,
> {
    if msg.len() == 0 {
        Err(Failure::InsufficientMessage(msg))
    } else {
        validate_outcome(
            msg,
            c.is_check_char(msg.last()),
            c.accepts(msg.drop_last()),
            c.check_char(msg.drop_last()),
        )
    }
}

/// Round trip: what `generate` makes of a payload that the algorithm
/// accepts, `validate` takes back to that payload.
pub proof fn lemma_round_trip<C: Checksum + ?Sized>(c: &C, payload: Seq<char>)
    requires
        c.accepts(payload),
    ensures
        generated(c, payload) is Ok,
        validated(c, generated(c, payload)->Ok_0) == Ok::<Seq<char>, Failure>(payload),
{
    let message = payload.push(c.check_char(payload));
    assert(message.drop_last() =~= payload);
    c.lemma_check_char_valid(payload);
}

/// A message that `validate` accepts is what `generate` makes of the
/// payload that `validate` returns.
pub proof fn lemma_validated_is_generated<C: Checksum + ?Sized>(c: &C, msg: Seq<char>)
    requires
        validated(c, msg) is Ok,
    ensures
        generated(c, validated(c, msg)->Ok_0) == Ok::<Seq<char>, Failure>(msg),
{
    assert(msg.drop_last().push(msg.last()) =~= msg);
}

/// `generate` is a function of its input: two results that meet its
/// contract on equal payloads are equal, as outcomes.
pub proof fn lemma_generate_deterministic<C: Checksum + ?Sized>(
    c: &C,
    first_payload: Seq<char>,
    second_payload: Seq<char>,
    first: Result<String, ChecksumError>,
    second: Result<String, ChecksumError>,
)
    requires
        first_payload == second_payload,
        outcome(first) == generated(c, first_payload),
        outcome(second) == generated(c, second_payload),
    ensures
        outcome(first) == outcome(second),
{
}

/// `validate` is a function of its input: two results that meet its
/// contract on equal messages are equal, as outcomes.
pub proof fn lemma_validate_deterministic<C: Checksum + ?Sized>(
    c: &C,
    first_msg: Seq<char>,
    second_msg: Seq<char>,
    first: Result<String, ChecksumError>,
    second: Result<String, ChecksumError>,
)
    requires
        first_msg == second_msg,
        outcome(first) == validated(c, first_msg),
        outcome(second) == validated(c, second_msg),
    ensures
        outcome(first) == outcome(second),
{
}

} // verus!
