//! Request ids that are drawn from the clock.

use crate::delta;
use std::collections::hash_map::DefaultHasher;
use std::hash::Hasher;
use std::time::{Duration, SystemTime, SystemTimeError};
use vstd::prelude::*;

verus! {

/// How long a request id is.
pub const REQUEST_ID_LEN: usize = 6;

/// The smallest number that takes as many hexadecimal digits as a request id has.
pub const SMALLEST_DIGEST: u64 = 0x10_0000;

/// The digit with the value `value`.
pub open spec fn hex_digit(value: int) -> char {
    "0123456789abcdef"@[value]
}

/// `number` in hexadecimal, in lower case and without leading zeros.
pub open spec fn hex_digits(number: nat) -> Seq<char>
    decreases number,
{
    if number < 16 {
        seq![hex_digit(number as int)]
    } else {
        hex_digits(number / 16).push(hex_digit((number % 16) as int))
    }
}

/// Whether each character is a hexadecimal digit in lower case.
pub open spec fn all_hex(text: Seq<char>) -> bool {
    forall|i: int|
        0 <= i < text.len() ==> exists|value: int|
            0 <= value < 16 && #[trigger] text[i] == #[trigger] hex_digit(value)
}

/// Whether these are the bytes of a number in an order in which a machine may store them: from the
/// least significant byte on, or from the most significant one on.
pub open spec fn in_machine_order(bytes: Seq<u8>, number: u128) -> bool {
    ||| bytes == vstd::bytes::spec_u128_to_le_bytes(number)
    ||| bytes == vstd::bytes::spec_u128_to_le_bytes(number).reverse()
}

/// What std's default hasher makes of some bytes that are given to it in one piece.
pub open spec fn digest_of(bytes: Seq<u8>) -> u64 {
    <DefaultHasher as vstd::std_specs::hash::DefaultHasherAdditionalSpecFns>::spec_finish(seq![bytes])
}

/// The id that a digest gives: its first hexadecimal digits.
pub open spec fn id_of_digest(digest: u64) -> Seq<char> {
    hex_digits(digest as nat).take(REQUEST_ID_LEN as int)
}

/// The id that the bytes of a moment give. There is none where their digest has too few digits.
pub open spec fn id_of_bytes(bytes: Seq<u8>) -> Option<Seq<char>> {
    if digest_of(bytes) >= SMALLEST_DIGEST {
        Some(id_of_digest(digest_of(bytes)))
    } else {
        None
    }
}

/// Whether this is the id for a moment, told in nanoseconds since 1970: the one that the bytes of
/// their number give, in the machine's order.
pub open spec fn is_id_at(id: Option<Seq<char>>, nanos: u128) -> bool {
    exists|bytes: Seq<u8>| #[trigger] in_machine_order(bytes, nanos) && id == id_of_bytes(bytes)
}

/// Whether this is the id for what the clock says: the nanoseconds since 1970, or nothing while it
/// stands before that.
pub open spec fn is_id_for(id: Option<Seq<char>>, clock: Option<u128>) -> bool {
    match clock {
        Some(nanos) => is_id_at(id, nanos),
        None => id is None,
    }
}

/// Whether an id, where there is one, is of the right length and made of digits only.
pub open spec fn is_well_formed(id: Option<Seq<char>>) -> bool {
    id matches Some(id) ==> id.len() == REQUEST_ID_LEN && all_hex(id)
}

/// A number is written with digits only, and with at least one.
proof fn lemma_hex_digits(number: nat)
    ensures
        all_hex(hex_digits(number)),
        hex_digits(number).len() >= 1,
    decreases number,
{
    let last = (number % 16) as int;
    if number < 16 {
        assert(hex_digits(number)[0] == hex_digit(number as int));
    } else {
        lemma_hex_digits(number / 16);
        let head = hex_digits(number / 16);
        assert(hex_digits(number) == head.push(hex_digit(last)));
        assert forall|i: int| 0 <= i < hex_digits(number).len() implies exists|value: int|
            0 <= value < 16 && #[trigger] hex_digits(number)[i] == #[trigger] hex_digit(value) by {
            if i < head.len() {
                assert(hex_digits(number)[i] == head[i]);
            } else {
                assert(hex_digits(number)[i] == hex_digit(last));
            }
        }
    }
}

/// A digest that is not too small has enough digits for an id.
proof fn lemma_enough_digits(digest: u64)
    requires
        digest >= SMALLEST_DIGEST,
    ensures
        hex_digits(digest as nat).len() >= REQUEST_ID_LEN,
{
    let n = digest as nat;
    reveal_with_fuel(hex_digits, 6);
    lemma_hex_digits(n / 16 / 16 / 16 / 16 / 16);
}

/// A moment, as the clock tells it.
#[verifier::external_type_specification]
#[verifier::external_body]
pub struct ExSystemTime(std::time::SystemTime);

/// The clock stands before the moment that it is compared with.
#[verifier::external_type_specification]
#[verifier::external_body]
pub struct ExSystemTimeError(std::time::SystemTimeError);

/// `std::time::SystemTime::now`. Nothing is claimed of what the clock says.
pub assume_specification[ std::time::SystemTime::now ]() -> (now: SystemTime);

/// How much time has passed from 1970 until a moment, or `None` for one before that.
pub uninterp spec fn passed_since_epoch(now: std::time::SystemTime) -> Option<std::time::Duration>;

/// `std::time::SystemTime::duration_since` from 1970 on: the time that has passed until then, which
/// depends on the moment alone, or an error for a moment before 1970.
#[verifier::external_body]
fn since_epoch(now: &SystemTime) -> (passed: Result<Duration, SystemTimeError>)
    ensures
        match passed {
            Ok(passed) => passed_since_epoch(*now) == Some(passed),
            Err(_) => passed_since_epoch(*now) is None,
        },
{
    now.duration_since(std::time::UNIX_EPOCH)
}

/// How many nanoseconds a duration has.
pub uninterp spec fn nanos_of(passed: std::time::Duration) -> u128;

/// `std::time::Duration::as_nanos`: how many nanoseconds there are in all, which depends on the
/// duration alone.
pub assume_specification[ std::time::Duration::as_nanos ](passed: &Duration) -> (nanos: u128)
    ensures
        nanos == nanos_of(*passed),
;

/// What the clock says at a moment: the nanoseconds since 1970, or nothing before that.
pub open spec fn clock_at(now: SystemTime) -> Option<u128> {
    match passed_since_epoch(now) {
        Some(passed) => Some(nanos_of(passed)),
        None => None,
    }
}

/// `u128::to_ne_bytes`: the bytes of a number in the order in which the machine stores them. Which
/// of the two orders that is depends on the machine, so nothing is claimed of it.
#[verifier::external_body]
fn machine_bytes(number: u128) -> (bytes: [u8; 16])
    ensures
        in_machine_order(bytes@, number),
{
    number.to_ne_bytes()
}

/// `number` in hexadecimal, in lower case and without leading zeros.
fn to_hex(number: u64) -> (text: String)
    ensures
        text@ == hex_digits(number as nat),
    decreases number,
{
    let digits = "0123456789abcdef";
    proof {
        reveal_strlit("0123456789abcdef");
    }
    if number < 16 {
        let at: usize = number as usize;
        let text = digits.substring_char(at, at + 1).to_owned();
        assert(text@ == seq![hex_digit(number as int)]);
        text
    } else {
        let mut text = to_hex(number / 16);
        let at: usize = (number % 16) as usize;
        let ghost head = text@;
        text.append(digits.substring_char(at, at + 1));
        assert(text@ == head.push(hex_digit(at as int)));
        text
    }
}

/// The request id that a digest gives.
pub fn request_id_of_digest(digest: u64) -> (id: String)
    requires
        digest >= SMALLEST_DIGEST,
    ensures
        id@ == id_of_digest(digest),
        id@.len() == REQUEST_ID_LEN,
        all_hex(id@),
{
    let digits = to_hex(digest);
    proof {
        lemma_hex_digits(digest as nat);
        lemma_enough_digits(digest);
    }
    let id = digits.as_str().substring_char(0, REQUEST_ID_LEN).to_owned();
    assert(id@ == id_of_digest(digest));
    assert forall|i: int| 0 <= i < id@.len() implies exists|value: int|
        0 <= value < 16 && #[trigger] id@[i] == #[trigger] hex_digit(value) by {
        assert(id@[i] == hex_digits(digest as nat)[i]);
    }
    id
}

/// The request id that the bytes of a moment give. There is none for the rare ones whose digest has
/// too few digits.
pub fn request_id_of_bytes(bytes: &[u8]) -> (id: Option<String>)
    ensures
        delta::opt_view(id) == id_of_bytes(bytes@),
        is_well_formed(delta::opt_view(id)),
{
    let mut hasher = DefaultHasher::new();
    hasher.write(bytes);
    assert(hasher@ == seq![bytes@]);
    let digest: u64 = hasher.finish();
    if digest < SMALLEST_DIGEST {
        None
    } else {
        Some(request_id_of_digest(digest))
    }
}

/// The request id for a moment, told in nanoseconds since 1970. It rests on the order in which the
/// machine stores the bytes of a number; [`request_id_of_bytes`] says which id follows on which
/// bytes.
pub fn request_id_at(nanos: u128) -> (id: Option<String>)
    ensures
        is_id_at(delta::opt_view(id), nanos),
        is_well_formed(delta::opt_view(id)),
{
    let bytes = machine_bytes(nanos);
    request_id_of_bytes(bytes.as_slice())
}

/// The request id for what the clock says: the nanoseconds since 1970, or nothing while it stands
/// before that, and then there is no id.
pub fn request_id_for(clock: Option<u128>) -> (id: Option<String>)
    ensures
        is_id_for(delta::opt_view(id), clock),
        is_well_formed(delta::opt_view(id)),
{
    match clock {
        Some(nanos) => request_id_at(nanos),
        None => None,
    }
}

/// A request id for this moment. There is none while the clock stands before 1970, nor for the
/// rare moment whose digest has too few digits.
pub fn generate_request_id() -> (id: Option<String>)
    ensures
        exists|now: SystemTime| is_id_for(delta::opt_view(id), #[trigger] clock_at(now)),
        is_well_formed(delta::opt_view(id)),
{
    let now = SystemTime::now();
    let clock: Option<u128> = match since_epoch(&now) {
        Ok(passed) => Some(passed.as_nanos()),
        Err(_) => None,
    };
    assert(clock == clock_at(now));
    request_id_for(clock)
}

/// What a hexadecimal digit in lower case stands for.
pub open spec fn digit_value(digit: char) -> int {
    if '0' <= digit <= '9' {
        digit as int - '0' as int
    } else {
        digit as int - 'a' as int + 10
    }
}

/// The number that a text stands for, read as hexadecimal digits.
pub open spec fn value_of(text: Seq<char>) -> int
    decreases text.len(),
{
    if text.len() == 0 {
        0
    } else {
        value_of(text.drop_last()) * 16 + digit_value(text.last())
    }
}

/// Each digit stands for its value.
proof fn lemma_digit_value(value: int)
    requires
        0 <= value < 16,
    ensures
        digit_value(hex_digit(value)) == value,
{
    reveal_strlit("0123456789abcdef");
}

/// A number is read back from its digits, and the first of them is no zero unless the number is one.
pub proof fn law_numbers_are_read_back(number: nat)
    ensures
        value_of(hex_digits(number)) == number,
        hex_digits(number).len() > 0,
        all_hex(hex_digits(number)),
        number > 0 ==> hex_digits(number)[0] != '0',
    decreases number,
{
    lemma_hex_digits(number);
    lemma_digit_value((number % 16) as int);
    if number < 16 {
        let digit = hex_digit(number as int);
        assert(hex_digits(number).drop_last() == Seq::<char>::empty());
        assert(value_of(hex_digits(number)) == value_of(Seq::<char>::empty()) * 16 + digit_value(digit));
    } else {
        law_numbers_are_read_back(number / 16);
        let head = hex_digits(number / 16);
        assert(hex_digits(number).drop_last() == head);
        assert(hex_digits(number)[0] == head[0]);
    }
}

/// The number without its last `count` digits.
proof fn lemma_leading_digits(number: nat, count: nat)
    requires
        count < hex_digits(number).len(),
    ensures
        ({
            let lead = value_of(hex_digits(number).take(hex_digits(number).len() - count));
            lead * vstd::arithmetic::power::pow(16, count) <= number < (lead + 1) * vstd::arithmetic::power::pow(16, count)
        }),
    decreases count,
{
    let digits = hex_digits(number);
    vstd::arithmetic::power::lemma_pow0(16);
    law_numbers_are_read_back(number);
    if count == 0 {
        assert(digits.take(digits.len() as int) == digits);
    } else {
        let before = (count - 1) as nat;
        let shorter = hex_digits(number / 16);
        assert(digits.drop_last() == shorter);
        lemma_leading_digits(number / 16, before);
        assert(digits.take(digits.len() - count) == shorter.take(shorter.len() - before));
        let lead = value_of(shorter.take(shorter.len() - before));
        let scale = vstd::arithmetic::power::pow(16, before);
        let rest = (number / 16) as int;
        reveal(vstd::arithmetic::power::pow);
        assert(vstd::arithmetic::power::pow(16, count) == 16 * scale);
        assert(lead * (16 * scale) == 16 * (lead * scale)) by (nonlinear_arith);
        assert((lead + 1) * (16 * scale) == 16 * ((lead + 1) * scale)) by (nonlinear_arith);
        assert(16 * rest <= number < 16 * rest + 16);
    }
}

/// The id of a moment is the six leading digits of its digest: their number, with as many digits put
/// behind it as the digest has besides, comes next to the digest from below. There is an id exactly
/// where the digest has six digits or more.
pub proof fn law_ids_are_the_leading_digits(bytes: Seq<u8>)
    ensures
        ({
            let digest = <DefaultHasher as vstd::std_specs::hash::DefaultHasherAdditionalSpecFns>::spec_finish(
                seq![bytes],
            );
            &&& id_of_bytes(bytes) is Some <==> digest >= 0x10_0000
            &&& id_of_bytes(bytes) matches Some(id) ==> {
                &&& id.len() == 6
                &&& forall|i: int| 0 <= i < 6 ==> '0' <= #[trigger] id[i] <= '9' || 'a' <= id[i] <= 'f'
                &&& id[0] != '0'
                &&& exists|count: nat|
                    value_of(id) * #[trigger] vstd::arithmetic::power::pow(16, count) <= digest < (value_of(id) + 1) * vstd::arithmetic::power::pow(16, count)
            }
        }),
{
    let digest = digest_of(bytes);
    if digest >= SMALLEST_DIGEST {
        let digits = hex_digits(digest as nat);
        lemma_enough_digits(digest);
        law_numbers_are_read_back(digest as nat);
        let id = id_of_digest(digest);
        let count = (digits.len() - 6) as nat;
        lemma_leading_digits(digest as nat, count);
        assert(digits.take(digits.len() - count) == id);
        assert forall|i: int| 0 <= i < id.len() implies exists|value: int|
            0 <= value < 16 && #[trigger] id[i] == #[trigger] hex_digit(value) by {
            assert(id[i] == digits[i]);
        }
        assert forall|i: int| 0 <= i < 6 implies '0' <= #[trigger] id[i] <= '9' || 'a' <= id[i] <= 'f' by {
            reveal_strlit("0123456789abcdef");
            let value = choose|value: int| 0 <= value < 16 && id[i] == #[trigger] hex_digit(value);
            assert(id[i] == "0123456789abcdef"@[value]);
        }
        assert(value_of(id) * vstd::arithmetic::power::pow(16, count) <= digest < (value_of(id) + 1) * vstd::arithmetic::power::pow(16, count));
    }
}

/// The id for what the clock says is the one that the bytes of its nanoseconds give, in the order of
/// the machine; while it stands before 1970 there is none.
pub proof fn law_ids_follow_the_clock(id: Option<Seq<char>>, clock: Option<u128>)
    requires
        is_id_for(id, clock),
    ensures
        match clock {
            Some(nanos) => id == id_of_bytes(vstd::bytes::spec_u128_to_le_bytes(nanos)) || id == id_of_bytes(
                vstd::bytes::spec_u128_to_le_bytes(nanos).reverse(),
            ),
            None => id is None,
        },
{
}

} // verus!
