//! The calls into outside crates: fresh identifiers and text forms from
//! `uuid`, the clock from `chrono`. Each function here is trusted: its
//! contract restates what the called crate's source does.

use vstd::prelude::*;

use crate::model::Timestamp;

verus! {

/// The lower-case hexadecimal digit for `n` (`0 <= n < 16`).
pub open spec fn hex_digit(n: int) -> char {
    seq!['0', '1', '2', '3', '4', '5', '6', '7', '8', '9', 'a', 'b', 'c', 'd', 'e', 'f'][n]
}

/// Which of the 32 hex digits stands at position `i` of the hyphenated
/// form, once the hyphens before it are skipped.
pub open spec fn hyphenated_digit_index(i: int) -> int {
    if i < 8 {
        i
    } else if i < 13 {
        i - 1
    } else if i < 18 {
        i - 2
    } else if i < 23 {
        i - 3
    } else {
        i - 4
    }
}

/// The `j`-th of the 32 hex digits of `id`, most significant first.
pub open spec fn uuid_nibble(id: u128, j: int) -> int {
    ((id >> ((124 - 4 * j) as u128)) & 0xf) as int
}

/// The hyphenated lower-case text of a UUID, such as
/// `67e55044-10b1-426f-9247-bb680e5fe0c8`: its 32 hex digits, most
/// significant first, in groups of 8, 4, 4, 4 and 12 joined by hyphens.
pub open spec fn hyphenated(id: u128) -> Seq<char> {
    Seq::new(
        36,
        |i: int|
            if i == 8 || i == 13 || i == 18 || i == 23 {
                '-'
            } else {
                hex_digit(uuid_nibble(id, hyphenated_digit_index(i)))
            },
    )
}

/// Whether `id` carries the marks of a random (version 4, RFC 4122
/// variant) UUID: version nibble 4, variant bits `10`.
pub open spec fn is_random_uuid(id: u128) -> bool {
    &&& (id >> 76u128) & 0xf == 4
    &&& (id >> 62u128) & 0x3 == 2
}

/// A fresh random identifier from `uuid::Uuid::new_v4`, as its 128 bits
/// (`Uuid::as_u128`, most significant byte first).
///
/// `new_v4` draws 128 random bits from the operating system and then sets
/// the version nibble to 4 and the variant bits to `10`; this contract
/// states those marks and nothing of the random bits, which differ from
/// call to call. `new_v4` panics when the operating system cannot supply
/// random bytes; no argument can rule that out.
#[verifier::external_body]
pub(crate) fn new_node_id() -> (id: u128)
    ensures
        is_random_uuid(id),
{
    uuid::Uuid::new_v4().as_u128()
}

/// The text of a UUID from `uuid::Uuid::from_u128` and its `Display`
/// (`to_string`), which writes the hyphenated lower-case form.
#[verifier::external_body]
pub(crate) fn uuid_text(id: u128) -> (s: String)
    ensures
        s@ == hyphenated(id),
{
    uuid::Uuid::from_u128(id).to_string()
}

/// The current time from `chrono::Utc::now`, as `timestamp` and
/// `timestamp_subsec_nanos`.
///
/// `Utc::now` reads the system clock and builds the time with
/// `DateTime::from_timestamp` from the whole seconds and the sub-second
/// nanoseconds (`Duration::subsec_nanos`, below one second) since the
/// epoch, so the nanoseconds stay below one second. The seconds are
/// `Duration::as_secs` of the time since the epoch cast to `i64`; a
/// `SystemTime` cannot lie 2^63 seconds past the epoch, and a clock before
/// 1970 panics, so the seconds are never negative. Which time comes back is
/// not stated. `Utc::now` panics when the clock reads a time before
/// 1970; no argument can rule that out.
#[verifier::external_body]
pub(crate) fn now_utc() -> (t: Timestamp)
    ensures
        t.secs >= 0,
        t.nanos < 1_000_000_000,
{
    let now = chrono::Utc::now();
    Timestamp { secs: now.timestamp(), nanos: now.timestamp_subsec_nanos() }
}

} // verus!
