//! What a handler draws from outside the program: a new identifier and the
//! time of day. Verus takes the two contracts here on trust.

use vstd::prelude::*;
use crate::model::Timestamp;

verus! {

/// `c` is a digit or one of the letters `a` to `f`.
pub open spec fn is_lower_hex(c: char) -> bool {
    ('0' <= c && c <= '9') || ('a' <= c && c <= 'f')
}

/// `id` has the shape of a random UUID written out: 36 characters, hyphens
/// after the 8th, 12th, 16th and 20th digit, lower-case hexadecimal digits
/// elsewhere, the version digit `4` and a variant digit from `8` to `b`.
pub open spec fn is_task_id(id: Seq<char>) -> bool {
    &&& id.len() == 36
    &&& forall|i: int|
        0 <= i < 36 ==> if i == 8 || i == 13 || i == 18 || i == 23 {
            #[trigger] id[i] == '-'
        } else {
            is_lower_hex(id[i])
        }
    &&& id[14] == '4'
    &&& (id[19] == '8' || id[19] == '9' || id[19] == 'a' || id[19] == 'b')
}

/// A new identifier: `uuid::Uuid::new_v4`, written out by the `Display` of
/// `Uuid`.
///
/// Trusted: the value is random, so the contract states only its shape, which
/// is the hyphenated lower-case form with the version and variant bits that
/// `new_v4` sets. Nothing is claimed about two calls giving different values.
/// `new_v4` panics where the operating system hands out no random bytes.
#[verifier::external_body]
pub(crate) fn new_task_id() -> (id: String)
    ensures
        is_task_id(id@),
{
    uuid::Uuid::new_v4().to_string()
}

/// The time of day: `chrono::Utc::now`, taken apart by `DateTime::timestamp`
/// and `DateTime::timestamp_subsec_nanos`.
///
/// Trusted: the value is whatever the system clock shows, so the contract
/// states only that it is not before 1970 and that its nanoseconds stay
/// below a second. Nothing is claimed about one reading being later than
/// the one before. `Utc::now` panics where the system clock is set before
/// 1970.
#[verifier::external_body]
pub(crate) fn now_utc() -> (now: Timestamp)
    ensures
        now.is_clock_reading(),
{
    let now = chrono::Utc::now();
    Timestamp { secs: now.timestamp(), nanos: now.timestamp_subsec_nanos() }
}

} // verus!
