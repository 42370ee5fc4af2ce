//! What every new record carries: a fresh identifier and the time of its
//! creation.

use vstd::prelude::*;
use vstd::string::*;

verus! {

/// A lower-case hexadecimal digit.
pub open spec fn is_lower_hex(c: char) -> bool {
    ('0' <= c && c <= '9') || ('a' <= c && c <= 'f')
}

/// The shape of a random identifier: 36 characters, hyphens after the 8th,
/// 12th, 16th and 20th digit, lower-case hexadecimal digits elsewhere, of which
/// the 13th is `4` and the 17th one of `8`, `9`, `a`, `b`.
pub open spec fn is_record_id(s: Seq<char>) -> bool {
    &&& s.len() == 36
    &&& forall|i: int|
        0 <= i < 36 ==> if i == 8 || i == 13 || i == 18 || i == 23 {
            #[trigger] s[i] == '-'
        } else {
            is_lower_hex(s[i])
        }
    &&& s[14] == '4'
    &&& (s[19] == '8' || s[19] == '9' || s[19] == 'a' || s[19] == 'b')
}

/// `uuid::Uuid::new_v4` and the `Display` of the result. The identifier is
/// random; the contract claims only its shape: the hyphenated lower-case form,
/// with the version digit 4 and the variant bits of RFC 9562. The call panics
/// where the operating system gives no random bytes.
#[verifier::external_body]
fn random_id() -> (r: String)
    ensures
        is_record_id(r@),
{
    uuid::Uuid::new_v4().to_string()
}

/// `chrono::Utc::now` and `DateTime::to_rfc3339` of the result: the current
/// time in UTC as an RFC 3339 timestamp. Nothing is claimed of the text. The
/// call panics where the system clock stands before 1970.
#[verifier::external_body]
fn current_timestamp() -> (r: String) {
    chrono::Utc::now().to_rfc3339()
}

/// The identifier of a new record and the time at which it is made.
#[derive(Debug)]
pub struct RecordStamp {
    pub id: String,
    pub now: String,
}

impl RecordStamp {
    /// A stamp with a fresh random identifier and the current time.
    pub fn fresh() -> (r: RecordStamp)
        ensures
            is_record_id(r.id@),
    {
        RecordStamp { id: random_id(), now: current_timestamp() }
    }
}

} // verus!
