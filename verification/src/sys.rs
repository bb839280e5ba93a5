//! The clock and the identifier generator that the library reads. Their
//! results depend on the time and on chance, so nothing is promised of them
//! beyond what the generator's source fixes.

use vstd::prelude::*;

verus! {

/// Current wall-clock time in microseconds since the Unix epoch, through
/// `std::time::SystemTime::now`; zero if the clock reads before the epoch.
/// Nothing is stated of the value: it depends on the clock.
#[verifier::external_body]
pub(crate) fn now_micros() -> (t: i64) {
    std::time::SystemTime::now()
        .duration_since(std::time::UNIX_EPOCH)
        .unwrap_or_default()
        .as_micros() as i64
}

/// A fresh random identifier from `uuid::Uuid::new_v4`, as its 128-bit
/// big-endian value. The generator masks its random bits so that the
/// version nibble reads 4 and the two variant bits read `10`; that is all
/// the contract claims, since the rest is random.
#[verifier::external_body]
pub(crate) fn new_uuid_v4() -> (id: u128)
    ensures
        (id >> 76u128) & 0xfu128 == 4,
        (id >> 62u128) & 0x3u128 == 2,
{
    uuid::Uuid::new_v4().as_u128()
}

/// Whether `c` is a lowercase hexadecimal digit.
pub open spec fn is_lower_hex(c: char) -> bool {
    (48 <= (c as u32) <= 57) || (97 <= (c as u32) <= 102)
}

/// Whether `s` is the hyphenated lowercase text of a version-4 UUID: 36
/// characters, hyphens at 8, 13, 18 and 23, lowercase hex digits elsewhere,
/// the version digit `4` at 14 and a variant digit `8`, `9`, `a` or `b` at 19.
pub open spec fn is_hyphenated_v4(s: Seq<char>) -> bool {
    &&& s.len() == 36
    &&& forall|i: int|
        0 <= i < 36 ==> if i == 8 || i == 13 || i == 18 || i == 23 {
            #[trigger] s[i] == '-'
        } else {
            is_lower_hex(s[i])
        }
    &&& s[14] == '4'
    &&& (s[19] == '8' || s[19] == '9' || s[19] == 'a' || s[19] == 'b')
}

/// A fresh random identifier from `uuid::Uuid::new_v4`, in the text form
/// that its `Display` writes: the hyphenated lowercase form, whose version
/// and variant digits `new_v4` fixes. Which hex digits appear elsewhere is
/// random and not stated.
#[verifier::external_body]
pub(crate) fn new_uuid_v4_string() -> (s: String)
    ensures
        is_hyphenated_v4(s@),
{
    uuid::Uuid::new_v4().to_string()
}

} // verus!
