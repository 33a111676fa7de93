//! The calls into outside crates that the decisions make, each behind a
//! trusted item whose contract states what the outside source shows.

use rand::RngExt;
use vstd::prelude::*;

verus! {

/// `bcrypt::DEFAULT_COST`, the work factor the crate recommends: 12.
#[verifier::external_body]
pub fn default_cost() -> (cost: u32)
    ensures
        cost == 12,
{
    bcrypt::DEFAULT_COST
}

/// What `bcrypt::verify(password, hash)` returns, the error taken as its
/// `Display` text. It recomputes the hash of the password's bytes with the
/// cost and salt read from `hash` and compares; an error comes only from
/// a malformed hash or a cost out of range. So it depends on its two
/// arguments alone.
pub uninterp spec fn bcrypt_verify_outcome(password: Seq<char>, hash: Seq<char>) -> Result<
    bool,
    Seq<char>,
>;

/// A verdict of `bcrypt::verify`.
pub open spec fn verdict(b: bool) -> Result<bool, Seq<char>> {
    Ok(b)
}

/// A failure of `bcrypt::verify`, with its text.
pub open spec fn failure(t: Seq<char>) -> Result<bool, Seq<char>> {
    Err(t)
}

/// A character of the alphabet bcrypt writes salts and hashes in.
pub open spec fn is_bcrypt_base64(c: char) -> bool {
    c == '.' || c == '/' || ('A' <= c && c <= 'Z') || ('a' <= c && c <= 'z') || ('0' <= c && c
        <= '9')
}

/// The form of a version-2b bcrypt string of the given cost:
/// `$2b$`, the cost in two digits, `$`, then 53 characters of bcrypt's
/// base64 alphabet (the salt, then the hash): 60 characters in all.
pub open spec fn is_bcrypt_hash(h: Seq<char>, cost: int) -> bool {
    &&& h.len() == 60
    &&& h[0] == '$'
    &&& h[1] == '2'
    &&& h[2] == 'b'
    &&& h[3] == '$'
    &&& h[4] == crate::code::digit_char(cost / 10)
    &&& h[5] == crate::code::digit_char(cost % 10)
    &&& h[6] == '$'
    &&& forall|i: int| 7 <= i < 60 ==> is_bcrypt_base64(#[trigger] h[i])
}

/// The text of a `bcrypt` error raised because no random salt could be
/// drawn: `Rand error: ` followed by the `getrandom` error's text.
pub open spec fn is_rand_error_text(t: Seq<char>) -> bool {
    "Rand error: "@.is_prefix_of(t)
}

/// The text of a `bcrypt` error raised for a cost outside 4 to 31.
pub open spec fn cost_error_text(cost: int) -> Seq<char> {
    "Cost needs to be between 4 and 31, got "@ + crate::code::decimal(cost as nat)
}

/// Calls `bcrypt::hash(password, cost)`, an error converted to its
/// `Display` text. The salt is drawn from the operating system, so the
/// hash itself is left open. The claims are what the crate's source
/// shows: it succeeds only for a cost from 4 to 31; what it returns is the
/// 60-character `$2b$` string of that cost, and one that `bcrypt::verify`
/// accepts for the same password (both truncate the password at 72 bytes
/// in the same way and read back the cost and salt that were written).
/// The salt is drawn before the cost is checked, so an error is either the
/// failure to draw it (`Rand error: ...`, whose remainder, the operating
/// system's error, is left open) or, for a cost out of range, the cost
/// error.
#[verifier::external_body]
pub fn hash_password(password: &str, cost: u32) -> (r: Result<String, String>)
    ensures
        r matches Ok(h) ==> (4 <= cost && cost <= 31 && is_bcrypt_hash(h@, cost as int)),
        r matches Ok(h) ==> bcrypt_verify_outcome(password@, h@) == verdict(true),
        r matches Err(t) ==> (is_rand_error_text(t@) || (!(4 <= cost && cost <= 31) && t@
            == cost_error_text(cost as int))),
{
    bcrypt::hash(password, cost).map_err(|e| e.to_string())
}

/// Calls `bcrypt::verify(password, hash)`, the error converted to its
/// `Display` text; the outcome is named `bcrypt_verify_outcome`. It does
/// not panic: a malformed hash is an error.
#[verifier::external_body]
pub fn verify_password(password: &str, hash: &str) -> (r: Result<bool, String>)
    ensures
        match r {
            Ok(b) => bcrypt_verify_outcome(password@, hash@) == verdict(b),
            Err(t) => bcrypt_verify_outcome(password@, hash@) == failure(t@),
        },
{
    bcrypt::verify(password, hash).map_err(|e| e.to_string())
}

/// Calls `rand::rng().random_range(lo..hi)` on `i32`: a number drawn at
/// random from the half-open range. `random_range` panics on an empty
/// range, which `lo < hi` excludes. (`rand::rng` panics only when the
/// operating system cannot seed the generator; no argument can exclude
/// that.)
#[verifier::external_body]
pub fn random_in(lo: i32, hi: i32) -> (c: i32)
    requires
        lo < hi,
    ensures
        lo <= c < hi,
{
    rand::rng().random_range(lo..hi)
}

/// Reads the clock: `chrono::Utc::now().timestamp_micros()`, microseconds
/// since the Unix epoch. Which time it reads is left open; the only claim
/// is that it is not before the epoch (`Utc::now` panics on a system time
/// before it, so a reading that returns is at or after it).
#[verifier::external_body]
pub fn now_micros() -> (t: i64)
    ensures
        0 <= t,
{
    chrono::Utc::now().timestamp_micros()
}

/// A lower-case hexadecimal digit.
pub open spec fn is_lower_hex(c: char) -> bool {
    ('0' <= c && c <= '9') || ('a' <= c && c <= 'f')
}

/// The text of a version-4 UUID as `Uuid`'s `Display` writes it: 36
/// characters, hyphens at 8, 13, 18 and 23, lower-case hexadecimal
/// elsewhere, the version digit `4` at 14 and the variant digit (one of
/// `8`, `9`, `a`, `b`) at 19.
pub open spec fn is_uuid_v4_text(t: Seq<char>) -> bool {
    &&& t.len() == 36
    &&& forall|i: int|
        0 <= i < 36 ==> if i == 8 || i == 13 || i == 18 || i == 23 {
            #[trigger] t[i] == '-'
        } else {
            is_lower_hex(t[i])
        }
    &&& t[14] == '4'
    &&& (t[19] == '8' || t[19] == '9' || t[19] == 'a' || t[19] == 'b')
}

/// A fresh session token: `uuid::Uuid::new_v4().to_string()`. The bits
/// are random; the source fixes the version and variant bits and writes
/// the hyphenated lower-case form.
#[verifier::external_body]
pub fn fresh_token() -> (t: String)
    ensures
        is_uuid_v4_text(t@),
{
    uuid::Uuid::new_v4().to_string()
}

/// Calls `chrono::TimeDelta::microseconds(micros).num_minutes()`. In the
/// crate's source the delta is split by floored division into seconds and
/// a non-negative sub-second part, `num_seconds` rounds toward zero and
/// `num_minutes` divides that by 60 with Rust's truncating division: the
/// whole number of minutes, rounded toward zero. The constructor accepts
/// every `i64`.
#[verifier::external_body]
pub fn whole_minutes(micros: i64) -> (m: i64)
    ensures
        m == crate::expiry::trunc_div(micros as int, 60_000_000),
{
    chrono::TimeDelta::microseconds(micros).num_minutes()
}

} // verus!
