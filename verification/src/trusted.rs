use vstd::prelude::*;

verus! {

/// What bcrypt's `verify` answers for a password against a stored hash. The
/// answer depends on the two arguments alone.
pub uninterp spec fn password_verifies(pass: Seq<char>, hash: Seq<char>) -> bool;

/// Relies on bcrypt::hash at bcrypt::DEFAULT_COST: the hash is 60 characters
/// in bcrypt's `$2b$` format, and bcrypt::verify accepts the same password
/// against it. `None` when the salt cannot be drawn from the OS.
#[verifier::external_body]
pub fn hash_password(pass: &str) -> (r: Option<String>)
    ensures
        r is Some ==> password_verifies(pass@, r->0@) && r->0@.len() == 60,
{
    match bcrypt::hash(pass, bcrypt::DEFAULT_COST) {
        Ok(h) => Some(h),
        Err(_) => None,
    }
}

/// Relies on bcrypt::verify; a hash that bcrypt cannot parse verifies as
/// false.
#[verifier::external_body]
pub fn verify_password(pass: &str, hash: &str) -> (r: bool)
    ensures
        r == password_verifies(pass@, hash@),
{
    bcrypt::verify(pass, hash).unwrap_or(false)
}

/// Relies on uuid::Uuid::new_v4 and its hyphenated `Display` form: a random
/// token of 36 characters. Nothing can be promised of its value.
#[verifier::external_body]
pub fn new_uuid() -> (r: String)
    ensures
        r@.len() == 36,
{
    uuid::Uuid::new_v4().to_string()
}

/// What base64::encode returns for these bytes; standard alphabet, padded.
pub uninterp spec fn base64_of(b: Seq<u8>) -> Seq<char>;

/// Relies on base64::encode: deterministic in the bytes, four output
/// characters for every started group of three input bytes.
#[verifier::external_body]
pub fn base64_encode(b: &Vec<u8>) -> (r: String)
    ensures
        r@ == base64_of(b@),
        r@.len() == 4 * ((b@.len() + 2) / 3),
{
    base64::encode(b.as_slice())
}

/// The difficulty of a generated captcha challenge.
#[derive(Clone, Copy, PartialEq, Eq, Structural, Debug)]
pub enum CaptchaDifficulty {
    Easy,
    Medium,
    Hard,
}

/// Relies on captcha::generate: a random challenge of 4 to 6 characters,
/// rendered as a PNG. `None` when rendering fails. Nothing can be promised of
/// the answer's characters or of the image bytes.
#[verifier::external_body]
pub fn generate_captcha(d: CaptchaDifficulty) -> (r: Option<(String, Vec<u8>)>)
    ensures
        r is Some ==> ({
            let pair = r->0;
            4 <= pair.0@.len() <= 6
        }),
{
    let c = captcha::generate(match d {
        CaptchaDifficulty::Easy => captcha::Difficulty::Easy,
        CaptchaDifficulty::Medium => captcha::Difficulty::Medium,
        CaptchaDifficulty::Hard => captcha::Difficulty::Hard,
    });
    let answer = c.chars_as_string();
    c.as_png().map(|png| (answer, png))
}

/// Relies on chrono::Utc::now: the current wall-clock time as Unix seconds.
/// Nothing can be promised of its value.
#[verifier::external_body]
pub fn now_unix_seconds() -> (r: i64) {
    chrono::Utc::now().timestamp()
}

} // verus!
