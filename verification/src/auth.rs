//! Accounts: password hashing at registration, password checking and token
//! issuing at login, and the answer to a deletion request.

use vstd::prelude::*;
use vstd::utf8::encode_utf8;
use argon2::{PasswordHasher, PasswordVerifier};
use crate::text::{decimal, decimal_reads_back, decimal_value, is_digit, hyphenated_uuid, is_random_uuid, new_random_uuid, push_decimal, uuid_text};

verus! {

/// Body of a registration request.
pub struct RegisterInput {
    pub email: String,
    pub password: String,
}

/// Body of a login request.
pub struct LoginInput {
    pub email: String,
    pub password: String,
}

/// Answer to a successful login: a signed token.
pub struct AuthResponse {
    pub token: String,
}

/// A user ready to be stored: its new id, its email and the PHC string of
/// its password hash.
pub struct NewUser {
    pub id: u128,
    pub email: String,
    pub password_hash: String,
}

/// Why a registration could not be completed.
#[derive(Debug, Clone, Copy, PartialEq, Eq, Structural)]
pub enum RegisterError {
    /// The password is longer than Argon2 accepts.
    Hashing,
}

/// Why a login was refused.
#[derive(Debug, Clone, Copy, PartialEq, Eq, Structural)]
pub enum LoginError {
    /// The stored hash is not a valid PHC string, or the password does not
    /// match it.
    WrongPassword,
    /// The current instant or the expiry instant lies outside the range of
    /// dates that chrono represents.
    ClockOutOfRange,
}

/// How long an issued token stays valid, in hours.
pub const TOKEN_LIFETIME_HOURS: i64 = 24;

/// The longest password, in UTF-8 bytes, that Argon2 hashes.
pub const MAX_PASSWORD_BYTES: u64 = 0xFFFF_FFFF;

/// The earliest UNIX timestamp that chrono represents (`DateTime::<Utc>::MIN_UTC`,
/// at the start of chrono's earliest date).
pub const MIN_TIMESTAMP: i64 = -8_334_601_228_800;

/// The latest UNIX timestamp that chrono represents (`DateTime::<Utc>::MAX_UTC`
/// without its fraction of a second: December 31 of year 262142, 23:59:59 UTC).
pub const MAX_TIMESTAMP: i64 = 8_210_266_876_799;

#[verifier::external_type_specification]
#[verifier::external_body]
pub struct ExPasswordHashError(argon2::password_hash::Error);

#[verifier::external_type_specification]
#[verifier::external_body]
pub struct ExJwtError(jsonwebtoken::errors::Error);

/// The PHC string that Argon2 (default parameters) produces for `password`
/// with the B64 salt `salt`, or `None` where it refuses them.
pub uninterp spec fn argon2_hash(password: Seq<char>, salt: Seq<char>) -> Option<Seq<char>>;

/// Whether `phc` parses as a PHC string and Argon2 (default parameters)
/// accepts `password` against it.
pub uninterp spec fn argon2_accepts(password: Seq<char>, phc: Seq<char>) -> bool;

/// The HS256 JSON Web Token, with the default header, whose claims are the
/// JSON text `claims`, signed with `secret`; `None` where signing fails.
pub uninterp spec fn jwt_hs256(claims: Seq<char>, secret: Seq<u8>) -> Option<Seq<char>>;

/// A character of the standard Base64 alphabet.
pub open spec fn is_b64_char(c: char) -> bool {
    ||| ('A' as u32 <= c as u32 && c as u32 <= 'Z' as u32)
    ||| ('a' as u32 <= c as u32 && c as u32 <= 'z' as u32)
    ||| ('0' as u32 <= c as u32 && c as u32 <= '9' as u32)
    ||| c == '+'
    ||| c == '/'
}

/// The canonical unpadded Base64 text of 16 bytes: 22 characters of the
/// alphabet, the last of which carries four zero bits (A, Q, g or w).
pub open spec fn is_generated_salt(salt: Seq<char>) -> bool {
    &&& salt.len() == 22
    &&& forall|i: int| 0 <= i < 22 ==> is_b64_char(#[trigger] salt[i])
    &&& (salt[21] == 'A' || salt[21] == 'Q' || salt[21] == 'g' || salt[21] == 'w')
}

/// Whether a password fits Argon2's length limit.
pub open spec fn password_fits(password: Seq<char>) -> bool {
    encode_utf8(password).len() <= MAX_PASSWORD_BYTES
}

/// `SaltString::generate(&mut OsRng)` from the password-hash crate (through
/// argon2), as text. Trusted: it encodes 16 random bytes in unpadded B64, so
/// the text has the shape stated; which bytes were drawn is left open. It
/// panics only if the operating system's random source fails.
#[verifier::external_body]
fn generate_salt() -> (salt: String)
    ensures
        is_generated_salt(salt@),
{
    argon2::password_hash::SaltString::generate(&mut argon2::password_hash::rand_core::OsRng)
        .as_str()
        .to_string()
}

/// `Argon2::default().hash_password(password, &salt)` with the salt given as
/// B64 text (`SaltString::from_b64`), rendered as a PHC string. Trusted: the
/// result is the named `argon2_hash` of the two texts; a hash it produces is
/// accepted by `argon2_accepts` for the same password (the round trip that
/// the argon2 crate documents); it succeeds for a salt of the generated
/// shape (16 bytes, within 8 to 64) and a password of at most `MAX_PASSWORD_BYTES`
/// bytes, and refuses a longer password.
#[verifier::external_body]
fn argon2_hash_password(password: &str, salt: &str) -> (res: Result<String, argon2::password_hash::Error>)
    ensures
        match res {
            Ok(phc) => argon2_hash(password@, salt@) == Some(phc@) && argon2_accepts(password@, phc@),
            Err(_) => argon2_hash(password@, salt@) is None,
        },
        is_generated_salt(salt@) && password_fits(password@) ==> res is Ok,
        !password_fits(password@) ==> res is Err,
{
    let salt = argon2::password_hash::SaltString::from_b64(salt)?;
    let hash = argon2::Argon2::default().hash_password(password.as_bytes(), &salt)?;
    Ok(hash.to_string())
}

/// `Argon2::default().verify_password(password, &PasswordHash::new(phc)?)`.
/// Trusted: it succeeds exactly when the named `argon2_accepts` holds.
#[verifier::external_body]
fn argon2_verify_password(password: &str, phc: &str) -> (res: Result<(), argon2::password_hash::Error>)
    ensures
        res is Ok <==> argon2_accepts(password@, phc@),
{
    let parsed = argon2::password_hash::PasswordHash::new(phc)?;
    argon2::Argon2::default().verify_password(password.as_bytes(), &parsed)
}

/// The JSON claims of a login token: the user id as subject and the expiry
/// timestamp, in this field order.
pub open spec fn claims_text(user_id: u128, expires_at: usize) -> Seq<char> {
    "{\"sub\":\""@ + hyphenated_uuid(user_id) + "\",\"exp\":"@ + decimal(expires_at as nat) + "}"@
}

/// `jsonwebtoken::encode(&Header::default(), claims, &EncodingKey::from_secret(secret))`
/// with the claims handed over verbatim as JSON text (`RawValue`). Trusted:
/// the result is the named `jwt_hs256` of the claims text and the secret;
/// it succeeds for login claims, which are valid JSON (`RawValue::from_string`
/// accepts them) and HS256 signing with a secret key cannot fail.
#[verifier::external_body]
fn jwt_encode_hs256(claims: &str, secret: &[u8]) -> (res: Result<String, jsonwebtoken::errors::Error>)
    ensures
        match res {
            Ok(token) => jwt_hs256(claims@, secret@) == Some(token@),
            Err(_) => jwt_hs256(claims@, secret@) is None,
        },
        (exists|user_id: u128, expires_at: usize| claims@ == claims_text(user_id, expires_at)) ==> res is Ok,
{
    let raw = serde_json::value::RawValue::from_string(claims.to_string())?;
    jsonwebtoken::encode(
        &jsonwebtoken::Header::default(),
        &raw,
        &jsonwebtoken::EncodingKey::from_secret(secret),
    )
}

/// Whether chrono represents the instant with UNIX timestamp `t`.
pub open spec fn timestamp_in_range(t: int) -> bool {
    MIN_TIMESTAMP <= t <= MAX_TIMESTAMP
}

/// The UNIX timestamp `hours` hours after the timestamp `secs`, through
/// chrono: `DateTime::from_timestamp(secs, 0)`, `checked_add_signed` with
/// `TimeDelta::try_hours(hours)`, then `timestamp()`. Trusted: chrono gives a
/// date exactly when both instants lie in its range of dates (a span between
/// two such instants always fits a `TimeDelta`), and adds the span exactly.
#[verifier::external_body]
fn timestamp_after_hours(secs: i64, hours: i64) -> (res: Option<i64>)
    ensures
        res == (if timestamp_in_range(secs as int) && timestamp_in_range(secs + 3600 * hours) {
            Some((secs + 3600 * hours) as i64)
        } else {
            None::<i64>
        }),
{
    let start = chrono::DateTime::from_timestamp(secs, 0)?;
    let span = chrono::TimeDelta::try_hours(hours)?;
    start.checked_add_signed(span).map(|t| t.timestamp())
}

/// Renders the claims of a login token for `user_id` expiring at `expires_at`.
pub fn token_claims(user_id: u128, expires_at: usize) -> (claims: String)
    ensures
        claims@ == claims_text(user_id, expires_at),
{
    let mut out = String::from_str("{\"sub\":\"");
    let id = uuid_text(user_id);
    out.append(id.as_str());
    out.append("\",\"exp\":");
    push_decimal(&mut out, expires_at as u64);
    out.append("}");
    out
}

/// What a successful registration produced for `input`: a random id, the
/// same email, and an Argon2 hash of the password under a freshly generated
/// salt, which the same password passes.
pub open spec fn registered(input: RegisterInput, user: NewUser) -> bool {
    &&& user.email@ == input.email@
    &&& is_random_uuid(user.id)
    &&& exists|salt: Seq<char>| is_generated_salt(salt) && argon2_hash(input.password@, salt) == Some(user.password_hash@)
    &&& argon2_accepts(input.password@, user.password_hash@)
}

/// Prepares a new user: draws a random id and a random salt and hashes the
/// password with Argon2. It succeeds exactly when the password fits Argon2's
/// length limit.
pub fn register(input: RegisterInput) -> (res: Result<NewUser, RegisterError>)
    ensures
        res is Ok <==> password_fits(input.password@),
        res matches Ok(user) ==> registered(input, user),
{
    let salt = generate_salt();
    let id = new_random_uuid();
    match argon2_hash_password(input.password.as_str(), salt.as_str()) {
        Ok(password_hash) => Ok(NewUser { id, email: input.email, password_hash }),
        Err(_) => Err(RegisterError::Hashing),
    }
}

/// Whether a token issued at `now` can be dated: both `now` and its expiry
/// lie in chrono's range.
pub open spec fn clock_in_range(now: i64) -> bool {
    timestamp_in_range(now as int) && timestamp_in_range(now + 3600 * TOKEN_LIFETIME_HOURS)
}

/// The expiry timestamp, as stored in the claims, of a token issued at `now`.
pub open spec fn expiry_of(now: i64) -> usize {
    (now + 3600 * TOKEN_LIFETIME_HOURS) as usize
}

/// Whether a login with `password` against the stored hash `stored_hash`
/// at `now` succeeds.
pub open spec fn login_succeeds(password: Seq<char>, stored_hash: Seq<char>, now: i64) -> bool {
    argon2_accepts(password, stored_hash) && clock_in_range(now)
}

/// Checks `input.password` against the stored hash of user `user_id` and,
/// if it passes, issues a token for that user that expires 24 hours after
/// `now` (a UNIX timestamp), signed with `secret`.
pub fn login(user_id: u128, stored_hash: &str, input: &LoginInput, now: i64, secret: &[u8]) -> (res: Result<AuthResponse, LoginError>)
    ensures
        res is Ok <==> login_succeeds(input.password@, stored_hash@, now),
        match res {
            Ok(answer) => {
                &&& jwt_hs256(claims_text(user_id, expiry_of(now)), secret@) == Some(answer.token@)
                &&& jwt_hs256(claims_text(user_id, (now + 86_400) as usize), secret@) == Some(answer.token@)
            },
            Err(LoginError::WrongPassword) => !argon2_accepts(input.password@, stored_hash@),
            Err(LoginError::ClockOutOfRange) => argon2_accepts(input.password@, stored_hash@) && !clock_in_range(now),
        },
{
    match argon2_verify_password(input.password.as_str(), stored_hash) {
        Err(_) => return Err(LoginError::WrongPassword),
        Ok(()) => {},
    }
    let expires = match timestamp_after_hours(now, TOKEN_LIFETIME_HOURS) {
        Some(t) => t,
        None => return Err(LoginError::ClockOutOfRange),
    };
    let claims = token_claims(user_id, expires as usize);
    assert(claims@ == claims_text(user_id, expires as usize));
    match jwt_encode_hs256(claims.as_str(), secret) {
        Ok(token) => Ok(AuthResponse { token }),
        Err(_) => vstd::pervasive::unreached(),
    }
}

/// The HTTP status of a user deletion, given how many rows the deletion
/// removed (`None` when the database reported an error): 204 when a row
/// went, 404 when none matched, 500 on a database error.
pub fn delete_user(rows_affected: Option<u64>) -> (status: Result<u16, u16>)
    ensures
        status == (match rows_affected {
            Some(n) => if n > 0 { Ok::<u16, u16>(204) } else { Err(404) },
            None => Err(500),
        }),
{
    match rows_affected {
        Some(n) => if n > 0 { Ok(204) } else { Err(404) },
        None => Err(500),
    }
}

/// The claims of a login token name the user by the hyphenated text of its
/// id and carry, as a JSON number, digits that read back as the expiry.
pub proof fn claims_carry_user_and_expiry(user_id: u128, expires_at: usize)
    ensures
        exists|digits: Seq<char>|
            {
                &&& digits.len() >= 1
                &&& (forall|i: int| 0 <= i < digits.len() ==> is_digit(#[trigger] digits[i]))
                &&& decimal_value(digits) == expires_at
                &&& claims_text(user_id, expires_at) == "{\"sub\":\""@ + hyphenated_uuid(user_id) + "\",\"exp\":"@
                    + digits + "}"@
            },
{
    decimal_reads_back(expires_at as nat);
    let digits = decimal(expires_at as nat);
    assert(forall|i: int| 0 <= i < digits.len() ==> is_digit(#[trigger] digits[i]));
}

/// A user who logs in with the password it registered with, on a clock that
/// chrono can date, is issued a token: the hash stored at registration
/// accepts the password.
pub proof fn registered_user_can_log_in(input: RegisterInput, user: NewUser, now: i64)
    requires
        registered(input, user),
        clock_in_range(now),
    ensures
        login_succeeds(input.password@, user.password_hash@, now),
{
}

} // verus!
