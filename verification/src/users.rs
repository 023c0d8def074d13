//! The rules on user accounts: what a registration and a change must hold,
//! and what a sign-in is given.

use vstd::prelude::*;
use crate::claims::{Claims, ClaimsView, SECONDS_PER_HOUR};
use crate::clock::{unix_now, CLOCK_LIMIT};
use crate::config::TOKEN_LIFETIME_HOURS;
use crate::dto::CreateUserDto;
use crate::error::{judged, AppError, AppResult, FailureKind};
use crate::text::{
    byte_len, byte_length, concat3, is_blank, is_blank_str, str_equal, string_view,
};
use crate::token::{create_token, issued};

verus! {

/// The least length of a password, in bytes.
pub const MIN_PASSWORD_BYTES: usize = 6;

/// The role of a user who registers without one.
pub open spec fn default_role() -> Seq<char> {
    "user"@
}

/// What is said of a registration without a name.
pub open spec fn empty_username() -> Seq<char> {
    "El nombre de usuario no puede estar vacío"@
}

/// What is said of a registration without an email address.
pub open spec fn empty_email() -> Seq<char> {
    "El email no puede estar vacío"@
}

/// What is said of a password that is too short.
pub open spec fn short_password() -> Seq<char> {
    "La contraseña debe tener al menos 6 caracteres"@
}

/// What is said of a sign-in whose password does not match.
pub open spec fn bad_credentials() -> Seq<char> {
    "Credenciales inválidas"@
}

/// What is said of an email address that another user has.
pub open spec fn email_taken(email: Seq<char>) -> Seq<char> {
    "Ya existe un usuario con el email '"@ + email + "'"@
}

/// What is said of a name that another user has.
pub open spec fn username_taken(username: Seq<char>) -> Seq<char> {
    "Ya existe un usuario con el nombre '"@ + username + "'"@
}

/// The first rule that a registration breaks, if it breaks one: the name
/// and the address must hold more than white space, the password too, and
/// the password must be long enough.
pub open spec fn registration_fault(
    username: Seq<char>,
    email: Seq<char>,
    password: Seq<char>,
) -> Option<Seq<char>> {
    if is_blank(username) {
        Some(empty_username())
    } else if is_blank(email) {
        Some(empty_email())
    } else if is_blank(password) || byte_length(password) < MIN_PASSWORD_BYTES {
        Some(short_password())
    } else {
        None
    }
}

/// Holds a registration to its rules.
pub fn check_registration(dto: &CreateUserDto) -> (r: AppResult<()>)
    ensures
        judged(r, registration_fault(dto.username@, dto.email@, dto.password@)),
{
    if is_blank_str(dto.username.as_str()) {
        Err(AppError::ValidationError("El nombre de usuario no puede estar vacío".to_owned()))
    } else if is_blank_str(dto.email.as_str()) {
        Err(AppError::ValidationError("El email no puede estar vacío".to_owned()))
    } else if is_blank_str(dto.password.as_str()) || byte_len(dto.password.as_str())
        < MIN_PASSWORD_BYTES {
        Err(
            AppError::ValidationError("La contraseña debe tener al menos 6 caracteres".to_owned()),
        )
    } else {
        Ok(())
    }
}

/// Holds the new password of a change to its rule: long enough.
pub fn check_new_password(password: &str) -> (r: AppResult<()>)
    ensures
        judged(
            r,
            if byte_length(password@) < MIN_PASSWORD_BYTES {
                Some(short_password())
            } else {
                None
            },
        ),
{
    if byte_len(password) < MIN_PASSWORD_BYTES {
        Err(
            AppError::ValidationError("La contraseña debe tener al menos 6 caracteres".to_owned()),
        )
    } else {
        Ok(())
    }
}

/// Refuses an email address that another user has.
pub fn check_email_free(email: &str, taken: bool) -> (r: AppResult<()>)
    ensures
        judged(
            r,
            if taken {
                Some(email_taken(email@))
            } else {
                None
            },
        ),
{
    if taken {
        Err(AppError::ValidationError(concat3("Ya existe un usuario con el email '", email, "'")))
    } else {
        Ok(())
    }
}

/// Refuses a name that another user has.
pub fn check_username_free(username: &str, taken: bool) -> (r: AppResult<()>)
    ensures
        judged(
            r,
            if taken {
                Some(username_taken(username@))
            } else {
                None
            },
        ),
{
    if taken {
        Err(
            AppError::ValidationError(
                concat3("Ya existe un usuario con el nombre '", username, "'"),
            ),
        )
    } else {
        Ok(())
    }
}

/// Tells whether a change gives a value other than the current one. Only
/// then is the new value looked up among the other records.
pub fn is_changed(new: &Option<String>, current: &str) -> (changed: bool)
    ensures
        changed == (string_view(*new) matches Some(value) && value != current@),
{
    match new {
        Some(value) => !str_equal(value.as_str(), current),
        None => false,
    }
}

/// The role of a new user: the one asked for, or the default.
pub fn role_or_default(role: Option<String>) -> (r: String)
    ensures
        r@ == (match role {
            Some(given) => given@,
            None => default_role(),
        }),
{
    match role {
        Some(given) => given,
        None => "user".to_owned(),
    }
}

/// Judges a sign-in by whether the password matched.
pub fn check_credentials(matched: bool) -> (r: AppResult<()>)
    ensures
        matched ==> r is Ok,
        !matched ==> (r matches Err(e) && e.is(FailureKind::Authentication, bad_credentials())),
{
    if matched {
        Ok(())
    } else {
        Err(AppError::AuthenticationError("Credenciales inválidas".to_owned()))
    }
}

/// The claim set of a session that opens at `now`.
pub open spec fn session_claims(
    user_id: int,
    username: Seq<char>,
    role: Seq<char>,
    now: int,
) -> ClaimsView {
    ClaimsView::minted(user_id, username, role, TOKEN_LIFETIME_HOURS as int, now)
}

/// The token of a session that opens at `now` and lasts the standard
/// lifetime. A token comes back for every user and every secret.
pub fn session_token_at(user_id: i32, username: String, role: String, secret: &str, now: i64) -> (r:
    AppResult<String>)
    requires
        now + TOKEN_LIFETIME_HOURS * SECONDS_PER_HOUR <= i64::MAX,
    ensures
        r matches Ok(token) && issued(
            token@,
            session_claims(user_id as int, username@, role@, now as int),
            secret@,
        ),
{
    let claims = Claims::new_at(user_id, username, role, TOKEN_LIFETIME_HOURS, now);
    match create_token(&claims, secret) {
        Ok(token) => Ok(token),
        Err(_) => Err(AppError::InternalServerError("Error al generar token".to_owned())),
    }
}

/// The token of a session that opens at the instant the clock shows.
pub fn session_token(user_id: i32, username: String, role: String, secret: &str) -> (r: AppResult<
    String,
>)
    ensures
        r matches Ok(token) && exists|now: int|
            0 <= now < CLOCK_LIMIT && issued(
                token@,
                #[trigger] session_claims(user_id as int, username@, role@, now),
                secret@,
            ),
{
    let now: i64 = unix_now();
    session_token_at(user_id, username, role, secret, now)
}

} // verus!
