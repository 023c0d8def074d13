//! The rules on comments: who a comment is by, and what it must hold.

use vstd::prelude::*;
use crate::claims::Claims;
use crate::decimal::{decimal, decimal_string};
use crate::dto::CreateCommentDto;
use crate::error::{judged, AppError, AppResult, FailureKind};
use crate::middleware::identity_view;
use crate::text::{concat3, is_blank, is_blank_str, string_view};

verus! {

/// What is said of a comment without text.
pub open spec fn empty_content() -> Seq<char> {
    "El contenido no puede estar vacío"@
}

/// What is said of a comment that names neither a user nor an author.
pub open spec fn author_needed() -> Seq<char> {
    "Se requiere un nombre de autor para comentarios anónimos"@
}

/// The name under which a comment without an author is kept.
pub open spec fn anonymous() -> Seq<char> {
    "Anónimo"@
}

/// What is said of a comment on a post that does not exist.
pub open spec fn no_such_post(post_id: int) -> Seq<char> {
    "El post con ID "@ + decimal(post_id) + " no existe"@
}

/// What is said of a comment by a user that does not exist.
pub open spec fn no_such_user(user_id: int) -> Seq<char> {
    "El usuario con ID "@ + decimal(user_id) + " no existe"@
}

/// The account of the user that a comment names as its author.
#[derive(Debug)]
pub struct Account {
    pub username: String,
    pub email: String,
}

/// The author of a comment as it is stored: a name and an address, each
/// where there is one.
#[derive(Debug)]
pub struct Author {
    pub name: Option<String>,
    pub email: Option<String>,
}

/// The user that a request to comment is attributed to: the verified
/// subject where the request carries an identity whose subject is a
/// positive user id, otherwise the user that the request itself names.
pub open spec fn attributed_user(subject_id: Option<int>, given: Option<i32>) -> Option<i32> {
    match subject_id {
        Some(id) => if id > 0 {
            Some(id as i32)
        } else {
            given
        },
        None => given,
    }
}

/// The subject id of an optional identity.
pub open spec fn subject_of(identity: Option<Claims>) -> Option<int> {
    match identity {
        Some(claims) => Some(claims@.subject_id()),
        None => None,
    }
}

/// Completes a request to comment from the identity of its sender: the
/// comment is attributed, and a comment that then has neither a user nor a
/// name gets the anonymous name. Nothing else changes.
pub fn attribute(dto: CreateCommentDto, identity: &Option<Claims>) -> (out: CreateCommentDto)
    ensures
        out.user_id == attributed_user(subject_of(*identity), dto.user_id),
        string_view(out.author_name) == (if out.user_id is None && dto.author_name is None {
            Some(anonymous())
        } else {
            string_view(dto.author_name)
        }),
        out.post_id == dto.post_id,
        out.author_email == dto.author_email,
        out.content == dto.content,
{
    let CreateCommentDto { post_id, user_id, author_name, author_email, content } = dto;
    let user_id: Option<i32> = match identity {
        Some(claims) => {
            let id: i32 = claims.subject_id();
            if id > 0 {
                Some(id)
            } else {
                user_id
            }
        },
        None => user_id,
    };
    let author_name: Option<String> = if user_id.is_none() && author_name.is_none() {
        Some("Anónimo".to_owned())
    } else {
        author_name
    };
    CreateCommentDto { post_id, user_id, author_name, author_email, content }
}

/// Holds the text of a new comment to its rule: more than white space.
pub fn check_content(content: &str) -> (r: AppResult<()>)
    ensures
        judged(
            r,
            if is_blank(content@) {
                Some(empty_content())
            } else {
                None
            },
        ),
{
    if is_blank_str(content) {
        Err(AppError::ValidationError("El contenido no puede estar vacío".to_owned()))
    } else {
        Ok(())
    }
}

/// Holds the new text of a changed comment to its rule: where the change
/// gives a text, the text is not empty.
pub fn check_changed_content(content: &Option<String>) -> (r: AppResult<()>)
    ensures
        judged(
            r,
            if string_view(*content) matches Some(text) && text.len() == 0 {
                Some(empty_content())
            } else {
                None
            },
        ),
{
    match content {
        Some(text) => {
            if text.as_str().is_empty() {
                Err(AppError::ValidationError("El contenido no puede estar vacío".to_owned()))
            } else {
                Ok(())
            }
        },
        None => Ok(()),
    }
}

/// Refuses a comment on a post that does not exist.
pub fn check_post_exists(post_id: i32, exists: bool) -> (r: AppResult<()>)
    ensures
        judged(
            r,
            if exists {
                None
            } else {
                Some(no_such_post(post_id as int))
            },
        ),
{
    if exists {
        Ok(())
    } else {
        let number: String = decimal_string(post_id);
        Err(AppError::ValidationError(concat3("El post con ID ", number.as_str(), " no existe")))
    }
}

/// The author of a comment, as a mathematical value: name and address.
pub open spec fn author_view(a: Author) -> (Option<Seq<char>>, Option<Seq<char>>) {
    (string_view(a.name), string_view(a.email))
}

/// Who a comment is by. A comment of a user is by that user's account: it
/// takes the account's name, and the account's address unless it brings one
/// of its own; without the account it is refused. A comment of no user
/// needs a name that is more than white space.
pub open spec fn authorship(
    user_id: Option<i32>,
    name: Option<Seq<char>>,
    email: Option<Seq<char>>,
    account: Option<(Seq<char>, Seq<char>)>,
) -> Result<(Option<Seq<char>>, Option<Seq<char>>), Seq<char>> {
    match user_id {
        Some(id) => match account {
            Some((username, address)) => Ok(
                (
                    Some(username),
                    if email is None {
                        Some(address)
                    } else {
                        email
                    },
                ),
            ),
            None => Err(no_such_user(id as int)),
        },
        None => if name is None || is_blank(name->0) {
            Err(author_needed())
        } else {
            Ok((name, email))
        },
    }
}

/// The view of an optional account.
pub open spec fn account_view(account: Option<Account>) -> Option<(Seq<char>, Seq<char>)> {
    match account {
        Some(a) => Some((a.username@, a.email@)),
        None => None,
    }
}

/// Settles who a comment is by. `account` is the account of the user that
/// the comment names, where the comment names one and the account exists.
pub fn resolve_author(
    user_id: Option<i32>,
    name: Option<String>,
    email: Option<String>,
    account: Option<Account>,
) -> (r: AppResult<Author>)
    ensures
        match authorship(user_id, string_view(name), string_view(email), account_view(account)) {
            Ok(by) => r matches Ok(author) && author_view(author) == by,
            Err(text) => r matches Err(e) && e.is(FailureKind::Validation, text),
        },
{
    match user_id {
        Some(id) => match account {
            Some(found) => {
                let Account { username, email: address } = found;
                let email: Option<String> = if email.is_none() {
                    Some(address)
                } else {
                    email
                };
                Ok(Author { name: Some(username), email })
            },
            None => {
                let number: String = decimal_string(id);
                Err(
                    AppError::ValidationError(
                        concat3("El usuario con ID ", number.as_str(), " no existe"),
                    ),
                )
            },
        },
        None => {
            let missing: bool = match &name {
                Some(given) => is_blank_str(given.as_str()),
                None => true,
            };
            if missing {
                Err(
                    AppError::ValidationError(
                        "Se requiere un nombre de autor para comentarios anónimos".to_owned(),
                    ),
                )
            } else {
                Ok(Author { name, email })
            }
        },
    }
}

} // verus!
