//! What the service makes of the answers of its store.

use vstd::prelude::*;
use vstd::string::StringExecFns;
use crate::decimal::{decimal, decimal_string};
use crate::error::{AppError, AppResult, FailureKind};
use crate::text::concat3;

verus! {

/// How a query on the store failed.
#[derive(Debug)]
pub struct StoreFailure {
    /// The query ran and found no row.
    pub not_found: bool,
    /// The failure in the store's own words.
    pub text: String,
}

/// The records that the service keeps.
#[derive(Clone, Copy, Debug, PartialEq, Eq, Structural)]
pub enum Record {
    User,
    Category,
    Post,
    Comment,
}

/// What a record can be looked up by, other than its id.
#[derive(Clone, Copy, Debug, PartialEq, Eq, Structural)]
pub enum Key {
    Slug,
    Email,
}

impl Key {
    /// The words for this key, up to the opening quote of the value.
    pub open spec fn opening(self) -> Seq<char> {
        match self {
            Key::Slug => "slug '"@,
            Key::Email => "email '"@,
        }
    }
}

impl Record {
    /// The words that begin what is said of a missing record.
    pub open spec fn subject(self) -> Seq<char> {
        match self {
            Record::User => "Usuario con "@,
            Record::Category => "Categoría con "@,
            Record::Post => "Post con "@,
            Record::Comment => "Comentario con "@,
        }
    }

    /// What is said of a record that is missing under `value` of `key`.
    pub open spec fn missing_by_text(self, key: Key, value: Seq<char>) -> Seq<char> {
        self.subject() + key.opening() + value + "'"@ + self.missing_tail()
    }

    /// What a failed lookup of a record by a key other than its id means:
    /// the record is missing, or the store failed.
    pub fn lookup_by_failed(&self, key: Key, value: &str, failure: StoreFailure) -> (e: AppError)
        ensures
            failure.not_found ==> e.is(FailureKind::NotFound, self.missing_by_text(key, value@)),
            !failure.not_found ==> e.is(FailureKind::Database, failure.text@),
    {
        if failure.not_found {
            let subject: &str = match self {
                Record::User => "Usuario con ",
                Record::Category => "Categoría con ",
                Record::Post => "Post con ",
                Record::Comment => "Comentario con ",
            };
            let opening: &str = match key {
                Key::Slug => "slug '",
                Key::Email => "email '",
            };
            let tail: &str = match self {
                Record::Category => " no encontrada",
                _ => " no encontrado",
            };
            let text: String = subject.to_owned().concat(opening).concat(value).concat("'").concat(
                tail,
            );
            AppError::NotFound(text)
        } else {
            AppError::DatabaseError(failure.text)
        }
    }

    /// The words before the id where a record is missing.
    pub open spec fn missing_head(self) -> Seq<char> {
        match self {
            Record::User => "Usuario con ID "@,
            Record::Category => "Categoría con ID "@,
            Record::Post => "Post con ID "@,
            Record::Comment => "Comentario con ID "@,
        }
    }

    /// The words after the id where a record is missing.
    pub open spec fn missing_tail(self) -> Seq<char> {
        match self {
            Record::Category => " no encontrada"@,
            _ => " no encontrado"@,
        }
    }

    /// The words before the id where a record could not be deleted.
    pub open spec fn undeleted_head(self) -> Seq<char> {
        match self {
            Record::User => "No se pudo eliminar el usuario con ID "@,
            Record::Category => "No se pudo eliminar la categoría con ID "@,
            Record::Post => "No se pudo eliminar el post con ID "@,
            Record::Comment => "No se pudo eliminar el comentario con ID "@,
        }
    }

    /// What is said of a record that is missing.
    pub open spec fn missing_text(self, id: int) -> Seq<char> {
        self.missing_head() + decimal(id) + self.missing_tail()
    }

    /// What is said of a record that could not be deleted.
    pub open spec fn undeleted_text(self, id: int) -> Seq<char> {
        self.undeleted_head() + decimal(id)
    }

    /// The failure for a record of this kind that does not exist.
    pub fn missing(&self, id: i32) -> (e: AppError)
        ensures
            e.is(FailureKind::NotFound, self.missing_text(id as int)),
    {
        let head: &str = match self {
            Record::User => "Usuario con ID ",
            Record::Category => "Categoría con ID ",
            Record::Post => "Post con ID ",
            Record::Comment => "Comentario con ID ",
        };
        let tail: &str = match self {
            Record::Category => " no encontrada",
            _ => " no encontrado",
        };
        let number: String = decimal_string(id);
        AppError::NotFound(concat3(head, number.as_str(), tail))
    }

    /// The failure for a record of this kind that the store did not delete.
    pub fn undeleted(&self, id: i32) -> (e: AppError)
        ensures
            e.is(FailureKind::NotFound, self.undeleted_text(id as int)),
    {
        let head: &str = match self {
            Record::User => "No se pudo eliminar el usuario con ID ",
            Record::Category => "No se pudo eliminar la categoría con ID ",
            Record::Post => "No se pudo eliminar el post con ID ",
            Record::Comment => "No se pudo eliminar el comentario con ID ",
        };
        let number: String = decimal_string(id);
        AppError::NotFound(head.to_owned().concat(number.as_str()))
    }

    /// What a failed lookup of the record `id` means: the record is missing,
    /// or the store failed.
    pub fn lookup_failed(&self, id: i32, failure: StoreFailure) -> (e: AppError)
        ensures
            failure.not_found ==> e.is(FailureKind::NotFound, self.missing_text(id as int)),
            !failure.not_found ==> e.is(FailureKind::Database, failure.text@),
    {
        if failure.not_found {
            self.missing(id)
        } else {
            AppError::DatabaseError(failure.text)
        }
    }

    /// Judges a deletion by the number of rows that went: none means that
    /// the record could not be deleted.
    pub fn deletion(&self, id: i32, deleted: usize) -> (r: AppResult<()>)
        ensures
            deleted > 0 ==> r is Ok,
            deleted == 0 ==> (r matches Err(e) && e.is(
                FailureKind::NotFound,
                self.undeleted_text(id as int),
            )),
    {
        if deleted == 0 {
            Err(self.undeleted(id))
        } else {
            Ok(())
        }
    }
}

/// What a failure of the store means where a missing row is no case of its
/// own: a database failure in the store's words.
pub fn store_failed(failure: StoreFailure) -> (e: AppError)
    ensures
        e.is(FailureKind::Database, failure.text@),
{
    AppError::DatabaseError(failure.text)
}

} // verus!
