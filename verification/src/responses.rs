//! What a handler answers: the status of each outcome of an operation, and
//! which failures it reports in their own words.

use vstd::prelude::*;
use crate::error::{AppError, FailureKind};

verus! {

/// The operations that the handlers offer.
#[derive(Clone, Copy, Debug, PartialEq, Eq, Structural)]
pub enum Operation {
    /// Sign a user in.
    Login,
    /// Register a user or create a record.
    Create,
    /// Read one record, or act for the signed-in user.
    Read,
    /// Read all records of a kind.
    List,
    /// Change a record.
    Update,
    /// Delete a record.
    Delete,
}

impl Operation {
    /// The operation reports a failure of this kind in the failure's own
    /// words. Every other failure it answers as a fault of the service, in
    /// words of its own.
    pub open spec fn reports(self, kind: FailureKind) -> bool {
        match self {
            Operation::Login => kind == FailureKind::Authentication || kind
                == FailureKind::NotFound,
            Operation::Create => kind == FailureKind::Validation,
            Operation::Read => kind == FailureKind::NotFound,
            Operation::List => false,
            Operation::Update => kind == FailureKind::NotFound || kind == FailureKind::Validation,
            Operation::Delete => kind == FailureKind::NotFound,
        }
    }

    /// The status of success.
    pub open spec fn success(self) -> u16 {
        match self {
            Operation::Create => 201,
            Operation::Delete => 204,
            _ => 200,
        }
    }

    /// The status of a failure of the given kind.
    pub open spec fn failure(self, kind: FailureKind) -> u16 {
        if self.reports(kind) {
            match kind {
                FailureKind::Validation => 400,
                FailureKind::Authentication => 401,
                _ => 404,
            }
        } else {
            500
        }
    }

    /// Tells whether the operation reports a failure of this kind in the
    /// failure's own words.
    pub fn is_reported(&self, kind: FailureKind) -> (reported: bool)
        ensures
            reported == self.reports(kind),
    {
        match self {
            Operation::Login => kind == FailureKind::Authentication || kind
                == FailureKind::NotFound,
            Operation::Create => kind == FailureKind::Validation,
            Operation::Read => kind == FailureKind::NotFound,
            Operation::List => false,
            Operation::Update => kind == FailureKind::NotFound || kind == FailureKind::Validation,
            Operation::Delete => kind == FailureKind::NotFound,
        }
    }

    /// The status to answer success with.
    pub fn success_status(&self) -> (status: u16)
        ensures
            status == self.success(),
    {
        match self {
            Operation::Create => 201,
            Operation::Delete => 204,
            _ => 200,
        }
    }

    /// The status to answer a failure with.
    pub fn failure_status(&self, failure: &AppError) -> (status: u16)
        ensures
            status == self.failure(failure.kind()),
    {
        let kind: FailureKind = failure.failure_kind();
        if self.is_reported(kind) {
            match kind {
                FailureKind::Validation => 400,
                FailureKind::Authentication => 401,
                _ => 404,
            }
        } else {
            500
        }
    }

    /// The words to answer a failure with: the failure's own where the
    /// operation reports its kind, otherwise `fallback`.
    pub fn failure_body<'a>(&self, failure: &'a AppError, fallback: &'a str) -> (body: &'a str)
        ensures
            body@ == (if self.reports(failure.kind()) {
                failure.detail()
            } else {
                fallback@
            }),
    {
        if self.is_reported(failure.failure_kind()) {
            failure.detail_text()
        } else {
            fallback
        }
    }
}

/// Every status of a failure is a client error that the operation reports,
/// or 500.
pub proof fn lemma_failure_status(op: Operation, kind: FailureKind)
    ensures
        op.failure(kind) == 400 || op.failure(kind) == 401 || op.failure(kind) == 404
            || op.failure(kind) == 500,
        op.failure(kind) != 500 <==> op.reports(kind),
        op.failure(kind) != op.success(),
{
}

} // verus!
