//! What can go wrong in the authentication layer, and what of it a caller is
//! told.

use vstd::prelude::*;
use vstd::string::StringExecFns;

verus! {

/// The failures of the authentication layer.
#[derive(Clone, Copy, Debug, PartialEq, Eq, Structural)]
pub enum AuthError {
    /// The request carries no bearer credential.
    MissingCredential,
    /// The token is not a well-formed signed claim set.
    MalformedToken,
    /// The signature is not the one the secret gives for the token's content.
    InvalidSignature,
    /// The token's expiry instant has been reached.
    ExpiredToken,
    /// The verified role is not the role the route asks for.
    InsufficientRole,
    /// A handler asked for an identity that no policy had attached.
    MissingIdentityContext,
    /// The token could not be encoded or signed.
    SigningFailure,
}

/// What a caller is told about a failure.
#[derive(Clone, Copy, Debug, PartialEq, Eq, Structural)]
pub enum Outward {
    /// Unauthorized: the credential is missing.
    CredentialMissing,
    /// Unauthorized: the token is invalid or expired, without saying which.
    InvalidOrExpiredToken,
    /// Unauthorized: the role is insufficient.
    InsufficientRole,
    /// A fault of the service itself.
    InternalError,
}

impl AuthError {
    /// The failure came from checking a token: its form, its signature or its
    /// expiry.
    pub open spec fn is_verification_failure(self) -> bool {
        self == AuthError::MalformedToken || self == AuthError::InvalidSignature || self
            == AuthError::ExpiredToken
    }

    /// The outward signal of each failure. The three verification failures
    /// share one signal; the two operational faults share another.
    pub open spec fn outward(self) -> Outward {
        match self {
            AuthError::MissingCredential => Outward::CredentialMissing,
            AuthError::MalformedToken => Outward::InvalidOrExpiredToken,
            AuthError::InvalidSignature => Outward::InvalidOrExpiredToken,
            AuthError::ExpiredToken => Outward::InvalidOrExpiredToken,
            AuthError::InsufficientRole => Outward::InsufficientRole,
            AuthError::MissingIdentityContext => Outward::InternalError,
            AuthError::SigningFailure => Outward::InternalError,
        }
    }

    /// Tells whether the failure came from checking a token.
    pub fn verification_failure(&self) -> (b: bool)
        ensures
            b == self.is_verification_failure(),
    {
        match self {
            AuthError::MalformedToken => true,
            AuthError::InvalidSignature => true,
            AuthError::ExpiredToken => true,
            _ => false,
        }
    }

    /// What a caller is told about this failure.
    pub fn outward_signal(&self) -> (o: Outward)
        ensures
            o == self.outward(),
    {
        match self {
            AuthError::MissingCredential => Outward::CredentialMissing,
            AuthError::MalformedToken => Outward::InvalidOrExpiredToken,
            AuthError::InvalidSignature => Outward::InvalidOrExpiredToken,
            AuthError::ExpiredToken => Outward::InvalidOrExpiredToken,
            AuthError::InsufficientRole => Outward::InsufficientRole,
            AuthError::MissingIdentityContext => Outward::InternalError,
            AuthError::SigningFailure => Outward::InternalError,
        }
    }
}

impl Outward {
    /// The HTTP status of each signal.
    pub open spec fn status(self) -> u16 {
        match self {
            Outward::InternalError => 500,
            _ => 401,
        }
    }

    /// The text of each signal.
    pub open spec fn text(self) -> Seq<char> {
        match self {
            Outward::CredentialMissing => "Unauthorized: credential missing"@,
            Outward::InvalidOrExpiredToken => "Unauthorized: invalid or expired token"@,
            Outward::InsufficientRole => "Unauthorized: insufficient role"@,
            Outward::InternalError => "Internal error"@,
        }
    }

    /// The HTTP status to answer with.
    pub fn status_code(&self) -> (code: u16)
        ensures
            code == self.status(),
    {
        match self {
            Outward::InternalError => 500,
            _ => 401,
        }
    }

    /// The text to answer with.
    pub fn message(&self) -> (m: &'static str)
        ensures
            m@ == self.text(),
    {
        match self {
            Outward::CredentialMissing => "Unauthorized: credential missing",
            Outward::InvalidOrExpiredToken => "Unauthorized: invalid or expired token",
            Outward::InsufficientRole => "Unauthorized: insufficient role",
            Outward::InternalError => "Internal error",
        }
    }
}

/// A caller cannot tell one verification failure from another.
pub proof fn lemma_verification_failures_indistinguishable(a: AuthError, b: AuthError)
    requires
        a.is_verification_failure(),
        b.is_verification_failure(),
    ensures
        a.outward() == b.outward(),
{
}

/// An insufficient role is signalled as neither a missing credential nor an
/// invalid token.
pub proof fn lemma_insufficient_role_is_distinct(e: AuthError)
    requires
        e == AuthError::MissingCredential || e.is_verification_failure(),
    ensures
        e.outward() != AuthError::InsufficientRole.outward(),
{
}

/// The kinds of failure of the service as a whole.
#[derive(Clone, Copy, Debug, PartialEq, Eq, Structural)]
pub enum FailureKind {
    Database,
    Io,
    NotFound,
    Validation,
    Authentication,
    Authorization,
    Internal,
}

/// A failure of the service, with the text that tells it apart.
#[derive(Debug)]
pub enum AppError {
    /// The store failed; the text is the store's own.
    DatabaseError(String),
    /// Input or output failed; the text is the system's own.
    IoError(String),
    /// What was asked for does not exist.
    NotFound(String),
    /// The request breaks a rule on its content.
    ValidationError(String),
    /// The caller could not be recognised.
    AuthenticationError(String),
    /// The caller may not do this.
    AuthorizationError(String),
    /// A fault of the service itself.
    InternalServerError(String),
}

/// What a service function returns.
pub type AppResult<T> = Result<T, AppError>;

impl FailureKind {
    /// The words that introduce a failure of this kind.
    pub open spec fn heading(self) -> Seq<char> {
        match self {
            FailureKind::Database => "Error de base de datos: "@,
            FailureKind::Io => "Error de IO: "@,
            FailureKind::NotFound => "Recurso no encontrado: "@,
            FailureKind::Validation => "Error de validaci\u{f3}n: "@,
            FailureKind::Authentication => "Error de autenticaci\u{f3}n: "@,
            FailureKind::Authorization => "Error de autorizaci\u{f3}n: "@,
            FailureKind::Internal => "Error interno del servidor: "@,
        }
    }
}

impl AppError {
    /// The kind of this failure.
    pub open spec fn kind(&self) -> FailureKind {
        match self {
            AppError::DatabaseError(_) => FailureKind::Database,
            AppError::IoError(_) => FailureKind::Io,
            AppError::NotFound(_) => FailureKind::NotFound,
            AppError::ValidationError(_) => FailureKind::Validation,
            AppError::AuthenticationError(_) => FailureKind::Authentication,
            AppError::AuthorizationError(_) => FailureKind::Authorization,
            AppError::InternalServerError(_) => FailureKind::Internal,
        }
    }

    /// The text of this failure.
    pub open spec fn detail(&self) -> Seq<char> {
        match self {
            AppError::DatabaseError(t) => t@,
            AppError::IoError(t) => t@,
            AppError::NotFound(t) => t@,
            AppError::ValidationError(t) => t@,
            AppError::AuthenticationError(t) => t@,
            AppError::AuthorizationError(t) => t@,
            AppError::InternalServerError(t) => t@,
        }
    }

    /// This failure is of kind `kind` and has the text `detail`.
    pub open spec fn is(&self, kind: FailureKind, detail: Seq<char>) -> bool {
        self.kind() == kind && self.detail() == detail
    }

    /// The kind of this failure.
    pub fn failure_kind(&self) -> (kind: FailureKind)
        ensures
            kind == self.kind(),
    {
        match self {
            AppError::DatabaseError(_) => FailureKind::Database,
            AppError::IoError(_) => FailureKind::Io,
            AppError::NotFound(_) => FailureKind::NotFound,
            AppError::ValidationError(_) => FailureKind::Validation,
            AppError::AuthenticationError(_) => FailureKind::Authentication,
            AppError::AuthorizationError(_) => FailureKind::Authorization,
            AppError::InternalServerError(_) => FailureKind::Internal,
        }
    }

    /// The text of this failure.
    pub fn detail_text(&self) -> (text: &str)
        ensures
            text@ == self.detail(),
    {
        match self {
            AppError::DatabaseError(t) => t.as_str(),
            AppError::IoError(t) => t.as_str(),
            AppError::NotFound(t) => t.as_str(),
            AppError::ValidationError(t) => t.as_str(),
            AppError::AuthenticationError(t) => t.as_str(),
            AppError::AuthorizationError(t) => t.as_str(),
            AppError::InternalServerError(t) => t.as_str(),
        }
    }

    /// The failure in words: the heading of its kind, then its text.
    pub fn message(&self) -> (m: String)
        ensures
            m@ == self.kind().heading() + self.detail(),
    {
        let heading: &str = match self {
            AppError::DatabaseError(_) => "Error de base de datos: ",
            AppError::IoError(_) => "Error de IO: ",
            AppError::NotFound(_) => "Recurso no encontrado: ",
            AppError::ValidationError(_) => "Error de validaci\u{f3}n: ",
            AppError::AuthenticationError(_) => "Error de autenticaci\u{f3}n: ",
            AppError::AuthorizationError(_) => "Error de autorizaci\u{f3}n: ",
            AppError::InternalServerError(_) => "Error interno del servidor: ",
        };
        heading.to_owned().concat(self.detail_text())
    }
}

/// A result is the validation failure with the text `fault`, or success
/// where there is no fault.
pub open spec fn judged(r: AppResult<()>, fault: Option<Seq<char>>) -> bool {
    match fault {
        Some(text) => r matches Err(e) && e.is(FailureKind::Validation, text),
        None => r is Ok,
    }
}

} // verus!
