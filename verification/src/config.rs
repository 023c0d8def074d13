//! The signing secret of the process.

use vstd::prelude::*;

verus! {

/// How many hours a token lives that is issued at sign-in or on refresh.
pub const TOKEN_LIFETIME_HOURS: i64 = 24;

/// The secret that stands in where none is configured. It is public
/// knowledge: fit for development, and for nothing else.
pub open spec fn fallback_secret() -> Seq<char> {
    "secret_muy_secreto_para_desarrollo_no_usar_en_produccion"@
}

/// The secret that every codec operation of the process uses, and whether it
/// is the fallback.
#[derive(Debug)]
pub struct SigningSecret {
    value: String,
    fallback: bool,
}

impl SigningSecret {
    /// The secret itself.
    pub closed spec fn text(&self) -> Seq<char> {
        self.value@
    }

    /// No secret was configured: this one is the fallback, and the process
    /// owes its operator a warning.
    pub closed spec fn is_fallback(&self) -> bool {
        self.fallback
    }

    /// The configured secret, or the fallback where none is configured.
    pub fn from_configured(configured: Option<String>) -> (secret: Self)
        ensures
            configured matches Some(value) ==> secret.text() == value@ && !secret.is_fallback(),
            configured is None ==> secret.text() == fallback_secret() && secret.is_fallback(),
    {
        match configured {
            Some(value) => SigningSecret { value, fallback: false },
            None => SigningSecret {
                value: "secret_muy_secreto_para_desarrollo_no_usar_en_produccion".to_owned(),
                fallback: true,
            },
        }
    }

    /// The secret, to sign and to verify with.
    pub fn as_str(&self) -> (text: &str)
        ensures
            text@ == self.text(),
    {
        self.value.as_str()
    }

    /// Tells whether this is the fallback.
    pub fn uses_fallback(&self) -> (fallback: bool)
        ensures
            fallback == self.is_fallback(),
    {
        self.fallback
    }
}

} // verus!
