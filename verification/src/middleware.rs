//! The interception policies that stand before a chain of handlers, the
//! request-scoped slot in which they leave the verified identity, and the
//! accessors with which a handler reads it.
//!
//! A policy decides with `call`: its verdict is complete, and the slot is in
//! its final state, when it returns. With `intercept` it also stands before
//! the chain: the chain is entered after the decision, on `Forward` only.

use vstd::prelude::*;
use crate::claims::{Claims, ClaimsView};
use crate::clock::{unix_now, CLOCK_LIMIT};
use crate::error::AuthError;
use crate::extract::{bearer_credential, extract_bearer};
use crate::text::{str_view, string_view};
use crate::token::{outcome_view, validate_token_at, verified};

verus! {

/// What a policy decides for one request.
#[derive(Clone, Copy, Debug, PartialEq, Eq, Structural)]
pub enum Verdict {
    /// Hand the request to the chain.
    Forward,
    /// Answer with this failure; the chain is not entered.
    Reject(AuthError),
}

/// The state that belongs to one request in flight: the claim set that a
/// policy attached, if any.
#[derive(Debug)]
pub struct RequestContext {
    claims: Option<Claims>,
}

/// The view of an optional claim set.
pub open spec fn identity_view(claims: Option<Claims>) -> Option<ClaimsView> {
    match claims {
        Some(c) => Some(c@),
        None => None,
    }
}

impl View for RequestContext {
    type V = Option<ClaimsView>;

    closed spec fn view(&self) -> Option<ClaimsView> {
        identity_view(self.claims)
    }
}

impl RequestContext {
    /// The context of a request that no policy has seen yet.
    pub fn new() -> (ctx: Self)
        ensures
            ctx@ is None,
    {
        RequestContext { claims: None }
    }

    /// Attaches `claims`, in place of what was attached before.
    pub fn attach(&mut self, claims: Claims)
        ensures
            final(self)@ == Some(claims@),
    {
        self.claims = Some(claims);
    }

    /// The attached claim set, if there is one.
    pub fn identity(&self) -> (claims: Option<Claims>)
        ensures
            identity_view(claims) == self@,
    {
        match &self.claims {
            Some(c) => Some(c.clone()),
            None => None,
        }
    }
}

/// What extraction and verification give for a request at the instant `now`:
/// a missing credential where the header yields no bearer token, otherwise
/// what verification makes of the token.
pub open spec fn authentication(header: Option<Seq<char>>, secret: Seq<char>, now: int) -> Result<
    ClaimsView,
    AuthError,
> {
    match bearer_credential(header) {
        None => Err(AuthError::MissingCredential),
        Some(token) => verified(token, secret, now),
    }
}

/// The role gate: no expected role, or exactly the expected one.
pub open spec fn role_accepted(required: Option<Seq<char>>, role: Seq<char>) -> bool {
    match required {
        Some(expected) => role == expected,
        None => true,
    }
}

/// What the required policy makes of an authentication: its failure as it
/// is; an insufficient role for a verified claim set of another role than
/// the expected one; otherwise the claim set.
pub open spec fn required_admission(
    required: Option<Seq<char>>,
    authenticated: Result<ClaimsView, AuthError>,
) -> Result<ClaimsView, AuthError> {
    match authenticated {
        Err(e) => Err(e),
        Ok(c) => if role_accepted(required, c.role) {
            Ok(c)
        } else {
            Err(AuthError::InsufficientRole)
        },
    }
}

/// The verdict of the required policy.
pub open spec fn required_verdict(admission: Result<ClaimsView, AuthError>) -> Verdict {
    match admission {
        Ok(_) => Verdict::Forward,
        Err(e) => Verdict::Reject(e),
    }
}

/// The slot after a policy has run: the admitted claim set, or what the
/// slot held before.
pub open spec fn slot_after(
    admission: Result<ClaimsView, AuthError>,
    before: Option<ClaimsView>,
) -> Option<ClaimsView> {
    match admission {
        Ok(c) => Some(c),
        Err(_) => before,
    }
}

/// Extracts the bearer token of `authorization` and verifies it under
/// `secret` at the instant `now`.
pub fn authenticate_at(authorization: Option<&str>, secret: &str, now: i64) -> (r: Result<
    Claims,
    AuthError,
>)
    ensures
        outcome_view(r) == authentication(str_view(authorization), secret@, now as int),
{
    match extract_bearer(authorization) {
        None => Err(AuthError::MissingCredential),
        Some(token) => validate_token_at(token, secret, now),
    }
}

/// Mandatory authentication, with an optional role gate.
#[derive(Debug)]
pub struct JwtAuth {
    /// The role that a verified claim set must carry, if any.
    pub required_role: Option<String>,
}

impl JwtAuth {
    /// Mandatory authentication without a role gate.
    pub fn new() -> (policy: Self)
        ensures
            policy.required_role is None,
    {
        JwtAuth { required_role: None }
    }

    /// The same policy with a gate for exactly `role`.
    pub fn role(self, role: &str) -> (policy: Self)
        ensures
            string_view(policy.required_role) == Some(role@),
    {
        let mut policy = self;
        policy.required_role = Some(role.to_owned());
        policy
    }

    /// The interceptor that applies this policy to requests.
    pub fn new_transform(&self) -> (interceptor: JwtAuthMiddleware)
        ensures
            interceptor.required() == string_view(self.required_role),
    {
        let required_role = match &self.required_role {
            Some(role) => Some(role.clone()),
            None => None,
        };
        JwtAuthMiddleware { required_role }
    }
}

/// The interceptor of the required policy.
#[derive(Debug)]
pub struct JwtAuthMiddleware {
    required_role: Option<String>,
}

impl JwtAuthMiddleware {
    /// The role that a verified claim set must carry, if any.
    pub closed spec fn required(&self) -> Option<Seq<char>> {
        string_view(self.required_role)
    }

    /// Applies the role gate to an authentication and settles the request:
    /// on admission the claim set is attached and the request goes forward;
    /// otherwise it is rejected and the slot stays as it was.
    pub fn settle(&self, authenticated: Result<Claims, AuthError>, ctx: &mut RequestContext) -> (verdict:
        Verdict)
        ensures
            verdict == required_verdict(
                required_admission(self.required(), outcome_view(authenticated)),
            ),
            final(ctx)@ == slot_after(
                required_admission(self.required(), outcome_view(authenticated)),
                old(ctx)@,
            ),
    {
        match authenticated {
            Err(e) => Verdict::Reject(e),
            Ok(claims) => {
                let allowed: bool = match &self.required_role {
                    Some(role) => claims.role == *role,
                    None => true,
                };
                if allowed {
                    ctx.attach(claims);
                    Verdict::Forward
                } else {
                    Verdict::Reject(AuthError::InsufficientRole)
                }
            },
        }
    }

    /// Handles one request at the instant `now`: extracts the credential,
    /// verifies the token, applies the role gate, and attaches the claim set
    /// before the request goes forward.
    pub fn call_at(
        &self,
        authorization: Option<&str>,
        ctx: &mut RequestContext,
        secret: &str,
        now: i64,
    ) -> (verdict: Verdict)
        ensures
            verdict == required_verdict(
                required_admission(
                    self.required(),
                    authentication(str_view(authorization), secret@, now as int),
                ),
            ),
            final(ctx)@ == slot_after(
                required_admission(
                    self.required(),
                    authentication(str_view(authorization), secret@, now as int),
                ),
                old(ctx)@,
            ),
    {
        let authenticated = authenticate_at(authorization, secret, now);
        self.settle(authenticated, ctx)
    }

    /// Stands before `chain` for one request at the instant `now`: the
    /// chain is entered only once the policy has forwarded the request and
    /// the claim set is attached, and its answer is passed on as it is. A
    /// rejected request never enters the chain.
    pub fn intercept_at<R, F: FnOnce(&RequestContext) -> R>(
        &self,
        authorization: Option<&str>,
        ctx: &mut RequestContext,
        secret: &str,
        now: i64,
        chain: F,
    ) -> (r: Result<R, Refusal<F>>)
        requires
            forall|c: RequestContext| call_requires(chain, (&c,)),
        ensures
            final(ctx)@ == slot_after(
                required_admission(
                    self.required(),
                    authentication(str_view(authorization), secret@, now as int),
                ),
                old(ctx)@,
            ),
            match required_verdict(
                required_admission(
                    self.required(),
                    authentication(str_view(authorization), secret@, now as int),
                ),
            ) {
                Verdict::Forward => r matches Ok(answer) && call_ensures(
                    chain,
                    (&*final(ctx),),
                    answer,
                ),
                Verdict::Reject(e) => r matches Err(refusal) && refusal.failure == e
                    && refusal.chain == chain,
            },
    {
        let verdict = self.call_at(authorization, ctx, secret, now);
        carry_out(verdict, ctx, chain)
    }

    /// Stands before `chain` for one request at the instant the clock
    /// shows, which is read once.
    pub fn intercept<R, F: FnOnce(&RequestContext) -> R>(
        &self,
        authorization: Option<&str>,
        ctx: &mut RequestContext,
        secret: &str,
        chain: F,
    ) -> (r: Result<R, Refusal<F>>)
        requires
            forall|c: RequestContext| call_requires(chain, (&c,)),
        ensures
            exists|now: int|
                0 <= now < CLOCK_LIMIT && final(ctx)@ == slot_after(
                    required_admission(
                        self.required(),
                        #[trigger] authentication(str_view(authorization), secret@, now),
                    ),
                    old(ctx)@,
                ) && match required_verdict(
                    required_admission(
                        self.required(),
                        authentication(str_view(authorization), secret@, now),
                    ),
                ) {
                    Verdict::Forward => r matches Ok(answer) && call_ensures(
                        chain,
                        (&*final(ctx),),
                        answer,
                    ),
                    Verdict::Reject(e) => r matches Err(refusal) && refusal.failure == e
                        && refusal.chain == chain,
                },
    {
        let now: i64 = unix_now();
        self.intercept_at(authorization, ctx, secret, now, chain)
    }

    /// Handles one request at the instant the clock shows, which is read
    /// once.
    pub fn call(&self, authorization: Option<&str>, ctx: &mut RequestContext, secret: &str) -> (verdict:
        Verdict)
        ensures
            exists|now: int|
                0 <= now < CLOCK_LIMIT && verdict == required_verdict(
                    required_admission(
                        self.required(),
                        #[trigger] authentication(str_view(authorization), secret@, now),
                    ),
                ) && final(ctx)@ == slot_after(
                    required_admission(
                        self.required(),
                        authentication(str_view(authorization), secret@, now),
                    ),
                    old(ctx)@,
                ),
    {
        let now: i64 = unix_now();
        self.call_at(authorization, ctx, secret, now)
    }
}

/// Best-effort authentication: a request without a valid token goes forward
/// without an identity.
#[derive(Debug)]
pub struct OptionalJwtAuth;

impl OptionalJwtAuth {
    /// The optional policy.
    pub fn new() -> (policy: Self) {
        OptionalJwtAuth
    }

    /// The interceptor that applies this policy to requests.
    pub fn new_transform(&self) -> (interceptor: OptionalJwtAuthMiddleware) {
        OptionalJwtAuthMiddleware
    }
}

/// The interceptor of the optional policy.
#[derive(Debug)]
pub struct OptionalJwtAuthMiddleware;

impl OptionalJwtAuthMiddleware {
    /// Settles the request for an authentication: a verified claim set is
    /// attached, a failure leaves the slot as it was, and the request goes
    /// forward either way.
    pub fn settle(&self, authenticated: Result<Claims, AuthError>, ctx: &mut RequestContext) -> (verdict:
        Verdict)
        ensures
            verdict == Verdict::Forward,
            final(ctx)@ == slot_after(outcome_view(authenticated), old(ctx)@),
    {
        match authenticated {
            Ok(claims) => {
                ctx.attach(claims);
            },
            Err(_) => {},
        }
        Verdict::Forward
    }

    /// Handles one request at the instant `now`.
    pub fn call_at(
        &self,
        authorization: Option<&str>,
        ctx: &mut RequestContext,
        secret: &str,
        now: i64,
    ) -> (verdict: Verdict)
        ensures
            verdict == Verdict::Forward,
            final(ctx)@ == slot_after(
                authentication(str_view(authorization), secret@, now as int),
                old(ctx)@,
            ),
    {
        let authenticated = authenticate_at(authorization, secret, now);
        self.settle(authenticated, ctx)
    }

    /// Stands before `chain` for one request at the instant `now`: the
    /// chain is entered once, after the slot has reached its final state,
    /// and its answer is passed on as it is.
    pub fn intercept_at<R, F: FnOnce(&RequestContext) -> R>(
        &self,
        authorization: Option<&str>,
        ctx: &mut RequestContext,
        secret: &str,
        now: i64,
        chain: F,
    ) -> (answer: R)
        requires
            forall|c: RequestContext| call_requires(chain, (&c,)),
        ensures
            final(ctx)@ == slot_after(
                authentication(str_view(authorization), secret@, now as int),
                old(ctx)@,
            ),
            call_ensures(chain, (&*final(ctx),), answer),
    {
        let verdict = self.call_at(authorization, ctx, secret, now);
        chain(ctx)
    }

    /// Stands before `chain` for one request at the instant the clock
    /// shows, which is read once.
    pub fn intercept<R, F: FnOnce(&RequestContext) -> R>(
        &self,
        authorization: Option<&str>,
        ctx: &mut RequestContext,
        secret: &str,
        chain: F,
    ) -> (answer: R)
        requires
            forall|c: RequestContext| call_requires(chain, (&c,)),
        ensures
            exists|now: int|
                0 <= now < CLOCK_LIMIT && final(ctx)@ == slot_after(
                    #[trigger] authentication(str_view(authorization), secret@, now),
                    old(ctx)@,
                ),
            call_ensures(chain, (&*final(ctx),), answer),
    {
        let now: i64 = unix_now();
        self.intercept_at(authorization, ctx, secret, now, chain)
    }

    /// Handles one request at the instant the clock shows, which is read
    /// once.
    pub fn call(&self, authorization: Option<&str>, ctx: &mut RequestContext, secret: &str) -> (verdict:
        Verdict)
        ensures
            verdict == Verdict::Forward,
            exists|now: int|
                0 <= now < CLOCK_LIMIT && final(ctx)@ == slot_after(
                    #[trigger] authentication(str_view(authorization), secret@, now),
                    old(ctx)@,
                ),
    {
        let now: i64 = unix_now();
        self.call_at(authorization, ctx, secret, now)
    }
}

/// A request that a policy turned away: why, and the chain that was not
/// entered, handed back as it came.
pub struct Refusal<F> {
    pub failure: AuthError,
    pub chain: F,
}

/// Carries out a verdict on a chain whose entry takes the request's context.
/// The chain is entered once on `Forward`, with the context as the policy
/// left it. On `Reject` it is not entered: it comes back inside the refusal.
pub fn carry_out<R, F: FnOnce(&RequestContext) -> R>(
    verdict: Verdict,
    ctx: &RequestContext,
    chain: F,
) -> (r: Result<R, Refusal<F>>)
    requires
        verdict is Forward ==> call_requires(chain, (ctx,)),
    ensures
        match verdict {
            Verdict::Forward => r matches Ok(answer) && call_ensures(chain, (ctx,), answer),
            Verdict::Reject(e) => r matches Err(refusal) && refusal.failure == e && refusal.chain
                == chain,
        },
{
    match verdict {
        Verdict::Forward => Ok(chain(ctx)),
        Verdict::Reject(failure) => Err(Refusal { failure, chain }),
    }
}

/// The verified identity of a request, for a handler that cannot do without.
#[derive(Debug)]
pub struct AuthenticatedUser(pub Claims);

/// The verified identity of a request where there is one.
#[derive(Debug)]
pub struct OptionalAuthenticatedUser(pub Option<Claims>);

/// What the mandatory accessor reads from a slot.
pub open spec fn mandatory_identity(slot: Option<ClaimsView>) -> Result<ClaimsView, AuthError> {
    match slot {
        Some(c) => Ok(c),
        None => Err(AuthError::MissingIdentityContext),
    }
}

impl AuthenticatedUser {
    /// Reads the attached claim set. That none is attached is a failure of
    /// its own kind, not a panic.
    pub fn from_request(ctx: &RequestContext) -> (r: Result<Self, AuthError>)
        ensures
            match r {
                Ok(user) => mandatory_identity(ctx@) == Ok::<ClaimsView, AuthError>(user.0@),
                Err(e) => mandatory_identity(ctx@) == Err::<ClaimsView, AuthError>(e),
            },
    {
        match ctx.identity() {
            Some(claims) => Ok(AuthenticatedUser(claims)),
            None => Err(AuthError::MissingIdentityContext),
        }
    }
}

impl OptionalAuthenticatedUser {
    /// Reads the attached claim set, or the absence of one. Never fails.
    pub fn from_request(ctx: &RequestContext) -> (user: Self)
        ensures
            identity_view(user.0) == ctx@,
    {
        OptionalAuthenticatedUser(ctx.identity())
    }
}

/// Under the required policy a request without an authorization header is
/// rejected for its missing credential, and its slot is left as it was.
pub proof fn lemma_required_rejects_missing_header(
    required: Option<Seq<char>>,
    secret: Seq<char>,
    now: int,
    before: Option<ClaimsView>,
)
    ensures
        required_verdict(required_admission(required, authentication(None, secret, now)))
            == Verdict::Reject(AuthError::MissingCredential),
        slot_after(required_admission(required, authentication(None, secret, now)), before)
            == before,
{
}

/// The role gate refuses a verified claim set of any other role as an
/// insufficient role, which is signalled apart from a missing credential
/// and from an invalid token.
pub proof fn lemma_role_gate_rejects_other_role(expected: Seq<char>, c: ClaimsView)
    requires
        c.role != expected,
    ensures
        required_verdict(required_admission(Some(expected), Ok(c))) == Verdict::Reject(
            AuthError::InsufficientRole,
        ),
        AuthError::InsufficientRole.outward() != AuthError::MissingCredential.outward(),
        AuthError::InsufficientRole.outward() != AuthError::ExpiredToken.outward(),
{
}

/// The role is looked at only once the token has verified: a request whose
/// authentication fails is rejected for that failure under every gate, and
/// never for its role.
pub proof fn lemma_role_gate_comes_after_verification(
    required: Option<Seq<char>>,
    header: Option<Seq<char>>,
    secret: Seq<char>,
    now: int,
)
    requires
        authentication(header, secret, now) is Err,
    ensures
        required_admission(required, authentication(header, secret, now)) == authentication(
            header,
            secret,
            now,
        ),
        required_admission(required, authentication(header, secret, now))
            != Err::<ClaimsView, AuthError>(AuthError::InsufficientRole),
{
}

/// Under the optional policy a request whose authentication fails goes
/// forward with the slot as it was: from an empty slot both accessors find
/// no identity.
pub proof fn lemma_optional_failure_is_anonymous(
    header: Option<Seq<char>>,
    secret: Seq<char>,
    now: int,
)
    requires
        authentication(header, secret, now) is Err,
    ensures
        slot_after(authentication(header, secret, now), None) is None,
        mandatory_identity(slot_after(authentication(header, secret, now), None)) == Err::<
            ClaimsView,
            AuthError,
        >(AuthError::MissingIdentityContext),
{
}

/// What a policy forwards is what the handler reads: after an admission the
/// mandatory accessor yields exactly the admitted claim set.
pub proof fn lemma_admitted_identity_is_read(
    admission: Result<ClaimsView, AuthError>,
    before: Option<ClaimsView>,
)
    requires
        admission is Ok,
    ensures
        mandatory_identity(slot_after(admission, before)) == admission,
{
}

} // verus!
