//! The token codec: claim sets signed into compact tokens with HMAC-SHA256,
//! and tokens checked back into claim sets.

use vstd::prelude::*;
use jsonwebtoken::{decode, encode, Algorithm, DecodingKey, EncodingKey, Header, Validation};
use jsonwebtoken::errors::ErrorKind;
use serde_json::Value;
use crate::claims::{Claims, ClaimsView, MAX_LIFETIME_HOURS, SECONDS_PER_HOUR};
use crate::clock::{unix_now, CLOCK_LIMIT};
use crate::error::AuthError;
use crate::text::string_view;

verus! {

/// The error type of the `jsonwebtoken` crate. Nothing is known of a value
/// of it.
#[verifier::external_type_specification]
#[verifier::external_body]
pub struct ExJwtError(jsonwebtoken::errors::Error);

/// What a token holds once its form and signature have been accepted: each
/// of the five claims, where the payload has it with the right type.
#[derive(Debug)]
pub struct DecodedPayload {
    pub sub: Option<String>,
    pub exp: Option<i64>,
    pub iat: Option<i64>,
    pub role: Option<String>,
    pub username: Option<String>,
}

/// A decoded payload as a mathematical value.
pub struct PayloadView {
    pub sub: Option<Seq<char>>,
    pub exp: Option<int>,
    pub iat: Option<int>,
    pub role: Option<Seq<char>>,
    pub username: Option<Seq<char>>,
}

/// Why a token was not accepted before its claims were looked at.
#[derive(Clone, Copy, Debug, PartialEq, Eq, Structural)]
pub enum DecodeFailure {
    /// The signature is not the one the secret gives.
    Signature,
    /// Anything else: the token's shape, its header, its encoding or its
    /// payload.
    Malformed,
}

/// The view of an optional instant.
pub open spec fn instant_view(t: Option<i64>) -> Option<int> {
    match t {
        Some(t) => Some(t as int),
        None => None,
    }
}

impl View for DecodedPayload {
    type V = PayloadView;

    open spec fn view(&self) -> PayloadView {
        PayloadView {
            sub: string_view(self.sub),
            exp: instant_view(self.exp),
            iat: instant_view(self.iat),
            role: string_view(self.role),
            username: string_view(self.username),
        }
    }
}

impl PayloadView {
    /// All five claims are there.
    pub open spec fn complete(self) -> bool {
        self.sub is Some && self.exp is Some && self.iat is Some && self.role is Some
            && self.username is Some
    }

    /// The claim set of a complete payload.
    pub open spec fn claims(self) -> ClaimsView
        recommends
            self.complete(),
    {
        ClaimsView {
            sub: self.sub->0,
            exp: self.exp->0,
            iat: self.iat->0,
            role: self.role->0,
            username: self.username->0,
        }
    }

    /// The payload that holds exactly the claim set `c`.
    pub open spec fn of(c: ClaimsView) -> PayloadView {
        PayloadView {
            sub: Some(c.sub),
            exp: Some(c.exp),
            iat: Some(c.iat),
            role: Some(c.role),
            username: Some(c.username),
        }
    }
}

/// The view of what decoding gave.
pub open spec fn decoded_view(d: Result<DecodedPayload, DecodeFailure>) -> Result<
    PayloadView,
    DecodeFailure,
> {
    match d {
        Ok(p) => Ok(p@),
        Err(f) => Err(f),
    }
}

/// The view of what verification gave.
pub open spec fn outcome_view(r: Result<Claims, AuthError>) -> Result<ClaimsView, AuthError> {
    match r {
        Ok(c) => Ok(c@),
        Err(e) => Err(e),
    }
}

/// The token that `jsonwebtoken::encode` makes of a claim set under a secret.
pub uninterp spec fn hs256_token(claims: ClaimsView, secret: Seq<char>) -> Seq<char>;

/// What `jsonwebtoken::decode` makes of a token under a secret, expiry left
/// unchecked.
pub uninterp spec fn hs256_payload(token: Seq<char>, secret: Seq<char>) -> Result<
    PayloadView,
    DecodeFailure,
>;

/// The signature that `jsonwebtoken::crypto::sign` computes with HS256 for a
/// message under a secret, as the text that stands in a token.
pub uninterp spec fn hs256_signature(message: Seq<char>, secret: Seq<char>) -> Seq<char>;

/// `s` holds no dot.
pub open spec fn dot_free(s: Seq<char>) -> bool {
    forall|i: int| 0 <= i < s.len() ==> s[i] != '.'
}

/// What a signature is computed of: header and payload with a dot between.
pub open spec fn signing_input(header: Seq<char>, payload: Seq<char>) -> Seq<char> {
    header + seq!['.'] + payload
}

/// `token` is the three segments with a dot between each two; no segment
/// holds a dot.
pub open spec fn three_parts(
    token: Seq<char>,
    header: Seq<char>,
    payload: Seq<char>,
    signature: Seq<char>,
) -> bool {
    &&& dot_free(header)
    &&& dot_free(payload)
    &&& dot_free(signature)
    &&& token == signing_input(header, payload) + seq!['.'] + signature
}

/// `token` is the segment `header`, a dot, the segment `payload`, a dot, and
/// the signature of the two under `secret`; no segment holds a dot.
pub open spec fn frames(
    token: Seq<char>,
    header: Seq<char>,
    payload: Seq<char>,
    secret: Seq<char>,
) -> bool {
    three_parts(token, header, payload, hs256_signature(signing_input(header, payload), secret))
}

/// `token` has the three-part form, and its third part is the signature of
/// the first two under `secret`.
pub open spec fn well_signed(token: Seq<char>, secret: Seq<char>) -> bool {
    exists|header: Seq<char>, payload: Seq<char>| frames(token, header, payload, secret)
}

/// `c` is a character of the base64url alphabet: an ASCII letter or digit, a
/// dash or an underscore.
pub open spec fn is_base64url_char(c: char) -> bool {
    let v = c as u32;
    0x30 <= v <= 0x39 || 0x41 <= v <= 0x5A || 0x61 <= v <= 0x7A || c == '-' || c == '_'
}

/// `s` is text in unpadded base64url: not empty, and of that alphabet only.
pub open spec fn base64url_text(s: Seq<char>) -> bool {
    s.len() > 0 && forall|i: int| 0 <= i < s.len() ==> is_base64url_char(#[trigger] s[i])
}

/// `token` is exactly these three segments with a dot between each two, each
/// segment text in unpadded base64url.
pub open spec fn segments(
    token: Seq<char>,
    header: Seq<char>,
    payload: Seq<char>,
    signature: Seq<char>,
) -> bool {
    &&& base64url_text(header)
    &&& base64url_text(payload)
    &&& base64url_text(signature)
    &&& token == signing_input(header, payload) + seq!['.'] + signature
}

/// `token` has the wire form: three segments of unpadded base64url, none of
/// them empty, with a dot between each two.
pub open spec fn in_wire_form(token: Seq<char>) -> bool {
    exists|header: Seq<char>, payload: Seq<char>, signature: Seq<char>|
        segments(token, header, payload, signature)
}

/// Calls `jsonwebtoken::encode` with the default header (HS256), a JSON
/// object of the five claims under their short names, and `secret` as the
/// HMAC key.
///
/// The contract claims that the call succeeds: the crate fails only where
/// the key is of another family than the header's algorithm, where header or
/// claims cannot be written as JSON, or where signing fails, and none of
/// these can happen with the default header, an HMAC key and a JSON object
/// of strings and integers. It names the token that comes back, which is a
/// function of the claims and the secret alone. It also claims the token's
/// form, as the crate builds it: the header and the payload, each in
/// unpadded base64url, joined by a dot, then a dot and the signature that
/// `crypto::sign` computes of that text, in unpadded base64url too. None of
/// the three is empty, and base64url has no dot.
#[verifier::external_body]
fn encode_hs256(claims: &Claims, secret: &str) -> (r: Result<String, jsonwebtoken::errors::Error>)
    ensures
        r is Ok,
        r matches Ok(token) ==> token@ == hs256_token(claims@, secret@),
        r matches Ok(token) ==> exists|header: Seq<char>, payload: Seq<char>|
            #[trigger] segments(
                token@,
                header,
                payload,
                hs256_signature(signing_input(header, payload), secret@),
            ),
{
    let mut body = serde_json::Map::new();
    body.insert(String::from("sub"), Value::from(claims.sub.as_str()));
    body.insert(String::from("exp"), Value::from(claims.exp));
    body.insert(String::from("iat"), Value::from(claims.iat));
    body.insert(String::from("role"), Value::from(claims.role.as_str()));
    body.insert(String::from("username"), Value::from(claims.username.as_str()));
    encode(&Header::default(), &body, &EncodingKey::from_secret(secret.as_bytes()))
}

/// Calls `jsonwebtoken::decode` for HS256 with `secret` as the HMAC key and
/// with the crate's own expiry check switched off, then picks the five
/// claims out of the JSON payload: a string claim that is a JSON string, an
/// instant that is a JSON integer of 64 bits.
///
/// The contract names the outcome: with the expiry check off the crate reads
/// no clock, so the outcome is a function of the token and the secret alone.
/// Of the crate's errors only a signature mismatch is kept apart. The
/// contract also claims what the crate checks before it yields a payload: it
/// splits the token at its last dot and the text before that at its last dot
/// again, decodes the first part as base64url, which has no dot, and
/// compares the last part with the signature that `crypto::sign` computes of
/// the text before it.
#[verifier::external_body]
fn decode_hs256(token: &str, secret: &str) -> (r: Result<DecodedPayload, DecodeFailure>)
    ensures
        decoded_view(r) == hs256_payload(token@, secret@),
        r is Ok ==> exists|header: Seq<char>, payload: Seq<char>|
            #[trigger] three_parts(
                token@,
                header,
                payload,
                hs256_signature(signing_input(header, payload), secret@),
            ),
{
    let mut rules = Validation::new(Algorithm::HS256);
    rules.validate_exp = false;
    match decode::<Value>(token, &DecodingKey::from_secret(secret.as_bytes()), &rules) {
        Ok(data) => Ok(DecodedPayload {
            sub: data.claims["sub"].as_str().map(String::from),
            exp: data.claims["exp"].as_i64(),
            iat: data.claims["iat"].as_i64(),
            role: data.claims["role"].as_str().map(String::from),
            username: data.claims["username"].as_str().map(String::from),
        }),
        Err(e) => Err(match e.kind() {
            ErrorKind::InvalidSignature => DecodeFailure::Signature,
            _ => DecodeFailure::Malformed,
        }),
    }
}

/// What verification at the instant `now` gives for each outcome of
/// decoding: the decoder's refusal under its own name; a payload that lacks
/// a claim as malformed; a claim set whose expiry instant is `now` or
/// earlier as expired; otherwise the claim set.
pub open spec fn verification(decoded: Result<PayloadView, DecodeFailure>, now: int) -> Result<
    ClaimsView,
    AuthError,
> {
    match decoded {
        Err(DecodeFailure::Signature) => Err(AuthError::InvalidSignature),
        Err(DecodeFailure::Malformed) => Err(AuthError::MalformedToken),
        Ok(p) => if !p.complete() {
            Err(AuthError::MalformedToken)
        } else if p.claims().expired_at(now) {
            Err(AuthError::ExpiredToken)
        } else {
            Ok(p.claims())
        },
    }
}

/// What verifying `token` under `secret` at the instant `now` gives: what
/// `verification` makes of the decoder's outcome, and never a claim set for
/// a token that is not well signed.
pub open spec fn verified(token: Seq<char>, secret: Seq<char>, now: int) -> Result<
    ClaimsView,
    AuthError,
> {
    let outcome = verification(hs256_payload(token, secret), now);
    if outcome is Ok && !well_signed(token, secret) {
        Err(AuthError::InvalidSignature)
    } else {
        outcome
    }
}

/// `token` is the token issued for the claim set `c` under `secret`: the
/// encoder's for them, in the wire form and well signed.
pub open spec fn issued(token: Seq<char>, c: ClaimsView, secret: Seq<char>) -> bool {
    token == hs256_token(c, secret) && in_wire_form(token) && well_signed(token, secret)
}

/// Turns the encoder's outcome into the codec's: the token, or a signing
/// failure whatever the encoder's error was.
pub fn sealed(encoded: Result<String, jsonwebtoken::errors::Error>) -> (r: Result<
    String,
    AuthError,
>)
    ensures
        r is Ok <==> encoded is Ok,
        r matches Ok(token) ==> encoded matches Ok(t) && token == t,
        r matches Err(e) ==> e == AuthError::SigningFailure,
{
    match encoded {
        Ok(token) => Ok(token),
        Err(_) => Err(AuthError::SigningFailure),
    }
}

/// Signs `claims` into a token under `secret`.
///
/// A token comes back for every claim set and every secret. It is the
/// encoder's for these claims and this secret, so equal claims under one
/// secret give equal tokens; it has the wire form and is well signed.
pub fn create_token(claims: &Claims, secret: &str) -> (r: Result<String, AuthError>)
    ensures
        r matches Ok(token) && issued(token@, claims@, secret@),
{
    let encoded = encode_hs256(claims, secret);
    proof {
        let text = encoded->Ok_0@;
        let (h, p) = choose|h: Seq<char>, p: Seq<char>|
            segments(text, h, p, hs256_signature(signing_input(h, p), secret@));
        let s = hs256_signature(signing_input(h, p), secret@);
        lemma_base64url_is_dot_free(h);
        lemma_base64url_is_dot_free(p);
        lemma_base64url_is_dot_free(s);
        assert(segments(text, h, p, s));
        assert(frames(text, h, p, secret@));
    }
    sealed(encoded)
}

/// Text in base64url holds no dot.
pub proof fn lemma_base64url_is_dot_free(s: Seq<char>)
    requires
        base64url_text(s),
    ensures
        dot_free(s),
{
    assert forall|i: int| 0 <= i < s.len() implies s[i] != '.' by {
        assert(is_base64url_char(s[i]));
    }
}

/// A token in the wire form has exactly two dots, with text before the
/// first, between the two and after the second, and every other character
/// of it is of the base64url alphabet.
pub proof fn lemma_wire_form_has_two_dots(token: Seq<char>)
    requires
        in_wire_form(token),
    ensures
        exists|first: int, second: int|
            {
                &&& 0 < first
                &&& first + 1 < second
                &&& second + 1 < token.len()
                &&& #[trigger] dots_at(token, first, second)
            },
{
    let (h, p, s) = choose|h: Seq<char>, p: Seq<char>, s: Seq<char>| segments(token, h, p, s);
    lemma_base64url_is_dot_free(h);
    lemma_base64url_is_dot_free(p);
    lemma_base64url_is_dot_free(s);
    lemma_frame_dots(h, p, s);
    let first = h.len() as int;
    let second = first + 1 + p.len();
    assert forall|i: int| 0 <= i < token.len() && i != first && i != second implies is_base64url_char(
        #[trigger] token[i],
    ) by {
        if i < first {
            assert(token[i] == h[i]);
        } else if i < second {
            assert(token[i] == p[i - first - 1]);
        } else {
            assert(token[i] == s[i - second - 1]);
        }
    }
    assert(dots_at(token, first, second));
}

/// The dots of `token` stand at `first` and `second` and nowhere else, and
/// every other character of it is of the base64url alphabet.
pub open spec fn dots_at(token: Seq<char>, first: int, second: int) -> bool {
    forall|i: int|
        0 <= i < token.len() ==> if i == first || i == second {
            #[trigger] token[i] == '.'
        } else {
            is_base64url_char(token[i])
        }
}

/// Judges a decoded token at the instant `now`.
pub fn check_decoded(decoded: Result<DecodedPayload, DecodeFailure>, now: i64) -> (r: Result<
    Claims,
    AuthError,
>)
    ensures
        outcome_view(r) == verification(decoded_view(decoded), now as int),
{
    match decoded {
        Err(DecodeFailure::Signature) => Err(AuthError::InvalidSignature),
        Err(DecodeFailure::Malformed) => Err(AuthError::MalformedToken),
        Ok(payload) => {
            let DecodedPayload { sub, exp, iat, role, username } = payload;
            match (sub, exp, iat, role, username) {
                (Some(sub), Some(exp), Some(iat), Some(role), Some(username)) => {
                    if now >= exp {
                        Err(AuthError::ExpiredToken)
                    } else {
                        Ok(Claims { sub, exp, iat, role, username })
                    }
                },
                _ => Err(AuthError::MalformedToken),
            }
        },
    }
}

/// Verifies `token` under `secret` at the instant `now`.
pub fn validate_token_at(token: &str, secret: &str, now: i64) -> (r: Result<Claims, AuthError>)
    ensures
        outcome_view(r) == verified(token@, secret@, now as int),
{
    let decoded = decode_hs256(token, secret);
    proof {
        if decoded is Ok {
            let (h, p) = choose|h: Seq<char>, p: Seq<char>|
                three_parts(token@, h, p, hs256_signature(signing_input(h, p), secret@));
            assert(frames(token@, h, p, secret@));
        }
    }
    check_decoded(decoded, now)
}

/// Verifies `token` under `secret` at the instant the clock shows, which is
/// read once.
pub fn validate_token(token: &str, secret: &str) -> (r: Result<Claims, AuthError>)
    ensures
        exists|now: int|
            0 <= now < CLOCK_LIMIT && outcome_view(r) == #[trigger] verified(
                token@,
                secret@,
                now,
            ),
{
    let now: i64 = unix_now();
    validate_token_at(token, secret, now)
}

/// What a refresh at the instant `now` verifies and, if that succeeds,
/// signs: the claim set of the token with a fresh window.
pub open spec fn refreshed_claims(
    token: Seq<char>,
    secret: Seq<char>,
    hours: int,
    now: int,
) -> Result<ClaimsView, AuthError> {
    match verified(token, secret, now) {
        Ok(c) => Ok(c.renewed(hours, now)),
        Err(e) => Err(e),
    }
}

/// Exchanges a token that verifies at `now` for a new one with the same
/// subject, role and name, issued at `now` and expiring `expiration_hours`
/// later. A token that does not verify, an expired one included, fails as
/// it fails verification; no new token is made of it.
pub fn refresh_token_at(token: &str, secret: &str, expiration_hours: i64, now: i64) -> (r: Result<
    String,
    AuthError,
>)
    requires
        0 < expiration_hours <= MAX_LIFETIME_HOURS,
        now + expiration_hours * SECONDS_PER_HOUR <= i64::MAX,
    ensures
        match refreshed_claims(token@, secret@, expiration_hours as int, now as int) {
            Ok(c) => r matches Ok(fresh) && issued(fresh@, c, secret@),
            Err(e) => r == Err::<String, AuthError>(e),
        },
{
    match validate_token_at(token, secret, now) {
        Ok(claims) => {
            let renewed = claims.renew_at(expiration_hours, now);
            create_token(&renewed, secret)
        },
        Err(e) => Err(e),
    }
}

/// Exchanges a token for a fresh one at the instant the clock shows, which
/// is read once.
pub fn refresh_token(token: &str, secret: &str, expiration_hours: i64) -> (r: Result<
    String,
    AuthError,
>)
    requires
        0 < expiration_hours <= MAX_LIFETIME_HOURS,
    ensures
        exists|now: int|
            0 <= now < CLOCK_LIMIT && match #[trigger] refreshed_claims(
                token@,
                secret@,
                expiration_hours as int,
                now,
            ) {
                Ok(c) => r matches Ok(fresh) && issued(fresh@, c, secret@),
                Err(e) => r == Err::<String, AuthError>(e),
            },
{
    let now: i64 = unix_now();
    refresh_token_at(token, secret, expiration_hours, now)
}

/// The codec gives back what it was given: decoding the token made of `c`
/// under the same secret yields exactly the claims of `c`.
pub open spec fn round_trips(c: ClaimsView, secret: Seq<char>) -> bool {
    hs256_payload(hs256_token(c, secret), secret) == Ok::<PayloadView, DecodeFailure>(
        PayloadView::of(c),
    )
}

/// Where the codec round-trips on a claim set, the token issued for it
/// verifies to that claim set at every instant before its expiry.
pub proof fn lemma_issued_token_verifies(
    token: Seq<char>,
    c: ClaimsView,
    secret: Seq<char>,
    now: int,
)
    requires
        issued(token, c, secret),
        round_trips(c, secret),
        now < c.exp,
    ensures
        verified(token, secret, now) == Ok::<ClaimsView, AuthError>(c),
{
    let p = PayloadView::of(c);
    assert(p.complete());
    assert(p.claims() == c);
}

/// Where the codec round-trips on a claim set, the token issued for it
/// fails as expired at its expiry instant and at every later one.
pub proof fn lemma_issued_token_expires(
    token: Seq<char>,
    c: ClaimsView,
    secret: Seq<char>,
    now: int,
)
    requires
        issued(token, c, secret),
        round_trips(c, secret),
        now >= c.exp,
    ensures
        verified(token, secret, now) == Err::<ClaimsView, AuthError>(AuthError::ExpiredToken),
{
    let p = PayloadView::of(c);
    assert(p.complete());
    assert(p.claims() == c);
}

/// Issuing reads nothing but the claims and the secret: two tokens issued
/// for one claim set under one secret are the same token.
pub proof fn lemma_issuing_is_deterministic(
    first: Seq<char>,
    second: Seq<char>,
    c: ClaimsView,
    secret: Seq<char>,
)
    requires
        issued(first, c, secret),
        issued(second, c, secret),
    ensures
        first == second,
{
}

/// A token that verifies at some instant fails as expired at its expiry
/// instant and at every later one.
pub proof fn lemma_expired_token_is_rejected(
    token: Seq<char>,
    secret: Seq<char>,
    earlier: int,
    now: int,
)
    requires
        verified(token, secret, earlier) matches Ok(c) && now >= c.exp,
    ensures
        verified(token, secret, now) == Err::<ClaimsView, AuthError>(AuthError::ExpiredToken),
{
}

/// Verification yields a claim set only for a well-signed token that the
/// decoder accepted, and then the claims of its payload and no others, and
/// only before they expire.
pub proof fn lemma_verified_claims_are_decoded(token: Seq<char>, secret: Seq<char>, now: int)
    requires
        verified(token, secret, now) is Ok,
    ensures
        well_signed(token, secret),
        hs256_payload(token, secret) == Ok::<PayloadView, DecodeFailure>(
            PayloadView::of(verified(token, secret, now)->Ok_0),
        ),
        now < verified(token, secret, now)->Ok_0.exp,
{
}

/// Every failure of verification is a verification failure: a malformed
/// token, an invalid signature or an expired token.
pub proof fn lemma_verification_fails_in_kind(token: Seq<char>, secret: Seq<char>, now: int)
    ensures
        verified(token, secret, now) matches Err(e) ==> e.is_verification_failure(),
{
}

/// An expired token cannot be refreshed: refreshing fails as verification
/// does.
pub proof fn lemma_expired_token_is_not_refreshed(
    token: Seq<char>,
    secret: Seq<char>,
    hours: int,
    earlier: int,
    now: int,
)
    requires
        verified(token, secret, earlier) matches Ok(c) && now >= c.exp,
    ensures
        refreshed_claims(token, secret, hours, now) == Err::<ClaimsView, AuthError>(
            AuthError::ExpiredToken,
        ),
{
}

/// A refresh keeps subject, role and name of the token, and issues at `now`.
pub proof fn lemma_refresh_keeps_identity(
    token: Seq<char>,
    secret: Seq<char>,
    hours: int,
    now: int,
)
    requires
        verified(token, secret, now) matches Ok(c),
    ensures
        refreshed_claims(token, secret, hours, now) matches Ok(fresh) && fresh.sub == verified(
            token,
            secret,
            now,
        )->Ok_0.sub && fresh.role == verified(token, secret, now)->Ok_0.role && fresh.username
            == verified(token, secret, now)->Ok_0.username && fresh.iat == now,
{
}

/// In a framed token the first dot ends the header and the second dot ends
/// the payload; there is no third.
pub proof fn lemma_frame_dots(header: Seq<char>, payload: Seq<char>, signature: Seq<char>)
    requires
        dot_free(header),
        dot_free(payload),
        dot_free(signature),
    ensures
        ({
            let token = signing_input(header, payload) + seq!['.'] + signature;
            let first = header.len() as int;
            let second = first + 1 + payload.len();
            &&& token.len() == second + 1 + signature.len()
            &&& forall|i: int|
                0 <= i < token.len() ==> (#[trigger] token[i] == '.' <==> (i == first || i
                    == second))
            &&& token.subrange(0, first) == header
            &&& token.subrange(first + 1, second) == payload
            &&& token.subrange(second + 1, token.len() as int) == signature
        }),
{
    let token = signing_input(header, payload) + seq!['.'] + signature;
    let a = header.len() as int;
    let b = a + 1 + payload.len();
    assert forall|i: int| 0 <= i < token.len() implies (#[trigger] token[i] == '.' <==> (i == a
        || i == b)) by {
        if i < a {
            assert(token[i] == header[i]);
        } else if i == a {
        } else if i < b {
            assert(token[i] == payload[i - a - 1]);
        } else if i == b {
        } else {
            assert(token[i] == signature[i - b - 1]);
        }
    }
    assert(token.subrange(0, a) =~= header);
    assert(token.subrange(a + 1, b) =~= payload);
    assert(token.subrange(b + 1, token.len() as int) =~= signature);
}

/// A token that differs from a well-signed one in a single character of its
/// signature segment, the part after the last dot, is not well signed under
/// the same secret.
pub proof fn lemma_changed_signature_is_not_well_signed(
    token: Seq<char>,
    secret: Seq<char>,
    at: int,
    c: char,
)
    requires
        well_signed(token, secret),
        0 <= at < token.len(),
        forall|k: int| at <= k < token.len() ==> token[k] != '.',
        c != token[at],
    ensures
        !well_signed(token.update(at, c), secret),
{
    let (h, p) = choose|h: Seq<char>, p: Seq<char>| frames(token, h, p, secret);
    let s = hs256_signature(signing_input(h, p), secret);
    lemma_frame_dots(h, p, s);
    let a = h.len() as int;
    let b = a + 1 + p.len();
    assert(token[a] == '.');
    assert(token[b] == '.');
    assert(at > b);
    let changed = token.update(at, c);
    if well_signed(changed, secret) {
        let (h2, p2) = choose|h2: Seq<char>, p2: Seq<char>| frames(changed, h2, p2, secret);
        let s2 = hs256_signature(signing_input(h2, p2), secret);
        lemma_frame_dots(h2, p2, s2);
        let a2 = h2.len() as int;
        let b2 = a2 + 1 + p2.len();
        assert(changed.len() == token.len());
        assert(changed[a] == '.');
        assert(changed[b] == '.');
        assert(a == a2 || a == b2);
        assert(b == a2 || b == b2);
        assert(a2 == a && b2 == b);
        assert(changed[at] != '.') by {
            assert(at != a2 && at != b2);
        }
        assert(h2 =~= h) by {
            assert(changed.subrange(0, a) =~= token.subrange(0, a));
        }
        assert(p2 =~= p) by {
            assert(changed.subrange(a + 1, b) =~= token.subrange(a + 1, b));
        }
        assert(s2 == s);
        assert(changed.subrange(b + 1, changed.len() as int)[at - b - 1] == c);
        assert(token.subrange(b + 1, token.len() as int)[at - b - 1] == token[at]);
        assert(false);
    }
}

/// A token that differs from a well-signed one, as every issued token is, in
/// a single character of its signature segment never verifies under the same
/// secret: at every instant it fails, and as a verification failure.
pub proof fn lemma_changed_signature_is_rejected(
    token: Seq<char>,
    secret: Seq<char>,
    at: int,
    c: char,
    now: int,
)
    requires
        well_signed(token, secret),
        0 <= at < token.len(),
        forall|k: int| at <= k < token.len() ==> token[k] != '.',
        c != token[at],
    ensures
        verified(token.update(at, c), secret, now) matches Err(e) && e.is_verification_failure(),
{
    lemma_changed_signature_is_not_well_signed(token, secret, at, c);
}

} // verus!
