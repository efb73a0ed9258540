//! The boundary of the library: from the credential of a request and the
//! issuer's answer to an identity or a classified failure.

use crate::claims::{acceptable, Claims, ClaimsView, JwtAuth};
use crate::error::JwtError;
use crate::keys::{
    distinct_key_ids, key_set_of, key_views, parse_key_object, CandidateKey, SignatureAlgorithm,
};
use crate::trial::{key_outcome, outcome_view, trial_outcome, verify_token, VerifierConfig};
use crate::trial_laws::{rejected_at, trial_cases};
use vstd::prelude::*;

verus! {

/// What came of asking the issuer for its keys.
#[derive(Clone, Debug)]
pub enum KeyResponse {
    /// No answer: the network failed or the time allowed ran out.
    Unreachable,
    /// An answer, with its transport status and its body.
    Answer { status: u16, body: String },
}

/// The mathematical value of a [`KeyResponse`].
pub ghost enum KeyResponseView {
    Unreachable,
    Answer { status: u16, body: Seq<char> },
}

impl View for KeyResponse {
    type V = KeyResponseView;

    open spec fn view(&self) -> KeyResponseView {
        match self {
            KeyResponse::Unreachable => KeyResponseView::Unreachable,
            KeyResponse::Answer { status, body } => KeyResponseView::Answer {
                status: *status,
                body: body@,
            },
        }
    }
}

/// The scheme that a credential must begin with, the blank included.
pub open spec fn bearer_prefix() -> Seq<char> {
    "Bearer "@
}

/// The token of a credential: what follows the scheme. A request without a
/// credential is `MissingToken`, a credential without the scheme
/// `InvalidToken`.
pub open spec fn normalized(header: Option<Seq<char>>) -> Result<Seq<char>, JwtError> {
    match header {
        None => Err(JwtError::MissingToken),
        Some(h) => if bearer_prefix().is_prefix_of(h) {
            Ok(h.subrange(bearer_prefix().len() as int, h.len() as int))
        } else {
            Err(JwtError::InvalidToken)
        },
    }
}

/// Whether a transport status reports success.
pub open spec fn status_ok(status: u16) -> bool {
    200 <= status < 300
}

/// The keys that an answer of the issuer holds: none where there was no
/// answer, where its status is not one of success, or where its body is not a
/// key set.
pub open spec fn fetched_keys(response: KeyResponseView) -> Option<Seq<(Seq<char>, Seq<char>)>> {
    match response {
        KeyResponseView::Unreachable => None,
        KeyResponseView::Answer { status, body } => if status_ok(status) {
            key_set_of(body)
        } else {
            None
        },
    }
}

/// The outcome of verifying a token against the issuer's answer: without keys
/// it is `KeySourceUnavailable`, whatever the token; with keys it is the
/// outcome of trial verification.
pub open spec fn verification_outcome(
    token: Seq<char>,
    response: KeyResponseView,
    alg: SignatureAlgorithm,
    audience: Seq<char>,
    now: nat,
) -> Result<ClaimsView, JwtError> {
    match fetched_keys(response) {
        None => Err(JwtError::KeySourceUnavailable),
        Some(keys) => trial_outcome(token, keys, alg, audience, now),
    }
}

/// The outcome of a whole extraction, from the credential on.
pub open spec fn extraction_outcome(
    header: Option<Seq<char>>,
    response: KeyResponseView,
    alg: SignatureAlgorithm,
    audience: Seq<char>,
    now: nat,
) -> Result<ClaimsView, JwtError> {
    match normalized(header) {
        Err(e) => Err(e),
        Ok(token) => verification_outcome(token, response, alg, audience, now),
    }
}

/// The credential of a request, as the transport hands it over.
#[derive(Clone, Copy, Debug)]
pub enum Credential<'a> {
    /// The request carries none.
    Absent,
    /// The request carries one that is no text.
    NotText,
    /// The request carries this text.
    Text(&'a str),
}

/// The token of a credential: a request without a credential is
/// `MissingToken`, a credential that is no text or lacks the scheme is
/// `InvalidToken`, and the token is what follows the scheme.
pub open spec fn credential_outcome(credential: Credential<'_>) -> Result<Seq<char>, JwtError> {
    match credential {
        Credential::Absent => Err(JwtError::MissingToken),
        Credential::NotText => Err(JwtError::InvalidToken),
        Credential::Text(text) => normalized(Some(text@)),
    }
}

/// The view of an optional credential.
pub open spec fn header_view(header: Option<&str>) -> Option<Seq<char>> {
    match header {
        Some(h) => Some(h@),
        None => None,
    }
}

/// Whether `text` begins with `prefix`.
pub fn starts_with(text: &str, prefix: &str) -> (r: bool)
    ensures
        r == prefix@.is_prefix_of(text@),
{
    let n: usize = prefix.unicode_len();
    if text.unicode_len() < n {
        return false;
    }
    let mut i: usize = 0;
    while i < n
        invariant
            n == prefix@.len(),
            n <= text@.len(),
            i <= n,
            forall|k: int| 0 <= k < i ==> text@[k] == prefix@[k],
        decreases n - i,
    {
        if text.get_char(i) != prefix.get_char(i) {
            assert(text@.subrange(0, n as int)[i as int] != prefix@[i as int]);
            return false;
        }
        i += 1;
    }
    assert(prefix@ =~= text@.subrange(0, n as int));
    true
}

/// Takes the token out of the credential of a request, before anything is
/// asked of the issuer.
pub fn bearer_token(header: Option<&str>) -> (r: Result<String, JwtError>)
    ensures
        match r {
            Ok(token) => normalized(header_view(header)) == Ok::<Seq<char>, JwtError>(token@),
            Err(e) => normalized(header_view(header)) == Err::<Seq<char>, JwtError>(e),
        },
        header is None <==> r == Err::<String, JwtError>(JwtError::MissingToken),
{
    match header {
        None => Err(JwtError::MissingToken),
        Some(h) => {
            if starts_with(h, "Bearer ") {
                let from: usize = "Bearer ".unicode_len();
                let to: usize = h.unicode_len();
                Ok(h.substring_char(from, to).to_owned())
            } else {
                Err(JwtError::InvalidToken)
            }
        },
    }
}

/// Takes the token out of a credential that may be absent or no text.
pub fn credential_token(credential: Credential<'_>) -> (r: Result<String, JwtError>)
    ensures
        match r {
            Ok(token) => credential_outcome(credential) == Ok::<Seq<char>, JwtError>(token@),
            Err(e) => credential_outcome(credential) == Err::<Seq<char>, JwtError>(e),
        },
{
    match credential {
        Credential::Absent => Err(JwtError::MissingToken),
        Credential::NotText => Err(JwtError::InvalidToken),
        Credential::Text(text) => bearer_token(Some(text)),
    }
}

/// Reads the candidate keys out of the issuer's answer. Each answer replaces
/// the key set as a whole.
pub fn keys_from_response(response: &KeyResponse) -> (r: Result<Vec<CandidateKey>, JwtError>)
    ensures
        match r {
            Ok(keys) => fetched_keys(response@) == Some(key_views(keys@)) && distinct_key_ids(
                key_views(keys@),
            ),
            Err(e) => e == JwtError::KeySourceUnavailable && fetched_keys(response@) is None,
        },
{
    match response {
        KeyResponse::Unreachable => Err(JwtError::KeySourceUnavailable),
        KeyResponse::Answer { status, body } => {
            if *status < 200 || *status >= 300 {
                return Err(JwtError::KeySourceUnavailable);
            }
            match parse_key_object(body.as_str()) {
                Some(keys) => Ok(keys),
                None => Err(JwtError::KeySourceUnavailable),
            }
        },
    }
}

/// Verifies a token against the issuer's answer, at the time `now` in seconds
/// since the epoch. Where the answer holds no keys the token is not looked
/// at.
pub fn extract_jwt_token(token: &str, response: &KeyResponse, config: &VerifierConfig, now: u64)
    -> (r: Result<Claims, JwtError>)
    ensures
        outcome_view(r) == verification_outcome(
            token@,
            response@,
            config.algorithm,
            config.audience@,
            now as nat,
        ),
{
    match keys_from_response(response) {
        Err(e) => Err(e),
        Ok(keys) => verify_token(token, &keys, config, now),
    }
}

impl JwtAuth {
    /// The whole extraction in one step, for a caller that already holds the
    /// issuer's answer: the credential is checked first, and a request that
    /// fails there is answered without a look at the keys.
    pub fn from_header(
        header: Option<&str>,
        response: &KeyResponse,
        config: &VerifierConfig,
        now: u64,
    ) -> (r: Result<JwtAuth, JwtError>)
        ensures
            match r {
                Ok(auth) => extraction_outcome(
                    header_view(header),
                    response@,
                    config.algorithm,
                    config.audience@,
                    now as nat,
                ) == Ok::<ClaimsView, JwtError>(auth.0@),
                Err(e) => extraction_outcome(
                    header_view(header),
                    response@,
                    config.algorithm,
                    config.audience@,
                    now as nat,
                ) == Err::<ClaimsView, JwtError>(e),
            },
    {
        let token = match bearer_token(header) {
            Ok(token) => token,
            Err(e) => {
                return Err(e);
            },
        };
        match extract_jwt_token(token.as_str(), response, config, now) {
            Ok(claims) => Ok(JwtAuth(claims)),
            Err(e) => Err(e),
        }
    }
}

/// Each outcome of an extraction comes on its own inputs and on no others:
/// `MissingToken` without a credential; `InvalidToken` with a credential that
/// lacks the scheme; `KeySourceUnavailable` with a well-formed credential
/// and no keys; `NoValidKeyError` with keys of which none accepts the token;
/// and claims where a key accepts it, which are then those under one of the
/// keys.
pub proof fn extraction_cases(
    header: Option<Seq<char>>,
    response: KeyResponseView,
    alg: SignatureAlgorithm,
    audience: Seq<char>,
    now: nat,
)
    ensures
        ({
            let outcome = extraction_outcome(header, response, alg, audience, now);
            let well_formed = header is Some && bearer_prefix().is_prefix_of(header->Some_0);
            let token = normalized(header)->Ok_0;
            let keys = fetched_keys(response)->Some_0;
            let have_keys = well_formed && fetched_keys(response) is Some;
            &&& outcome == Err::<ClaimsView, JwtError>(JwtError::MissingToken) <==> header is None
            &&& outcome == Err::<ClaimsView, JwtError>(JwtError::InvalidToken) <==> header is Some
                && !well_formed
            &&& outcome == Err::<ClaimsView, JwtError>(JwtError::KeySourceUnavailable)
                <==> well_formed && fetched_keys(response) is None
            &&& outcome == Err::<ClaimsView, JwtError>(JwtError::NoValidKeyError) <==> have_keys
                && forall|i: int|
                0 <= i < keys.len() ==> #[trigger] rejected_at(token, keys, alg, audience, now, i)
            &&& outcome is Ok <==> have_keys && exists|i: int|
                0 <= i < keys.len() && !#[trigger] rejected_at(token, keys, alg, audience, now, i)
            &&& outcome matches Ok(c) ==> acceptable(c, audience, now) && exists|i: int|
                0 <= i < keys.len() && #[trigger] key_outcome(token, keys[i].1, alg, audience, now)
                    == Some(c)
        }),
{
    let well_formed = header is Some && bearer_prefix().is_prefix_of(header->Some_0);
    if well_formed && fetched_keys(response) is Some {
        let token = normalized(header)->Ok_0;
        let keys = fetched_keys(response)->Some_0;
        trial_cases(token, keys, alg, audience, now, 0);
        match trial_outcome(token, keys, alg, audience, now) {
            Ok(c) => {
                let i = choose|i: int|
                    0 <= i < keys.len() && #[trigger] key_outcome(
                        token,
                        keys[i].1,
                        alg,
                        audience,
                        now,
                    ) == Some(c);
                assert(!rejected_at(token, keys, alg, audience, now, i));
            },
            Err(e) => {},
        }
    }
}

/// A request without a credential is answered with `MissingToken`, and one
/// whose credential lacks the scheme with `InvalidToken`, whatever the issuer
/// answered: the keys are never looked at.
pub proof fn bad_credentials_end_the_extraction(
    header: Option<Seq<char>>,
    response: KeyResponseView,
    alg: SignatureAlgorithm,
    audience: Seq<char>,
    now: nat,
)
    ensures
        header is None ==> extraction_outcome(header, response, alg, audience, now) == Err::<
            ClaimsView,
            JwtError,
        >(JwtError::MissingToken),
        header matches Some(h) && !bearer_prefix().is_prefix_of(h) ==> extraction_outcome(
            header,
            response,
            alg,
            audience,
            now,
        ) == Err::<ClaimsView, JwtError>(JwtError::InvalidToken),
{
}

/// Where the issuer's keys cannot be had, a well-formed credential is
/// answered with `KeySourceUnavailable`, whatever its token holds; no failure
/// of the key source is ever reported as `NoValidKeyError`.
pub proof fn outage_is_key_source_unavailable(
    token: Seq<char>,
    response: KeyResponseView,
    alg: SignatureAlgorithm,
    audience: Seq<char>,
    now: nat,
)
    requires
        fetched_keys(response) is None,
    ensures
        verification_outcome(token, response, alg, audience, now) == Err::<ClaimsView, JwtError>(
            JwtError::KeySourceUnavailable,
        ),
{
}

} // verus!
