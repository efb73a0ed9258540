//! Trial verification: a token is tried against each candidate key in turn,
//! and the first key that accepts it decides.

use crate::claims::{
    acceptable, accepted_claims, claims_of, Claims, ClaimsView, MemberView, RawClaims,
    RawClaimsView,
};
use crate::der::{nesting_within, shallow, MAX_NESTING};
use crate::error::JwtError;
use crate::keys::{
    decode_pem, decode_signed, json_members, key_views, member, member_at, parse_rsa_pem,
    pem_contents, pem_key, signed_payload, CandidateKey, SignatureAlgorithm, MAX_PEM_LEN,
};
use vstd::prelude::*;

verus! {

/// What a verifier has to be told: nothing of it is built in.
#[derive(Clone, Debug)]
pub struct VerifierConfig {
    /// The one audience that tokens must be issued for.
    pub audience: String,
    /// The one signature scheme that is accepted.
    pub algorithm: SignatureAlgorithm,
    /// Where the issuer publishes its keys.
    pub key_endpoint: String,
    /// How many seconds a fetch of the keys may take.
    pub fetch_timeout_secs: u64,
}

impl VerifierConfig {
    /// A configuration of the four settings.
    pub fn new(
        audience: String,
        algorithm: SignatureAlgorithm,
        key_endpoint: String,
        fetch_timeout_secs: u64,
    ) -> (r: VerifierConfig)
        ensures
            r.audience == audience,
            r.algorithm == algorithm,
            r.key_endpoint == key_endpoint,
            r.fetch_timeout_secs == fetch_timeout_secs,
    {
        VerifierConfig { audience, algorithm, key_endpoint, fetch_timeout_secs }
    }
}

/// The six members of a payload that claims are made of.
pub open spec fn raw_claims_of(members: Map<Seq<char>, MemberView>) -> RawClaimsView {
    RawClaimsView {
        sub: member_at(members, "sub"@),
        aud: member_at(members, "aud"@),
        exp: member_at(members, "exp"@),
        iat: member_at(members, "iat"@),
        email: member_at(members, "email"@),
        name: member_at(members, "name"@),
    }
}

/// The key that a PEM text is read as: the RSA key that `jsonwebtoken`
/// reads from it, where the text has at most [`MAX_PEM_LEN`] characters and
/// its contents are nested no deeper than a key's; none otherwise.
pub open spec fn readable_key(pem: Seq<char>) -> Option<Seq<u8>> {
    if pem.len() <= MAX_PEM_LEN && pem_contents(pem) is Some && shallow(pem_contents(pem)->Some_0) {
        pem_key(pem)
    } else {
        None
    }
}

/// The payload of a token under a key, given as PEM text: none where the key
/// is unreadable or does not accept structure and signature of the token.
pub open spec fn accepted_payload(token: Seq<char>, pem: Seq<char>, alg: SignatureAlgorithm)
    -> Option<Map<Seq<char>, MemberView>> {
    match readable_key(pem) {
        Some(key) => signed_payload(token, key, alg),
        None => None,
    }
}

/// Whether a key, given as PEM text, is readable and accepts the signature of
/// a token.
pub open spec fn signature_accepted(token: Seq<char>, pem: Seq<char>, alg: SignatureAlgorithm)
    -> bool {
    accepted_payload(token, pem, alg) is Some
}

/// The claims that a token holds under a key, whatever they say: none where
/// the key is unreadable, the signature is not accepted or the payload does
/// not have the shape of claims.
pub open spec fn decoded_claims(token: Seq<char>, pem: Seq<char>, alg: SignatureAlgorithm)
    -> Option<ClaimsView> {
    match accepted_payload(token, pem, alg) {
        Some(members) => claims_of(raw_claims_of(members)),
        None => None,
    }
}

/// What one candidate key makes of a token: the claims of the payload under
/// that key, where it has one and they are acceptable for the audience at
/// `now`.
pub open spec fn key_outcome(
    token: Seq<char>,
    pem: Seq<char>,
    alg: SignatureAlgorithm,
    audience: Seq<char>,
    now: nat,
) -> Option<ClaimsView> {
    match accepted_payload(token, pem, alg) {
        Some(members) => accepted_claims(raw_claims_of(members), audience, now),
        None => None,
    }
}

/// The outcome of trying the keys from position `from` on, in order.
pub open spec fn trial_from(
    token: Seq<char>,
    keys: Seq<(Seq<char>, Seq<char>)>,
    alg: SignatureAlgorithm,
    audience: Seq<char>,
    now: nat,
    from: int,
) -> Result<ClaimsView, JwtError>
    decreases keys.len() - from,
{
    if from < 0 || from >= keys.len() {
        Err(JwtError::NoValidKeyError)
    } else {
        match key_outcome(token, keys[from].1, alg, audience, now) {
            Some(c) => Ok(c),
            None => trial_from(token, keys, alg, audience, now, from + 1),
        }
    }
}

/// The outcome of trial verification: the claims under the first key that
/// accepts the token, or `NoValidKeyError` where none does.
pub open spec fn trial_outcome(
    token: Seq<char>,
    keys: Seq<(Seq<char>, Seq<char>)>,
    alg: SignatureAlgorithm,
    audience: Seq<char>,
    now: nat,
) -> Result<ClaimsView, JwtError> {
    trial_from(token, keys, alg, audience, now, 0)
}

/// The mathematical value of a verification result.
pub open spec fn outcome_view(r: Result<Claims, JwtError>) -> Result<ClaimsView, JwtError> {
    match r {
        Ok(c) => Ok(c@),
        Err(e) => Err(e),
    }
}

/// Picks the six members of the claims out of a decoded payload.
pub(crate) fn read_payload(payload: &serde_json::Value) -> (r: RawClaims)
    ensures
        r@ == raw_claims_of(json_members(*payload)),
{
    RawClaims {
        sub: member(payload, "sub"),
        aud: member(payload, "aud"),
        exp: member(payload, "exp"),
        iat: member(payload, "iat"),
        email: member(payload, "email"),
        name: member(payload, "name"),
    }
}

/// Tries one candidate key: reads the PEM text, checks structure and
/// signature of the token, reads the claims and checks them for the audience
/// at `now`. An unreadable key is a failure of this key only, and so is a
/// text that is too long or nested too deep, which is not read as a key at
/// all.
pub fn try_key(token: &str, key: &CandidateKey, config: &VerifierConfig, now: u64) -> (r: Option<
    Claims,
>)
    ensures
        match r {
            Some(c) => key_outcome(token@, key.pem@, config.algorithm, config.audience@, now as nat)
                == Some(c@),
            None => key_outcome(token@, key.pem@, config.algorithm, config.audience@, now as nat)
                is None,
        },
{
    if key.pem.as_str().unicode_len() > MAX_PEM_LEN {
        return None;
    }
    match decode_pem(key.pem.as_str()) {
        Some(der) => {
            if !nesting_within(der.as_slice(), MAX_NESTING) {
                return None;
            }
        },
        None => {
            return None;
        },
    }
    let parsed = match parse_rsa_pem(key.pem.as_str()) {
        Some(parsed) => parsed,
        None => {
            return None;
        },
    };
    let payload = match decode_signed(token, &parsed, config.algorithm) {
        Some(payload) => payload,
        None => {
            return None;
        },
    };
    let raw = read_payload(&payload);
    Claims::accept(&raw, config.audience.as_str(), now)
}

/// Trial verification of a token against the candidate keys, at the time
/// `now` in seconds since the epoch. The keys are tried in the order of the
/// list; the first that accepts the token ends the trial, and no later key is
/// looked at. Where none accepts it, the answer is `NoValidKeyError`, whatever
/// went wrong under each key.
pub fn verify_token(token: &str, keys: &Vec<CandidateKey>, config: &VerifierConfig, now: u64) -> (r:
    Result<Claims, JwtError>)
    ensures
        outcome_view(r) == trial_outcome(
            token@,
            key_views(keys@),
            config.algorithm,
            config.audience@,
            now as nat,
        ),
        r matches Ok(c) ==> acceptable(c@, config.audience@, now as nat),
        r matches Err(e) ==> e == JwtError::NoValidKeyError,
{
    let ghost views = key_views(keys@);
    let mut i: usize = 0;
    while i < keys.len()
        invariant
            i <= keys.len(),
            views == key_views(keys@),
            trial_outcome(token@, views, config.algorithm, config.audience@, now as nat)
                == trial_from(token@, views, config.algorithm, config.audience@, now as nat, i as int),
        decreases keys.len() - i,
    {
        assert(views[i as int].1 == keys[i as int].pem@);
        match try_key(token, &keys[i], config, now) {
            Some(claims) => {
                return Ok(claims);
            },
            None => {},
        }
        i += 1;
    }
    Err(JwtError::NoValidKeyError)
}

} // verus!
