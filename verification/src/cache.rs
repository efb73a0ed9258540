//! A snapshot of the issuer's keys that is good for a limited time, so that
//! not every verification has to ask the issuer.

use crate::claims::{Claims, ClaimsView};
use crate::error::JwtError;
use crate::extractor::{fetched_keys, keys_from_response, verification_outcome, KeyResponse, KeyResponseView};
use crate::keys::{key_views, CandidateKey, SignatureAlgorithm};
use crate::trial::{outcome_view, trial_outcome, verify_token, VerifierConfig};
use vstd::prelude::*;

verus! {

/// The key set of the last successful fetch, with the time of that fetch. A
/// new key set replaces the old one as a whole; a failed fetch leaves no
/// trace.
#[derive(Clone, Debug)]
pub struct KeyCache {
    /// The keys of the last successful fetch.
    pub keys: Vec<CandidateKey>,
    /// When they were fetched, in seconds since the epoch.
    pub fetched_at: u64,
    /// For how many seconds a key set is used; with 0 the cache is off.
    pub ttl_secs: u64,
    /// Whether a key set was ever stored.
    pub filled: bool,
}

impl KeyCache {
    /// Whether the cache holds keys that may be used at `now`: a key set was
    /// stored, not after `now`, and less than `ttl_secs` seconds ago.
    pub open spec fn fresh_at(&self, now: u64) -> bool {
        self.filled && self.fetched_at <= now && now - self.fetched_at < self.ttl_secs
    }

    /// An empty cache, which is fresh at no time.
    pub fn new(ttl_secs: u64) -> (r: KeyCache)
        ensures
            !r.filled,
            r.ttl_secs == ttl_secs,
            r.keys@.len() == 0,
            forall|now: u64| !r.fresh_at(now),
    {
        KeyCache { keys: Vec::new(), fetched_at: 0, ttl_secs, filled: false }
    }

    /// Whether the keys may be used at `now`; if not, the issuer has to be
    /// asked.
    pub fn is_fresh(&self, now: u64) -> (r: bool)
        ensures
            r == self.fresh_at(now),
    {
        self.filled && self.fetched_at <= now && now - self.fetched_at < self.ttl_secs
    }

    /// Takes over the keys of an answer fetched at `now`. An answer without
    /// keys is `KeySourceUnavailable` and changes nothing.
    pub fn refresh(&mut self, response: &KeyResponse, now: u64) -> (r: Result<(), JwtError>)
        ensures
            match fetched_keys(response@) {
                Some(keys) => {
                    &&& r is Ok
                    &&& key_views(final(self).keys@) == keys
                    &&& final(self).fetched_at == now
                    &&& final(self).filled
                    &&& final(self).ttl_secs == old(self).ttl_secs
                },
                None => r == Err::<(), JwtError>(JwtError::KeySourceUnavailable) && *final(self)
                    == *old(self),
            },
    {
        match keys_from_response(response) {
            Ok(keys) => {
                self.keys = keys;
                self.fetched_at = now;
                self.filled = true;
                Ok(())
            },
            Err(e) => Err(e),
        }
    }

    /// Verifies a token at `now`, with the cached keys while they are fresh
    /// and with those of `response` otherwise. A fresh cache is left as it is
    /// and the answer is not looked at; a stale one takes over the keys of
    /// the answer, or fails with `KeySourceUnavailable` and stays as it is
    /// where there is no answer or the answer holds no keys.
    pub fn verify(
        &mut self,
        token: &str,
        response: Option<&KeyResponse>,
        config: &VerifierConfig,
        now: u64,
    ) -> (r: Result<Claims, JwtError>)
        ensures
            outcome_view(r) == cached_outcome(
                *old(self),
                token@,
                response_view(response),
                config.algorithm,
                config.audience@,
                now,
            ),
            old(self).fresh_at(now) ==> *final(self) == *old(self),
            !old(self).fresh_at(now) ==> match response_keys(response_view(response)) {
                Some(keys) => {
                    &&& key_views(final(self).keys@) == keys
                    &&& final(self).fetched_at == now
                    &&& final(self).filled
                    &&& final(self).ttl_secs == old(self).ttl_secs
                },
                None => *final(self) == *old(self),
            },
    {
        if !self.is_fresh(now) {
            match response {
                None => {
                    return Err(JwtError::KeySourceUnavailable);
                },
                Some(answer) => match self.refresh(answer, now) {
                    Ok(()) => {},
                    Err(e) => {
                        return Err(e);
                    },
                },
            }
        }
        verify_token(token, &self.keys, config, now)
    }
}

/// The view of an answer that may not be there.
pub open spec fn response_view(response: Option<&KeyResponse>) -> Option<KeyResponseView> {
    match response {
        Some(answer) => Some(answer@),
        None => None,
    }
}

/// The keys of an answer that may not be there.
pub open spec fn response_keys(response: Option<KeyResponseView>) -> Option<
    Seq<(Seq<char>, Seq<char>)>,
> {
    match response {
        Some(answer) => fetched_keys(answer),
        None => None,
    }
}

/// The outcome of verifying through a cache: by the cached keys while they
/// are fresh, else by the keys of the answer, else `KeySourceUnavailable`.
pub open spec fn cached_outcome(
    cache: KeyCache,
    token: Seq<char>,
    response: Option<KeyResponseView>,
    alg: SignatureAlgorithm,
    audience: Seq<char>,
    now: u64,
) -> Result<ClaimsView, JwtError> {
    if cache.fresh_at(now) {
        trial_outcome(token, key_views(cache.keys@), alg, audience, now as nat)
    } else {
        match response_keys(response) {
            Some(keys) => trial_outcome(token, keys, alg, audience, now as nat),
            None => Err(JwtError::KeySourceUnavailable),
        }
    }
}

/// A cache changes no outcome: a token verified through a cache that holds
/// the keys of an answer is judged as it is against that answer itself, and
/// a cache that is switched off or stale gives way to the answer at hand.
pub proof fn cache_changes_no_outcome(
    cache: KeyCache,
    source: KeyResponseView,
    token: Seq<char>,
    response: Option<KeyResponseView>,
    alg: SignatureAlgorithm,
    audience: Seq<char>,
    now: u64,
)
    requires
        fetched_keys(source) == Some(key_views(cache.keys@)),
    ensures
        cache.fresh_at(now) ==> cached_outcome(cache, token, response, alg, audience, now)
            == verification_outcome(token, source, alg, audience, now as nat),
        !cache.fresh_at(now) && response is Some ==> cached_outcome(
            cache,
            token,
            response,
            alg,
            audience,
            now,
        ) == verification_outcome(token, response->Some_0, alg, audience, now as nat),
        cache.ttl_secs == 0 ==> !cache.fresh_at(now),
{
}

} // verus!
