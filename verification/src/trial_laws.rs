//! What holds of trial verification for every token and every key set.

use crate::claims::{acceptable, ClaimsView};
use crate::error::JwtError;
use crate::keys::SignatureAlgorithm;
use crate::trial::{decoded_claims, key_outcome, signature_accepted, trial_from, trial_outcome};
use vstd::prelude::*;

verus! {

/// Whether the key at position `i` rejects the token.
pub open spec fn rejected_at(
    token: Seq<char>,
    keys: Seq<(Seq<char>, Seq<char>)>,
    alg: SignatureAlgorithm,
    audience: Seq<char>,
    now: nat,
    i: int,
) -> bool {
    key_outcome(token, keys[i].1, alg, audience, now) is None
}

/// A trial from `from` on succeeds with the claims of one of the keys it
/// looks at, or fails with `NoValidKeyError` where each of them rejects the
/// token.
pub proof fn trial_cases(
    token: Seq<char>,
    keys: Seq<(Seq<char>, Seq<char>)>,
    alg: SignatureAlgorithm,
    audience: Seq<char>,
    now: nat,
    from: int,
)
    requires
        0 <= from,
    ensures
        match trial_from(token, keys, alg, audience, now, from) {
            Ok(c) => exists|i: int|
                from <= i < keys.len() && #[trigger] key_outcome(
                    token,
                    keys[i].1,
                    alg,
                    audience,
                    now,
                ) == Some(c),
            Err(e) => e == JwtError::NoValidKeyError && forall|i: int|
                from <= i < keys.len() ==> #[trigger] rejected_at(
                    token,
                    keys,
                    alg,
                    audience,
                    now,
                    i,
                ),
        },
    decreases keys.len() - from,
{
    if from < keys.len() {
        match key_outcome(token, keys[from].1, alg, audience, now) {
            Some(c) => {},
            None => {
                trial_cases(token, keys, alg, audience, now, from + 1);
                match trial_from(token, keys, alg, audience, now, from + 1) {
                    Ok(c) => {
                        let i = choose|i: int|
                            from + 1 <= i < keys.len() && #[trigger] key_outcome(
                                token,
                                keys[i].1,
                                alg,
                                audience,
                                now,
                            ) == Some(c);
                        assert(from <= i < keys.len() && key_outcome(
                            token,
                            keys[i].1,
                            alg,
                            audience,
                            now,
                        ) == Some(c));
                    },
                    Err(e) => {
                        assert forall|i: int| from <= i < keys.len() implies #[trigger] rejected_at(
                            token,
                            keys,
                            alg,
                            audience,
                            now,
                            i,
                        ) by {
                            if i > from {
                                assert(rejected_at(token, keys, alg, audience, now, i));
                            }
                        }
                    },
                }
            },
        }
    }
}

/// Where every key from `from` on rejects the token, the trial from there
/// fails.
proof fn all_rejected_fails(
    token: Seq<char>,
    keys: Seq<(Seq<char>, Seq<char>)>,
    alg: SignatureAlgorithm,
    audience: Seq<char>,
    now: nat,
    from: int,
)
    requires
        0 <= from,
        forall|i: int|
            from <= i < keys.len() ==> #[trigger] rejected_at(token, keys, alg, audience, now, i),
    ensures
        trial_from(token, keys, alg, audience, now, from) == Err::<ClaimsView, JwtError>(
            JwtError::NoValidKeyError,
        ),
    decreases keys.len() - from,
{
    if from < keys.len() {
        assert(rejected_at(token, keys, alg, audience, now, from));
        all_rejected_fails(token, keys, alg, audience, now, from + 1);
    }
}

/// Where the key at `j` accepts the token and every key from `from` up to it
/// rejects it, the trial from `from` gives the claims under the key at `j`.
proof fn first_accepting_key_decides(
    token: Seq<char>,
    keys: Seq<(Seq<char>, Seq<char>)>,
    alg: SignatureAlgorithm,
    audience: Seq<char>,
    now: nat,
    from: int,
    j: int,
)
    requires
        0 <= from <= j < keys.len(),
        !rejected_at(token, keys, alg, audience, now, j),
        forall|i: int| from <= i < j ==> #[trigger] rejected_at(token, keys, alg, audience, now, i),
    ensures
        trial_from(token, keys, alg, audience, now, from) == Ok::<ClaimsView, JwtError>(
            key_outcome(token, keys[j].1, alg, audience, now)->Some_0,
        ),
    decreases j - from,
{
    if from < j {
        assert(rejected_at(token, keys, alg, audience, now, from));
        first_accepting_key_decides(token, keys, alg, audience, now, from + 1, j);
    }
}

/// A token signed by a key that is not in the key set is answered with
/// `NoValidKeyError`: where no candidate key accepts the signature, nothing
/// else about the token matters.
pub proof fn unknown_signer_is_rejected(
    token: Seq<char>,
    keys: Seq<(Seq<char>, Seq<char>)>,
    alg: SignatureAlgorithm,
    audience: Seq<char>,
    now: nat,
)
    requires
        forall|i: int| 0 <= i < keys.len() ==> !#[trigger] signature_accepted(token, keys[i].1, alg),
    ensures
        trial_outcome(token, keys, alg, audience, now) == Err::<ClaimsView, JwtError>(
            JwtError::NoValidKeyError,
        ),
{
    assert forall|i: int| 0 <= i < keys.len() implies #[trigger] rejected_at(
        token,
        keys,
        alg,
        audience,
        now,
        i,
    ) by {
        assert(!signature_accepted(token, keys[i].1, alg));
    }
    all_rejected_fails(token, keys, alg, audience, now, 0);
}

/// A token whose audience is not the expected one fails, though signature and
/// expiry be good: where the claims under every key that decodes the token
/// name another audience, the answer is `NoValidKeyError`.
pub proof fn wrong_audience_is_rejected(
    token: Seq<char>,
    keys: Seq<(Seq<char>, Seq<char>)>,
    alg: SignatureAlgorithm,
    audience: Seq<char>,
    now: nat,
)
    requires
        forall|i: int|
            0 <= i < keys.len() ==> (#[trigger] decoded_claims(token, keys[i].1, alg) matches Some(
                c,
            ) ==> c.aud != audience),
    ensures
        trial_outcome(token, keys, alg, audience, now) == Err::<ClaimsView, JwtError>(
            JwtError::NoValidKeyError,
        ),
{
    assert forall|i: int| 0 <= i < keys.len() implies #[trigger] rejected_at(
        token,
        keys,
        alg,
        audience,
        now,
        i,
    ) by {
        let d = decoded_claims(token, keys[i].1, alg);
        assert(d matches Some(c) ==> c.aud != audience);
    }
    all_rejected_fails(token, keys, alg, audience, now, 0);
}

/// A token whose expiry is at or before the time of verification fails,
/// whatever its signature: where the claims under every key that decodes the
/// token expire no later than `now`, the answer is `NoValidKeyError`.
pub proof fn expired_token_is_rejected(
    token: Seq<char>,
    keys: Seq<(Seq<char>, Seq<char>)>,
    alg: SignatureAlgorithm,
    audience: Seq<char>,
    now: nat,
)
    requires
        forall|i: int|
            0 <= i < keys.len() ==> (#[trigger] decoded_claims(token, keys[i].1, alg) matches Some(
                c,
            ) ==> c.exp <= now),
    ensures
        trial_outcome(token, keys, alg, audience, now) == Err::<ClaimsView, JwtError>(
            JwtError::NoValidKeyError,
        ),
{
    assert forall|i: int| 0 <= i < keys.len() implies #[trigger] rejected_at(
        token,
        keys,
        alg,
        audience,
        now,
        i,
    ) by {
        let d = decoded_claims(token, keys[i].1, alg);
        assert(d matches Some(c) ==> c.exp <= now);
    }
    all_rejected_fails(token, keys, alg, audience, now, 0);
}

/// Where exactly one of the candidate keys accepts a token, verification
/// succeeds with the claims decoded under that key, wherever in the list the
/// key stands.
pub proof fn single_valid_key_decides(
    token: Seq<char>,
    keys: Seq<(Seq<char>, Seq<char>)>,
    alg: SignatureAlgorithm,
    audience: Seq<char>,
    now: nat,
    j: int,
)
    requires
        0 <= j < keys.len(),
        !rejected_at(token, keys, alg, audience, now, j),
        forall|i: int|
            0 <= i < keys.len() && i != j ==> #[trigger] rejected_at(
                token,
                keys,
                alg,
                audience,
                now,
                i,
            ),
    ensures
        trial_outcome(token, keys, alg, audience, now) == Ok::<ClaimsView, JwtError>(
            decoded_claims(token, keys[j].1, alg)->Some_0,
        ),
{
    first_accepting_key_decides(token, keys, alg, audience, now, 0, j);
}

/// The order of the keys does not matter: two lists of the same keys, one
/// of which holds exactly one key that accepts the token, give the same
/// outcome.
pub proof fn key_order_is_immaterial(
    token: Seq<char>,
    keys: Seq<(Seq<char>, Seq<char>)>,
    reordered: Seq<(Seq<char>, Seq<char>)>,
    alg: SignatureAlgorithm,
    audience: Seq<char>,
    now: nat,
    j: int,
)
    requires
        keys.to_multiset() == reordered.to_multiset(),
        0 <= j < keys.len(),
        !rejected_at(token, keys, alg, audience, now, j),
        forall|i: int|
            0 <= i < keys.len() && i != j ==> #[trigger] rejected_at(
                token,
                keys,
                alg,
                audience,
                now,
                i,
            ),
    ensures
        trial_outcome(token, keys, alg, audience, now) == trial_outcome(
            token,
            reordered,
            alg,
            audience,
            now,
        ),
{
    single_valid_key_decides(token, keys, alg, audience, now, j);
    trial_cases(token, reordered, alg, audience, now, 0);
    assert(keys.contains(keys[j]));
    vstd::seq_lib::to_multiset_contains(keys, keys[j]);
    vstd::seq_lib::to_multiset_contains(reordered, keys[j]);
    assert(reordered.contains(keys[j]));
    let jr = choose|jr: int| 0 <= jr < reordered.len() && reordered[jr] == keys[j];
    assert(!rejected_at(token, reordered, alg, audience, now, jr));
    match trial_outcome(token, reordered, alg, audience, now) {
        Ok(c) => {
            let i = choose|i: int|
                0 <= i < reordered.len() && #[trigger] key_outcome(
                    token,
                    reordered[i].1,
                    alg,
                    audience,
                    now,
                ) == Some(c);
            assert(reordered.contains(reordered[i]));
            vstd::seq_lib::to_multiset_contains(reordered, reordered[i]);
            vstd::seq_lib::to_multiset_contains(keys, reordered[i]);
            assert(keys.contains(reordered[i]));
            let k = choose|k: int| 0 <= k < keys.len() && keys[k] == reordered[i];
            assert(!rejected_at(token, keys, alg, audience, now, k));
            assert(k == j);
        },
        Err(e) => {
            assert(rejected_at(token, reordered, alg, audience, now, jr));
        },
    }
}

/// Claims that verification hands out are good at the time of verification:
/// the subject is not empty, the audience is the expected one, and the time
/// of issue is no later than `now`, which is before the expiry.
pub proof fn accepted_claims_are_valid(
    token: Seq<char>,
    keys: Seq<(Seq<char>, Seq<char>)>,
    alg: SignatureAlgorithm,
    audience: Seq<char>,
    now: nat,
)
    ensures
        trial_outcome(token, keys, alg, audience, now) matches Ok(c) ==> acceptable(
            c,
            audience,
            now,
        ) && c.iat < c.exp && now < c.exp && c.aud == audience && c.sub.len() > 0,
        trial_outcome(token, keys, alg, audience, now) matches Err(e) ==> e
            == JwtError::NoValidKeyError,
{
    trial_cases(token, keys, alg, audience, now, 0);
}

} // verus!
