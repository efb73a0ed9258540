//! Candidate keys, and the calls into `jsonwebtoken` and `serde_json`.
//!
//! Signature checks and JSON parsing are not proved here. Each call into one
//! of the two crates stands in a function of a few lines whose contract is
//! trusted; the contracts give the results names, and the rest of the crate is
//! proved over those names.

use crate::claims::{JsonMember, MemberView};
use crate::der::{shallow, MAX_NESTING};
use vstd::prelude::*;

verus! {

/// A parsed verification key of `jsonwebtoken`.
#[verifier::external_type_specification]
#[verifier::external_body]
pub struct ExDecodingKey(jsonwebtoken::DecodingKey);

/// A JSON value of `serde_json`.
#[verifier::external_type_specification]
#[verifier::external_body]
pub struct ExJsonValue(serde_json::Value);

/// The signature schemes that a verifier can be set up for.
#[derive(Clone, Copy, Debug, PartialEq, Eq, Structural)]
pub enum SignatureAlgorithm {
    /// RSASSA-PKCS1-v1_5 with SHA-256.
    RS256,
    /// RSASSA-PKCS1-v1_5 with SHA-384.
    RS384,
    /// RSASSA-PKCS1-v1_5 with SHA-512.
    RS512,
}

/// A key that the issuer has published: its identifier and its PEM text.
#[derive(Clone, Debug)]
pub struct CandidateKey {
    pub key_id: String,
    pub pem: String,
}

impl CandidateKey {
    /// A key of the given identifier and PEM text.
    pub fn new(key_id: String, pem: String) -> (r: CandidateKey)
        ensures
            r.key_id == key_id,
            r.pem == pem,
    {
        CandidateKey { key_id, pem }
    }
}

impl View for CandidateKey {
    type V = (Seq<char>, Seq<char>);

    open spec fn view(&self) -> (Seq<char>, Seq<char>) {
        (self.key_id@, self.pem@)
    }
}

/// The views of a list of keys, in the order of the list.
pub open spec fn key_views(keys: Seq<CandidateKey>) -> Seq<(Seq<char>, Seq<char>)> {
    Seq::new(keys.len(), |i: int| keys[i]@)
}

/// All that makes up a parsed key, written as bytes: the family of
/// algorithms that it is for together with its key data, not the key data
/// alone. Two keys with the same key data for different families are
/// different keys, and so are their bytes here.
pub uninterp spec fn key_material(key: jsonwebtoken::DecodingKey) -> Seq<u8>;

/// The members of a JSON value: those of the object, if it is one, and none
/// otherwise. A name without a member is not in the map.
pub uninterp spec fn json_members(value: serde_json::Value) -> Map<Seq<char>, MemberView>;

/// The bytes that a PEM text holds between its two marker lines, if `pem`
/// reads it: what the lines of base 64 stand for.
pub uninterp spec fn pem_contents(text: Seq<char>) -> Option<Seq<u8>>;

/// The RSA key that `jsonwebtoken` reads from a PEM text, if it reads one.
pub uninterp spec fn pem_key(pem: Seq<char>) -> Option<Seq<u8>>;

/// The members of the payload of a token, if the token has the three parts of
/// a signed token, its header names `alg`, its signature is good under `key`
/// and its payload is JSON that can hold claims; as `jsonwebtoken` finds it.
pub uninterp spec fn signed_payload(token: Seq<char>, key: Seq<u8>, alg: SignatureAlgorithm)
    -> Option<Map<Seq<char>, MemberView>>;

/// The key set that `serde_json` reads from a response body: the members of a
/// JSON object of strings, by ascending key identifier; none where the body is
/// anything else.
pub uninterp spec fn key_set_of(body: Seq<char>) -> Option<Seq<(Seq<char>, Seq<char>)>>;

/// The longest PEM text, in characters, that is read as a key. The keys and
/// certificates of an issuer are well below it.
pub const MAX_PEM_LEN: usize = 8192;

/// Whether no key identifier occurs twice in a key set.
pub open spec fn distinct_key_ids(keys: Seq<(Seq<char>, Seq<char>)>) -> bool {
    forall|i: int, j: int| 0 <= i < keys.len() && 0 <= j < keys.len() && i != j ==> keys[i].0 != keys[j].0
}

/// The member of a given name, `Absent` where there is none.
pub open spec fn member_at(members: Map<Seq<char>, MemberView>, name: Seq<char>) -> MemberView {
    if members.contains_key(name) {
        members[name]
    } else {
        MemberView::Absent
    }
}

/// Trusted: `pem::parse` on the bytes of `text`, and the contents of what it
/// finds. The contract only names what the call returns: bytes exactly where
/// [`pem_contents`] has them, and those bytes.
#[verifier::external_body]
pub(crate) fn decode_pem(text: &str) -> (r: Option<Vec<u8>>)
    requires
        text@.len() <= MAX_PEM_LEN,
    ensures
        match r {
            Some(bytes) => pem_contents(text@) == Some(bytes@),
            None => pem_contents(text@) is None,
        },
{
    pem::parse(text.as_bytes()).ok().map(|found| found.into_contents())
}

/// Trusted: `jsonwebtoken::DecodingKey::from_rsa_pem` on the bytes of `pem`.
/// The contract only names what the call returns: a key exactly where
/// [`pem_key`] has one, and that key. The call reads the text with
/// `pem::parse` and hands the contents to an ASN.1 parser that calls itself
/// once for each level of nested items: for each item outside the universal
/// class that is marked as constructed, and for each sequence and set. So
/// the call is made only for a text of at most [`MAX_PEM_LEN`] characters
/// whose contents, where it has any, are nested no deeper than
/// [`MAX_NESTING`] levels, which a thread's stack holds with ease.
#[verifier::external_body]
pub(crate) fn parse_rsa_pem(pem: &str) -> (r: Option<jsonwebtoken::DecodingKey>)
    requires
        pem@.len() <= MAX_PEM_LEN,
        pem_contents(pem@) matches Some(der) ==> shallow(der),
    ensures
        match r {
            Some(key) => pem_key(pem@) == Some(key_material(key)),
            None => pem_key(pem@) is None,
        },
{
    jsonwebtoken::DecodingKey::from_rsa_pem(pem.as_bytes()).ok()
}

/// Trusted: `jsonwebtoken::decode` into a `serde_json::Value`, for the one
/// algorithm given, with the checks of expiry, audience and required claims
/// switched off, so that the call looks at structure and signature alone and
/// never at the clock. The contract only names what the call returns: a
/// payload exactly where [`signed_payload`] has one, with those members.
#[verifier::external_body]
pub(crate) fn decode_signed(
    token: &str,
    key: &jsonwebtoken::DecodingKey,
    alg: SignatureAlgorithm,
) -> (r: Option<serde_json::Value>)
    ensures
        match r {
            Some(value) => signed_payload(token@, key_material(*key), alg) == Some(
                json_members(value),
            ),
            None => signed_payload(token@, key_material(*key), alg) is None,
        },
{
    let mut validation = jsonwebtoken::Validation::new(
        match alg {
            SignatureAlgorithm::RS256 => jsonwebtoken::Algorithm::RS256,
            SignatureAlgorithm::RS384 => jsonwebtoken::Algorithm::RS384,
            SignatureAlgorithm::RS512 => jsonwebtoken::Algorithm::RS512,
        },
    );
    validation.validate_exp = false;
    validation.validate_aud = false;
    validation.required_spec_claims.clear();
    jsonwebtoken::decode::<serde_json::Value>(token, key, &validation).ok().map(|data| data.claims)
}

/// Trusted: `serde_json::Value::get` with a name, and the variant of what it
/// finds. The contract says that the result is the member of that name among
/// [`json_members`]: a string with its text, a number with what
/// `serde_json::Number::as_u64` makes of it.
#[verifier::external_body]
pub(crate) fn member(value: &serde_json::Value, name: &str) -> (r: JsonMember)
    ensures
        r@ == member_at(json_members(*value), name@),
{
    match value.get(name) {
        None => JsonMember::Absent,
        Some(serde_json::Value::Null) => JsonMember::Null,
        Some(serde_json::Value::String(text)) => JsonMember::Text(text.clone()),
        Some(serde_json::Value::Number(number)) => JsonMember::Number(number.as_u64()),
        Some(_) => JsonMember::Other,
    }
}

/// Trusted: `serde_json::from_str` into a `BTreeMap` of strings, handed on as a
/// list of keys in the map's order. The contract names what the call
/// returns: a list exactly where [`key_set_of`] has one, with those entries.
/// Of the entries it says what a map gives: no key identifier occurs twice.
#[verifier::external_body]
pub(crate) fn parse_key_object(body: &str) -> (r: Option<Vec<CandidateKey>>)
    ensures
        match r {
            Some(keys) => key_set_of(body@) == Some(key_views(keys@)) && distinct_key_ids(
                key_views(keys@),
            ),
            None => key_set_of(body@) is None,
        },
{
    serde_json::from_str::<std::collections::BTreeMap<String, String>>(body).ok().map(
        |entries| entries.into_iter().map(|(key_id, pem)| CandidateKey::new(key_id, pem)).collect(),
    )
}

} // verus!
