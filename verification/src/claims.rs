//! The identity payload of a token, and how it is read from a decoded payload.

use vstd::prelude::*;

verus! {

/// One member of a decoded JSON object, as far as the claims depend on it.
#[derive(Clone, Debug)]
pub enum JsonMember {
    /// The object has no member of that name.
    Absent,
    /// The member is `null`.
    Null,
    /// The member is a string.
    Text(String),
    /// The member is a number, with its value where that is an integer from
    /// 0 to `u64::MAX`.
    Number(Option<u64>),
    /// The member is anything else.
    Other,
}

/// The mathematical value of a [`JsonMember`].
pub ghost enum MemberView {
    Absent,
    Null,
    Text(Seq<char>),
    Number(Option<u64>),
    Other,
}

impl View for JsonMember {
    type V = MemberView;

    open spec fn view(&self) -> MemberView {
        match self {
            JsonMember::Absent => MemberView::Absent,
            JsonMember::Null => MemberView::Null,
            JsonMember::Text(s) => MemberView::Text(s@),
            JsonMember::Number(n) => MemberView::Number(*n),
            JsonMember::Other => MemberView::Other,
        }
    }
}

/// The six members of a payload that the claims are read from.
#[derive(Clone, Debug)]
pub struct RawClaims {
    pub sub: JsonMember,
    pub aud: JsonMember,
    pub exp: JsonMember,
    pub iat: JsonMember,
    pub email: JsonMember,
    pub name: JsonMember,
}

/// The mathematical value of [`RawClaims`].
pub ghost struct RawClaimsView {
    pub sub: MemberView,
    pub aud: MemberView,
    pub exp: MemberView,
    pub iat: MemberView,
    pub email: MemberView,
    pub name: MemberView,
}

impl View for RawClaims {
    type V = RawClaimsView;

    open spec fn view(&self) -> RawClaimsView {
        RawClaimsView {
            sub: self.sub@,
            aud: self.aud@,
            exp: self.exp@,
            iat: self.iat@,
            email: self.email@,
            name: self.name@,
        }
    }
}

/// The identity that a token asserts.
#[derive(Clone, Debug)]
pub struct Claims {
    /// The subject: the issuer's stable identifier of the user.
    pub sub: String,
    /// The audience: the consumer that the token was issued for.
    pub aud: String,
    /// The expiry, in seconds since the epoch.
    pub exp: usize,
    /// The time of issue, in seconds since the epoch.
    pub iat: usize,
    /// The contact identifier that the issuer asserts.
    pub email: String,
    /// The display name, where the issuer gave one.
    pub name: Option<String>,
}

/// The mathematical value of [`Claims`].
pub ghost struct ClaimsView {
    pub sub: Seq<char>,
    pub aud: Seq<char>,
    pub exp: nat,
    pub iat: nat,
    pub email: Seq<char>,
    pub name: Option<Seq<char>>,
}

impl View for Claims {
    type V = ClaimsView;

    open spec fn view(&self) -> ClaimsView {
        ClaimsView {
            sub: self.sub@,
            aud: self.aud@,
            exp: self.exp as nat,
            iat: self.iat as nat,
            email: self.email@,
            name: match self.name {
                Some(n) => Some(n@),
                None => None,
            },
        }
    }
}

/// Seconds between the issue and the expiry of sample claims.
pub const MOCK_LIFETIME: i64 = 3600;

/// A bound above every time that `chrono` can tell, in seconds since the
/// epoch: its dates are counted in days that fit 32 bits, of 86,400 seconds
/// each.
pub const TIME_BOUND: i64 = 185_542_587_187_200;

/// Trusted: `chrono::Utc::now` and `chrono::DateTime::timestamp`, the seconds
/// since the epoch on the system clock. The contract gives the range only:
/// `now` makes its value from a count of seconds since the epoch that is not
/// negative and that `chrono` accepts as a date. (With a system clock set
/// before the epoch `now` does not return.)
#[verifier::external_body]
pub(crate) fn unix_now() -> (r: i64)
    ensures
        0 <= r < TIME_BOUND,
{
    chrono::Utc::now().timestamp()
}

/// The display name that a member stands for, if it may stand for one: an
/// absent or `null` member is no name, a string is a name, anything else is not
/// allowed.
pub open spec fn name_of(m: MemberView) -> Option<Option<Seq<char>>> {
    match m {
        MemberView::Absent => Some(None),
        MemberView::Null => Some(None),
        MemberView::Text(s) => Some(Some(s)),
        _ => None,
    }
}

/// The time that a member stands for, if it stands for one: a number that is
/// an integer from 0 to `u64::MAX`.
pub open spec fn natural_of(m: MemberView) -> Option<u64> {
    match m {
        MemberView::Number(Some(n)) => Some(n),
        _ => None,
    }
}

/// The claims that a payload holds: subject, audience and contact identifier
/// must be strings, expiry and time of issue integers that fit the machine
/// word, and the display name a string where it is there at all.
pub open spec fn claims_of(raw: RawClaimsView) -> Option<ClaimsView> {
    if raw.sub is Text && raw.aud is Text && natural_of(raw.exp) is Some && natural_of(raw.iat) is Some
        && raw.email is Text && name_of(raw.name) is Some && natural_of(raw.exp)->Some_0
        <= usize::MAX && natural_of(raw.iat)->Some_0 <= usize::MAX {
        Some(
            ClaimsView {
                sub: raw.sub->Text_0,
                aud: raw.aud->Text_0,
                exp: natural_of(raw.exp)->Some_0 as nat,
                iat: natural_of(raw.iat)->Some_0 as nat,
                email: raw.email->Text_0,
                name: name_of(raw.name)->Some_0,
            },
        )
    } else {
        None
    }
}

/// Whether claims are good for a consumer at a time: the subject is not empty,
/// the audience is exactly the expected one, the token was issued no later
/// than `now` and expires after it.
pub open spec fn acceptable(c: ClaimsView, audience: Seq<char>, now: nat) -> bool {
    c.sub.len() > 0 && c.aud == audience && c.iat <= now && now < c.exp
}

/// The claims that a payload yields for a consumer at a time: those it holds,
/// where they are acceptable.
pub open spec fn accepted_claims(raw: RawClaimsView, audience: Seq<char>, now: nat) -> Option<
    ClaimsView,
> {
    match claims_of(raw) {
        Some(c) => if acceptable(c, audience, now) {
            Some(c)
        } else {
            None
        },
        None => None,
    }
}

/// The members that claims are written as: a display name that is not there
/// is left out.
pub open spec fn members_of(c: ClaimsView) -> RawClaimsView {
    RawClaimsView {
        sub: MemberView::Text(c.sub),
        aud: MemberView::Text(c.aud),
        exp: MemberView::Number(Some(c.exp as u64)),
        iat: MemberView::Number(Some(c.iat as u64)),
        email: MemberView::Text(c.email),
        name: match c.name {
            Some(n) => MemberView::Text(n),
            None => MemberView::Absent,
        },
    }
}

/// The sample claims that would be made at `now`.
pub open spec fn mock_claims(now: i64) -> ClaimsView {
    ClaimsView {
        sub: "1234567890"@,
        aud: "example_audience"@,
        exp: ((now + MOCK_LIFETIME) as usize) as nat,
        iat: (now as usize) as nat,
        email: "user@example.com"@,
        name: Some("John Doe"@),
    }
}

/// Compares two strings character by character.
pub fn same_text(a: &str, b: &str) -> (r: bool)
    ensures
        r == (a@ == b@),
{
    let n: usize = a.unicode_len();
    if n != b.unicode_len() {
        return false;
    }
    let mut i: usize = 0;
    while i < n
        invariant
            n == a@.len(),
            n == b@.len(),
            i <= n,
            forall|k: int| 0 <= k < i ==> a@[k] == b@[k],
        decreases n - i,
    {
        if a.get_char(i) != b.get_char(i) {
            return false;
        }
        i += 1;
    }
    assert(a@ =~= b@);
    true
}

impl Claims {
    /// Reads claims from the members of a payload. Members beyond the six are
    /// of no account.
    pub fn from_raw(raw: &RawClaims) -> (r: Option<Claims>)
        ensures
            match r {
                Some(c) => claims_of(raw@) == Some(c@),
                None => claims_of(raw@) is None,
            },
    {
        let name: Option<String> = match &raw.name {
            JsonMember::Absent => None,
            JsonMember::Null => None,
            JsonMember::Text(s) => Some(s.clone()),
            _ => {
                return None;
            },
        };
        match (&raw.sub, &raw.aud, &raw.exp, &raw.iat, &raw.email) {
            (
                JsonMember::Text(sub),
                JsonMember::Text(aud),
                JsonMember::Number(Some(exp)),
                JsonMember::Number(Some(iat)),
                JsonMember::Text(email),
            ) => {
                if *exp > usize::MAX as u64 || *iat > usize::MAX as u64 {
                    return None;
                }
                Some(
                    Claims {
                        sub: sub.clone(),
                        aud: aud.clone(),
                        exp: *exp as usize,
                        iat: *iat as usize,
                        email: email.clone(),
                        name,
                    },
                )
            },
            _ => None,
        }
    }

    /// Reads claims from the members of a payload and checks them for a
    /// consumer at a time, in one step.
    pub fn accept(raw: &RawClaims, audience: &str, now: u64) -> (r: Option<Claims>)
        ensures
            match r {
                Some(c) => accepted_claims(raw@, audience@, now as nat) == Some(c@),
                None => accepted_claims(raw@, audience@, now as nat) is None,
            },
    {
        match Claims::from_raw(raw) {
            Some(claims) => {
                if claims.is_acceptable(audience, now) {
                    Some(claims)
                } else {
                    None
                }
            },
            None => None,
        }
    }

    /// Checks the claims for a consumer at a time.
    pub fn is_acceptable(&self, audience: &str, now: u64) -> (r: bool)
        ensures
            r == acceptable(self@, audience@, now as nat),
    {
        !self.sub.as_str().is_empty() && same_text(self.aud.as_str(), audience)
            && self.iat as u64 <= now && now < self.exp as u64
    }

    /// Sample claims issued at `now` and good for one hour.
    pub fn mock_at(now: i64) -> (c: Claims)
        requires
            now + MOCK_LIFETIME <= i64::MAX,
        ensures
            c@ == mock_claims(now),
            0 <= now && now + MOCK_LIFETIME <= usize::MAX ==> c.iat == now && c.exp - c.iat
                == MOCK_LIFETIME,
    {
        let iat: usize = #[verifier::truncate] (now as usize);
        let exp: usize = #[verifier::truncate] ((now + MOCK_LIFETIME) as usize);
        Claims {
            sub: "1234567890".to_owned(),
            aud: "example_audience".to_owned(),
            exp,
            iat,
            email: "user@example.com".to_owned(),
            name: Some("John Doe".to_owned()),
        }
    }

    /// Sample claims issued now, by the system clock, and good for one hour.
    pub fn mock() -> (c: Claims)
        ensures
            exists|now: i64| 0 <= now < TIME_BOUND && c@ == #[trigger] mock_claims(now),
            c.sub@ == "1234567890"@,
            c.aud@ == "example_audience"@,
            c.email@ == "user@example.com"@,
            c@.name == Some("John Doe"@),
            TIME_BOUND + MOCK_LIFETIME <= usize::MAX ==> c.exp - c.iat == MOCK_LIFETIME,
    {
        let now: i64 = unix_now();
        Claims::mock_at(now)
    }
}

/// Claims that are written as members and read back come out field for
/// field as they went in: subject, audience, times, contact identifier and
/// display name.
pub proof fn claims_round_trip(c: Claims)
    ensures
        claims_of(members_of(c@)) == Some(c@),
        forall|audience: Seq<char>, now: nat| #[trigger]
            acceptable(c@, audience, now) ==> accepted_claims(members_of(c@), audience, now)
                == Some(c@),
{
    let m = members_of(c@);
    let r = claims_of(m)->Some_0;
    assert(natural_of(m.exp) == Some(c.exp as u64));
    assert(natural_of(m.iat) == Some(c.iat as u64));
    assert(r.name == c@.name);
    assert(r == c@);
}

/// What is read from a payload is what the payload holds: each field of the
/// claims is the member of its name, and a display name is missing only where
/// the member is absent or `null`.
pub proof fn claims_mirror_members(raw: RawClaimsView)
    requires
        claims_of(raw) is Some,
    ensures
        raw.sub == MemberView::Text(claims_of(raw)->Some_0.sub),
        raw.aud == MemberView::Text(claims_of(raw)->Some_0.aud),
        raw.email == MemberView::Text(claims_of(raw)->Some_0.email),
        natural_of(raw.exp) is Some && natural_of(raw.exp)->Some_0 == claims_of(raw)->Some_0.exp,
        natural_of(raw.iat) is Some && natural_of(raw.iat)->Some_0 == claims_of(raw)->Some_0.iat,
        match claims_of(raw)->Some_0.name {
            Some(n) => raw.name == MemberView::Text(n),
            None => raw.name is Absent || raw.name is Null,
        },
{
}

/// The identity of an authenticated request.
#[derive(Clone, Debug)]
pub struct JwtAuth(pub Claims);

impl JwtAuth {
    /// An identity with empty claims, to be filled in later.
    pub fn new() -> (r: JwtAuth)
        ensures
            r.0@ == (ClaimsView {
                sub: Seq::<char>::empty(),
                aud: Seq::<char>::empty(),
                exp: 0,
                iat: 0,
                email: Seq::<char>::empty(),
                name: None,
            }),
    {
        JwtAuth(
            Claims {
                sub: String::new(),
                aud: String::new(),
                exp: 0,
                iat: 0,
                email: String::new(),
                name: None,
            },
        )
    }
}

} // verus!
