use rex_axum_sdk::claims::{same_text, Claims, JsonMember, JwtAuth, RawClaims};

fn text(s: &str) -> JsonMember {
    JsonMember::Text(s.to_string())
}

fn raw() -> RawClaims {
    RawClaims {
        sub: text("uid"),
        aud: text("app1"),
        exp: JsonMember::Number(Some(2000)),
        iat: JsonMember::Number(Some(1000)),
        email: text("u@example.com"),
        name: text("U"),
    }
}

fn claims(sub: &str, aud: &str, iat: usize, exp: usize) -> Claims {
    Claims {
        sub: sub.to_string(),
        aud: aud.to_string(),
        exp,
        iat,
        email: "u@example.com".to_string(),
        name: None,
    }
}

#[test]
fn test_claims_mock() {
    let claims = Claims::mock();

    assert_eq!(claims.sub, "1234567890");
    assert_eq!(claims.email, "user@example.com");
    assert_eq!(claims.name, Some("John Doe".to_string()));

    assert!(claims.exp > claims.iat);

    assert_eq!(claims.exp - claims.iat, 3600);
}

#[test]
fn test_jwt_auth_new() {
    let jwt_auth = JwtAuth::new();

    assert_eq!(jwt_auth.0.sub, "");
    assert_eq!(jwt_auth.0.email, "");
    assert_eq!(jwt_auth.0.name, None);
    assert_eq!(jwt_auth.0.exp, 0);
    assert_eq!(jwt_auth.0.iat, 0);
    assert_eq!(jwt_auth.0.aud, "");
}

#[test]
fn mock_at_a_given_time() {
    let claims = Claims::mock_at(1000);
    assert_eq!(claims.iat, 1000);
    assert_eq!(claims.exp, 4600);
    assert_eq!(claims.sub, "1234567890");
    assert_eq!(claims.aud, "example_audience");
    assert_eq!(claims.email, "user@example.com");
    assert_eq!(claims.name, Some("John Doe".to_string()));
    let claims = Claims::mock_at(0);
    assert_eq!((claims.iat, claims.exp), (0, 3600));
}

#[test]
fn mock_is_issued_now() {
    let before = std::time::SystemTime::now()
        .duration_since(std::time::UNIX_EPOCH)
        .unwrap()
        .as_secs() as usize;
    let claims = Claims::mock();
    assert!(claims.iat >= before);
    assert!(claims.iat <= before + 60);
    assert_eq!(claims.aud, "example_audience");
}

#[test]
fn claims_are_read_from_six_members() {
    let c = Claims::from_raw(&raw()).unwrap();
    assert_eq!(c.sub, "uid");
    assert_eq!(c.aud, "app1");
    assert_eq!(c.exp, 2000);
    assert_eq!(c.iat, 1000);
    assert_eq!(c.email, "u@example.com");
    assert_eq!(c.name, Some("U".to_string()));
}

#[test]
fn display_name_may_be_absent_or_null() {
    let mut r = raw();
    r.name = JsonMember::Absent;
    assert_eq!(Claims::from_raw(&r).unwrap().name, None);
    r.name = JsonMember::Null;
    assert_eq!(Claims::from_raw(&r).unwrap().name, None);
    r.name = JsonMember::Number(Some(1));
    assert!(Claims::from_raw(&r).is_none());
    r.name = JsonMember::Other;
    assert!(Claims::from_raw(&r).is_none());
}

#[test]
fn required_members_must_have_their_kind() {
    let wrong = [
        JsonMember::Absent,
        JsonMember::Null,
        JsonMember::Number(Some(7)),
        JsonMember::Other,
    ];
    for w in wrong.iter() {
        let mut r = raw();
        r.sub = w.clone();
        assert!(Claims::from_raw(&r).is_none());
        let mut r = raw();
        r.aud = w.clone();
        assert!(Claims::from_raw(&r).is_none());
        let mut r = raw();
        r.email = w.clone();
        assert!(Claims::from_raw(&r).is_none());
    }
    let wrong = [
        JsonMember::Absent,
        JsonMember::Null,
        text("12"),
        JsonMember::Number(None),
        JsonMember::Other,
    ];
    for w in wrong.iter() {
        let mut r = raw();
        r.exp = w.clone();
        assert!(Claims::from_raw(&r).is_none());
        let mut r = raw();
        r.iat = w.clone();
        assert!(Claims::from_raw(&r).is_none());
    }
}

#[test]
fn reading_does_not_judge() {
    let mut r = raw();
    r.sub = text("");
    r.exp = JsonMember::Number(Some(0));
    r.iat = JsonMember::Number(Some(u32::MAX as u64));
    let c = Claims::from_raw(&r).unwrap();
    assert_eq!(c.sub, "");
    assert_eq!(c.exp, 0);
    assert_eq!(c.iat, u32::MAX as usize);
}

#[test]
fn acceptance_checks_subject_audience_and_times() {
    assert!(claims("uid", "app1", 1000, 2000).is_acceptable("app1", 1500));
    assert!(claims("uid", "app1", 1000, 2000).is_acceptable("app1", 1000));
    assert!(claims("uid", "app1", 1000, 2000).is_acceptable("app1", 1999));
    assert!(!claims("uid", "app1", 1000, 2000).is_acceptable("app1", 2000));
    assert!(!claims("uid", "app1", 1000, 2000).is_acceptable("app1", 2001));
    assert!(!claims("uid", "app1", 1000, 2000).is_acceptable("app1", 999));
    assert!(!claims("uid", "app1", 1000, 2000).is_acceptable("app2", 1500));
    assert!(!claims("uid", "app1", 1000, 2000).is_acceptable("", 1500));
    assert!(!claims("", "app1", 1000, 2000).is_acceptable("app1", 1500));
    assert!(!claims("uid", "app1", 2000, 1000).is_acceptable("app1", 1500));
    assert!(!JwtAuth::new().0.is_acceptable("", 0));
}

#[test]
fn texts_are_compared_whole() {
    assert!(same_text("", ""));
    assert!(same_text("app1", "app1"));
    assert!(!same_text("app1", "app2"));
    assert!(!same_text("app1", "app"));
    assert!(!same_text("app", "app1"));
    assert!(same_text("h\u{e9}", "h\u{e9}"));
    assert!(!same_text("h\u{e9}", "he"));
}
