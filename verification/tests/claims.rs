use metabase_embed::{EmbedError, Params, Resource, UnsignedToken, TOKEN_LIFETIME_SECS};
use std::time::{SystemTime, UNIX_EPOCH};

fn claims(dashboard: u32, id: u32, exp: u64) -> UnsignedToken {
    UnsignedToken { resource: Resource { dashboard }, params: Params { id }, exp }
}

#[test]
fn lifetime_is_ten_minutes() {
    assert_eq!(TOKEN_LIFETIME_SECS, 600);
}

#[test]
fn issued_at_sets_every_field() {
    let token = UnsignedToken::issued_at(1, 42, 1_700_000_000).unwrap();
    assert_eq!(token, claims(42, 1, 1_700_000_600));
    assert_eq!(token.resource.dashboard, 42);
    assert_eq!(token.params.id, 1);
    assert_eq!(token.exp, 1_700_000_600);
}

#[test]
fn issued_at_keeps_id_and_dashboard_apart() {
    let token = UnsignedToken::issued_at(7, 9, 0).unwrap();
    assert_eq!(token.params.id, 7);
    assert_eq!(token.resource.dashboard, 9);
    assert_eq!(token.exp, 600);
}

#[test]
fn issued_at_reaches_the_last_instant_that_fits() {
    let token = UnsignedToken::issued_at(1, 1, u64::MAX - 600).unwrap();
    assert_eq!(token.exp, u64::MAX);
}

#[test]
fn issued_at_fails_when_the_expiry_does_not_fit() {
    assert_eq!(UnsignedToken::issued_at(1, 1, u64::MAX - 599), Err(EmbedError::ClockError));
    assert_eq!(UnsignedToken::issued_at(1, 1, u64::MAX), Err(EmbedError::ClockError));
}

#[test]
fn from_reading_issues_at_the_instant_read() {
    assert_eq!(UnsignedToken::from_reading(1, 42, Some(1_700_000_000)), Ok(claims(42, 1, 1_700_000_600)));
    assert_eq!(UnsignedToken::from_reading(3, 0, Some(0)), Ok(claims(0, 3, 600)));
    assert_eq!(
        UnsignedToken::from_reading(1, 42, Some(1_700_000_000)),
        UnsignedToken::issued_at(1, 42, 1_700_000_000)
    );
}

#[test]
fn from_reading_fails_without_an_instant() {
    assert_eq!(UnsignedToken::from_reading(1, 42, None), Err(EmbedError::ClockError));
}

#[test]
fn from_reading_fails_when_the_expiry_does_not_fit() {
    assert_eq!(UnsignedToken::from_reading(1, 42, Some(u64::MAX)), Err(EmbedError::ClockError));
    assert_eq!(
        UnsignedToken::from_reading(1, 42, Some(u64::MAX - 600)),
        Ok(claims(42, 1, u64::MAX))
    );
}

#[test]
fn new_expires_ten_minutes_from_now() {
    let before = SystemTime::now().duration_since(UNIX_EPOCH).unwrap().as_secs();
    let token = UnsignedToken::new(1, 42).unwrap();
    let after = SystemTime::now().duration_since(UNIX_EPOCH).unwrap().as_secs();
    assert_eq!(token.resource.dashboard, 42);
    assert_eq!(token.params.id, 1);
    assert!(token.exp >= before + 600);
    assert!(token.exp <= after + 600);
    assert!(token.exp - (before + 600) <= 2);
}

#[test]
fn new_takes_whatever_id_it_is_given() {
    let token = UnsignedToken::new(5, u32::MAX).unwrap();
    assert_eq!(token.params.id, 5);
    assert_eq!(token.resource.dashboard, u32::MAX);
}

#[test]
fn json_text_is_exact() {
    assert_eq!(
        claims(42, 1, 1_700_000_600).to_json(),
        "{\"resource\":{\"dashboard\":42},\"params\":{\"id\":1},\"exp\":1700000600}"
    );
}

#[test]
fn json_text_at_the_limits() {
    assert_eq!(
        claims(0, 0, 0).to_json(),
        "{\"resource\":{\"dashboard\":0},\"params\":{\"id\":0},\"exp\":0}"
    );
    assert_eq!(
        claims(u32::MAX, u32::MAX, u64::MAX).to_json(),
        "{\"resource\":{\"dashboard\":4294967295},\"params\":{\"id\":4294967295},\"exp\":18446744073709551615}"
    );
}

#[test]
fn json_text_reads_back_as_the_claims() {
    let samples = [
        claims(42, 1, 1_700_000_600),
        claims(0, 0, 0),
        claims(1, 0, 10),
        claims(10, 1, 0),
        claims(u32::MAX, 7, u64::MAX),
    ];
    for c in samples.iter() {
        let value: serde_json::Value = serde_json::from_str(&c.to_json()).unwrap();
        let top = value.as_object().unwrap();
        assert_eq!(top.len(), 3);
        let resource = top["resource"].as_object().unwrap();
        assert_eq!(resource.len(), 1);
        assert_eq!(resource["dashboard"].as_u64(), Some(c.resource.dashboard as u64));
        let params = top["params"].as_object().unwrap();
        assert_eq!(params.len(), 1);
        assert_eq!(params["id"].as_u64(), Some(c.params.id as u64));
        assert_eq!(top["exp"].as_u64(), Some(c.exp));
    }
}

#[test]
fn different_claims_have_different_json_text() {
    let base = claims(12, 3, 45);
    assert_ne!(base.to_json(), claims(1, 23, 45).to_json());
    assert_ne!(base.to_json(), claims(12, 34, 5).to_json());
    assert_ne!(base.to_json(), claims(123, 4, 5).to_json());
    assert_eq!(base.to_json(), claims(12, 3, 45).to_json());
}
