use access_control::credential::{Auth, Secret, StoreReply, UserRow};
use access_control::document::CustomAuth;
use access_control::error::AuthError;
use access_control::gate::auth_met;

fn some(name: &str) -> Option<String> {
    Some(String::from(name))
}

fn resolved(uid: i64, access: Option<&str>) -> Auth {
    Auth {
        uid: Some(uid),
        access: access.map(String::from),
        secret: None,
    }
}

fn token(value: &str) -> Auth {
    Auth {
        uid: None,
        access: None,
        secret: Some(Secret::SessionToken(String::from(value))),
    }
}

fn one_row(uid: i64, access: Option<&str>) -> StoreReply {
    StoreReply::Rows(vec![UserRow {
        uid,
        access: access.map(String::from),
    }])
}

const DENIED: Result<bool, AuthError> = Err(AuthError::NotAuthenticated);

#[test]
fn no_requirement_denies_everyone() {
    assert_eq!(auth_met(&None, &mut Auth::new(), &StoreReply::NotAsked), DENIED);
    assert_eq!(
        auth_met(&None, &mut resolved(1, Some("admin")), &StoreReply::NotAsked),
        DENIED
    );
    assert_eq!(
        auth_met(&None, &mut token("abc"), &one_row(1, Some("admin"))),
        DENIED
    );
}

#[test]
fn no_requirement_still_resolves_the_credential() {
    let mut auth = token("abc");
    assert_eq!(auth_met(&None, &mut auth, &one_row(3, Some("user"))), DENIED);
    assert_eq!(auth, resolved(3, Some("user")));
}

#[test]
fn public_allows_everyone() {
    assert_eq!(
        auth_met(&some("public"), &mut Auth::new(), &StoreReply::NotAsked),
        Ok(true)
    );
    assert_eq!(
        auth_met(&some("public"), &mut resolved(1, None), &StoreReply::NotAsked),
        Ok(true)
    );
    assert_eq!(
        auth_met(&some("public"), &mut token("abc"), &one_row(1, Some("user"))),
        Ok(true)
    );
}

#[test]
fn public_allows_a_credential_that_does_not_resolve() {
    let mut auth = token("stale");
    assert_eq!(
        auth_met(&some("public"), &mut auth, &StoreReply::Rows(vec![])),
        Ok(true)
    );
    assert_eq!(auth, token("stale"));
    assert_eq!(
        auth_met(&some("public"), &mut auth, &StoreReply::Failed),
        Ok(true)
    );
}

#[test]
fn admin_needs_identity_and_admin_tier() {
    assert_eq!(
        auth_met(&some("admin"), &mut resolved(1, Some("admin")), &StoreReply::NotAsked),
        Ok(true)
    );
    assert_eq!(
        auth_met(&some("admin"), &mut resolved(1, Some("user")), &StoreReply::NotAsked),
        DENIED
    );
    assert_eq!(
        auth_met(&some("admin"), &mut resolved(1, None), &StoreReply::NotAsked),
        DENIED
    );
    assert_eq!(
        auth_met(&some("admin"), &mut Auth::new(), &StoreReply::NotAsked),
        DENIED
    );
}

#[test]
fn admin_tier_without_identity_is_denied() {
    let mut auth = Auth {
        uid: None,
        access: some("admin"),
        secret: None,
    };
    assert_eq!(auth_met(&some("admin"), &mut auth, &StoreReply::NotAsked), DENIED);
}

#[test]
fn admin_is_decided_on_the_resolved_tier() {
    assert_eq!(
        auth_met(&some("admin"), &mut token("abc"), &one_row(1, Some("admin"))),
        Ok(true)
    );
    assert_eq!(
        auth_met(&some("admin"), &mut token("abc"), &one_row(1, Some("user"))),
        DENIED
    );
    assert_eq!(
        auth_met(&some("admin"), &mut token("abc"), &StoreReply::Rows(vec![])),
        DENIED
    );
}

#[test]
fn user_needs_identity_of_any_tier() {
    assert_eq!(
        auth_met(&some("user"), &mut resolved(1, Some("user")), &StoreReply::NotAsked),
        Ok(true)
    );
    assert_eq!(
        auth_met(&some("user"), &mut resolved(1, Some("admin")), &StoreReply::NotAsked),
        Ok(true)
    );
    assert_eq!(
        auth_met(&some("user"), &mut resolved(1, None), &StoreReply::NotAsked),
        Ok(true)
    );
    assert_eq!(
        auth_met(&some("user"), &mut Auth::new(), &StoreReply::NotAsked),
        DENIED
    );
    assert_eq!(
        auth_met(&some("user"), &mut token("abc"), &StoreReply::Failed),
        DENIED
    );
}

#[test]
fn self_needs_identity_of_any_tier() {
    assert_eq!(
        auth_met(&some("self"), &mut resolved(9, Some("user")), &StoreReply::NotAsked),
        Ok(true)
    );
    assert_eq!(
        auth_met(&some("self"), &mut resolved(9, None), &StoreReply::NotAsked),
        Ok(true)
    );
    assert_eq!(
        auth_met(&some("self"), &mut token("abc"), &one_row(9, None)),
        Ok(true)
    );
    assert_eq!(
        auth_met(&some("self"), &mut Auth::new(), &StoreReply::NotAsked),
        DENIED
    );
}

#[test]
fn unknown_tier_denies_everyone() {
    assert_eq!(
        auth_met(&some("none"), &mut resolved(1, Some("admin")), &StoreReply::NotAsked),
        DENIED
    );
    assert_eq!(
        auth_met(&some("Public"), &mut Auth::new(), &StoreReply::NotAsked),
        DENIED
    );
    assert_eq!(
        auth_met(&some(""), &mut resolved(1, Some("admin")), &StoreReply::NotAsked),
        DENIED
    );
}

#[test]
fn a_secret_that_fails_to_resolve_hides_a_recorded_identity() {
    let mut auth = Auth {
        uid: Some(1),
        access: some("admin"),
        secret: Some(Secret::SessionToken(String::from("stale"))),
    };
    assert_eq!(
        auth_met(&some("user"), &mut auth, &StoreReply::Rows(vec![])),
        DENIED
    );
    assert_eq!(
        auth_met(&some("admin"), &mut auth, &StoreReply::Failed),
        DENIED
    );
}

#[test]
fn several_checks_on_one_request_resolve_once() {
    let doc = CustomAuth::new();
    let mut auth = token("abc");
    assert_eq!(
        doc.allows_feature_create(&mut auth, &one_row(4, Some("user"))),
        Ok(true)
    );
    assert_eq!(auth.store_query(), None);
    assert_eq!(doc.allows_bounds_create(&mut auth, &StoreReply::NotAsked), DENIED);
    assert_eq!(doc.allows_style_create(&mut auth, &StoreReply::NotAsked), Ok(true));
    assert_eq!(doc.allows_meta_get(&mut auth, &StoreReply::NotAsked), Ok(true));
    assert_eq!(auth, resolved(4, Some("user")));
}

#[test]
fn is_admin_ignores_the_document() {
    let doc = CustomAuth {
        server: some("public"),
        meta: None,
        webhooks: None,
        stats: None,
        mvt: None,
        schema: None,
        auth: None,
        user: None,
        feature: None,
        style: None,
        delta: None,
        bounds: None,
        clone: None,
        osm: None,
    };
    assert_eq!(
        doc.is_admin(&mut resolved(1, Some("admin")), &StoreReply::NotAsked),
        Ok(true)
    );
    assert_eq!(
        doc.is_admin(&mut resolved(1, Some("user")), &StoreReply::NotAsked),
        DENIED
    );
    assert_eq!(doc.is_admin(&mut Auth::new(), &StoreReply::NotAsked), DENIED);
}
