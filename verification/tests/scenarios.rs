use access_control::credential::{Auth, StoreQuery, StoreReply, UserRow};
use access_control::document::CustomAuth;
use access_control::error::AuthError;
use access_control::policy::{AuthBounds, AuthFeature, AuthMeta, ValidAuth};

fn some(name: &str) -> Option<String> {
    Some(String::from(name))
}

fn empty_document() -> CustomAuth {
    CustomAuth {
        server: None,
        meta: None,
        webhooks: None,
        stats: None,
        mvt: None,
        schema: None,
        auth: None,
        user: None,
        feature: None,
        style: None,
        delta: None,
        bounds: None,
        clone: None,
        osm: None,
    }
}

fn feature_create_user() -> CustomAuth {
    let mut doc = empty_document();
    doc.feature = Some(AuthFeature {
        force: None,
        create: some("user"),
        get: None,
        history: None,
    });
    doc
}

fn bounds_create_admin() -> CustomAuth {
    let mut doc = empty_document();
    doc.bounds = Some(AuthBounds {
        list: None,
        create: some("admin"),
        delete: None,
        get: None,
    });
    doc
}

fn one_row(uid: i64, access: Option<&str>) -> StoreReply {
    StoreReply::Rows(vec![UserRow {
        uid,
        access: access.map(String::from),
    }])
}

const DENIED: Result<bool, AuthError> = Err(AuthError::NotAuthenticated);

#[test]
fn session_of_a_plain_user_may_create_features() {
    let doc = feature_create_user();
    assert_eq!(doc.is_valid(), Ok(true));
    let mut auth = Auth::from_request(Some("token-of-user-7"), &vec![]).unwrap();
    assert_eq!(
        auth.store_query(),
        Some(StoreQuery::FindByToken {
            token: String::from("token-of-user-7"),
        })
    );
    let reply = one_row(7, Some("user"));
    assert_eq!(doc.allows_feature_create(&mut auth, &reply), Ok(true));
    assert_eq!(auth.uid, Some(7));
}

#[test]
fn no_credential_may_not_create_features() {
    let doc = feature_create_user();
    let mut auth = Auth::from_request(None, &vec![]).unwrap();
    assert_eq!(auth.store_query(), None);
    let outcome = doc.allows_feature_create(&mut auth, &StoreReply::NotAsked);
    assert_eq!(outcome, DENIED);
    assert_eq!(outcome.unwrap_err().status(), 401);
}

#[test]
fn basic_auth_of_a_plain_user_may_not_create_bounds() {
    let doc = bounds_create_admin();
    assert_eq!(doc.is_valid(), Ok(true));
    // "ingalls:yeaheh"
    let headers = vec![String::from("Basic aW5nYWxsczp5ZWFoZWg=")];
    let mut auth = Auth::from_request(None, &headers).unwrap();
    assert_eq!(
        auth.store_query(),
        Some(StoreQuery::FindByCredentials {
            username: String::from("ingalls"),
            password: String::from("yeaheh"),
        })
    );
    let reply = one_row(3, Some("user"));
    let outcome = doc.allows_bounds_create(&mut auth, &reply);
    assert_eq!(outcome, DENIED);
    assert_eq!(outcome.unwrap_err().status(), 401);
    assert_eq!(auth.uid, Some(3));
}

#[test]
fn basic_auth_of_an_admin_may_create_bounds() {
    let doc = bounds_create_admin();
    let headers = vec![String::from("Basic aW5nYWxsczp5ZWFoZWg=")];
    let mut auth = Auth::from_request(None, &headers).unwrap();
    assert_eq!(
        doc.allows_bounds_create(&mut auth, &one_row(1, Some("admin"))),
        Ok(true)
    );
}

#[test]
fn absent_category_behaves_as_its_defaults() {
    let doc = empty_document();
    let defaults = CustomAuth::new();
    let mut anonymous = Auth::new();
    let mut user = Auth {
        uid: Some(2),
        access: some("user"),
        secret: None,
    };
    let mut admin = Auth {
        uid: Some(1),
        access: some("admin"),
        secret: None,
    };
    let reply = StoreReply::NotAsked;
    for auth in [&mut anonymous, &mut user, &mut admin] {
        assert_eq!(
            doc.allows_meta_get(auth, &reply),
            defaults.allows_meta_get(auth, &reply)
        );
        assert_eq!(
            doc.allows_meta_set(auth, &reply),
            defaults.allows_meta_set(auth, &reply)
        );
        assert_eq!(
            doc.allows_webhooks_list(auth, &reply),
            defaults.allows_webhooks_list(auth, &reply)
        );
        assert_eq!(
            doc.allows_user_info(auth, &reply),
            defaults.allows_user_info(auth, &reply)
        );
        assert_eq!(
            doc.allows_feature_force(auth, &reply),
            defaults.allows_feature_force(auth, &reply)
        );
        assert_eq!(
            doc.allows_osm_create(auth, &reply),
            defaults.allows_osm_create(auth, &reply)
        );
    }
    assert_eq!(doc.allows_meta_get(&mut anonymous, &reply), Ok(true));
    assert_eq!(doc.allows_meta_set(&mut anonymous, &reply), DENIED);
    assert_eq!(doc.allows_meta_set(&mut user, &reply), DENIED);
    assert_eq!(doc.allows_meta_set(&mut admin, &reply), Ok(true));
    assert_eq!(doc.allows_osm_create(&mut user, &reply), Ok(true));
    assert_eq!(doc.allows_feature_force(&mut admin, &reply), DENIED);
}

#[test]
fn unset_operation_of_a_present_category_is_denied() {
    let mut doc = empty_document();
    doc.meta = Some(AuthMeta {
        get: None,
        list: some("public"),
        set: None,
    });
    let mut admin = Auth {
        uid: Some(1),
        access: some("admin"),
        secret: None,
    };
    let reply = StoreReply::NotAsked;
    assert_eq!(doc.allows_meta_get(&mut admin, &reply), DENIED);
    assert_eq!(doc.allows_meta_set(&mut admin, &reply), DENIED);
    assert_eq!(doc.allows_meta_list(&mut Auth::new(), &reply), Ok(true));
    // absent, the same operation is open
    assert_eq!(
        empty_document().allows_meta_get(&mut Auth::new(), &reply),
        Ok(true)
    );
}

#[test]
fn partial_feature_category_denies_what_it_leaves_unset() {
    let doc = feature_create_user();
    let mut admin = Auth {
        uid: Some(1),
        access: some("admin"),
        secret: None,
    };
    let reply = StoreReply::NotAsked;
    assert_eq!(doc.allows_feature_get(&mut admin, &reply), DENIED);
    assert_eq!(doc.allows_feature_history(&mut admin, &reply), DENIED);
    assert_eq!(doc.allows_feature_force(&mut admin, &reply), DENIED);
    assert_eq!(doc.allows_feature_create(&mut admin, &reply), Ok(true));
}

#[test]
fn service_tier_is_not_defaulted() {
    let reply = StoreReply::NotAsked;
    assert_eq!(
        empty_document().allows_server(&mut Auth::new(), &reply),
        DENIED
    );
    assert_eq!(
        CustomAuth::new().allows_server(&mut Auth::new(), &reply),
        Ok(true)
    );
}

#[test]
fn default_document_decisions() {
    let doc = CustomAuth::new();
    let reply = StoreReply::NotAsked;
    let mut anonymous = Auth::new();
    let mut user = Auth {
        uid: Some(2),
        access: some("user"),
        secret: None,
    };
    let mut admin = Auth {
        uid: Some(1),
        access: some("admin"),
        secret: None,
    };

    assert_eq!(doc.allows_webhooks_list(&mut user, &reply), DENIED);
    assert_eq!(doc.allows_webhooks_delete(&mut admin, &reply), Ok(true));
    assert_eq!(doc.allows_webhooks_update(&mut anonymous, &reply), DENIED);
    assert_eq!(doc.allows_meta_list(&mut anonymous, &reply), Ok(true));
    assert_eq!(doc.allows_stats_get(&mut anonymous, &reply), Ok(true));
    assert_eq!(doc.allows_stats_bounds(&mut anonymous, &reply), Ok(true));
    assert_eq!(doc.allows_mvt_get(&mut anonymous, &reply), Ok(true));
    assert_eq!(doc.allows_mvt_delete(&mut user, &reply), DENIED);
    assert_eq!(doc.allows_mvt_delete(&mut admin, &reply), Ok(true));
    assert_eq!(doc.allows_mvt_regen(&mut anonymous, &reply), DENIED);
    assert_eq!(doc.allows_mvt_regen(&mut user, &reply), Ok(true));
    assert_eq!(doc.allows_mvt_meta(&mut anonymous, &reply), Ok(true));
    assert_eq!(doc.allows_user_list(&mut anonymous, &reply), DENIED);
    assert_eq!(doc.allows_user_list(&mut user, &reply), Ok(true));
    assert_eq!(doc.allows_user_create(&mut anonymous, &reply), Ok(true));
    assert_eq!(doc.allows_user_info(&mut anonymous, &reply), DENIED);
    assert_eq!(doc.allows_user_info(&mut user, &reply), Ok(true));
    assert_eq!(doc.allows_user_create_session(&mut user, &reply), Ok(true));
    assert_eq!(doc.allows_style_create(&mut anonymous, &reply), DENIED);
    assert_eq!(doc.allows_style_patch(&mut user, &reply), Ok(true));
    assert_eq!(doc.allows_style_set_public(&mut user, &reply), Ok(true));
    assert_eq!(doc.allows_style_set_private(&mut user, &reply), Ok(true));
    assert_eq!(doc.allows_style_delete(&mut anonymous, &reply), DENIED);
    assert_eq!(doc.allows_style_get(&mut anonymous, &reply), Ok(true));
    assert_eq!(doc.allows_style_list(&mut anonymous, &reply), Ok(true));
    assert_eq!(doc.allows_delta_get(&mut anonymous, &reply), Ok(true));
    assert_eq!(doc.allows_delta_list(&mut anonymous, &reply), Ok(true));
    assert_eq!(doc.allows_clone_get(&mut anonymous, &reply), DENIED);
    assert_eq!(doc.allows_clone_get(&mut user, &reply), Ok(true));
    assert_eq!(doc.allows_clone_query(&mut user, &reply), Ok(true));
    assert_eq!(doc.allows_bounds_get(&mut anonymous, &reply), Ok(true));
    assert_eq!(doc.allows_bounds_list(&mut anonymous, &reply), Ok(true));
    assert_eq!(doc.allows_bounds_create(&mut user, &reply), DENIED);
    assert_eq!(doc.allows_bounds_delete(&mut admin, &reply), Ok(true));
    assert_eq!(doc.allows_feature_create(&mut anonymous, &reply), DENIED);
    assert_eq!(doc.allows_feature_create(&mut user, &reply), Ok(true));
    assert_eq!(doc.allows_feature_force(&mut admin, &reply), DENIED);
    assert_eq!(doc.allows_feature_get(&mut anonymous, &reply), Ok(true));
    assert_eq!(doc.allows_feature_history(&mut anonymous, &reply), Ok(true));
    assert_eq!(doc.allows_schema_get(&mut anonymous, &reply), Ok(true));
    assert_eq!(doc.allows_auth_get(&mut anonymous, &reply), Ok(true));
    assert_eq!(doc.allows_osm_get(&mut anonymous, &reply), Ok(true));
    assert_eq!(doc.allows_osm_create(&mut anonymous, &reply), DENIED);
    assert_eq!(doc.allows_osm_create(&mut user, &reply), Ok(true));
}
