use polyumi_auth::cafe::CafeKind;
use polyumi_auth::connection::ConnectionKind;
use polyumi_auth::error::{ErrorModelKind, ResourceKind};
use polyumi_auth::id::{Id, UserMarker};
use polyumi_auth::model_event::{ModelEventKind, ModelKind};
use polyumi_auth::passkey::{PasskeyModel, PasskeyStore};

#[test]
fn status_codes_per_kind() {
    assert_eq!(ErrorModelKind::Cache.model().status_code(), 500);
    assert_eq!(ErrorModelKind::Database.model().status_code(), 500);
    assert_eq!(ErrorModelKind::InternalError.model().status_code(), 500);
    assert_eq!(
        ErrorModelKind::not_found(ResourceKind::PasskeyChallenge, None).status_code(),
        404
    );
    assert_eq!(ErrorModelKind::InvalidCredentials.model().status_code(), 401);
    assert_eq!(ErrorModelKind::MissingCredentials.model().status_code(), 401);
    assert_eq!(ErrorModelKind::InvalidSignature.model().status_code(), 400);
    assert_eq!(ErrorModelKind::InvalidParams.model().status_code(), 400);
    assert_eq!(ErrorModelKind::InvalidQuery.model().status_code(), 400);
    assert_eq!(ErrorModelKind::MissingSignature.model().status_code(), 400);
    assert_eq!(ErrorModelKind::MissingPermission.model().status_code(), 403);
    let user_id: Id<UserMarker> = Id::new(vec![0u8; 16]);
    assert_eq!(
        ErrorModelKind::UserAlreadyInGroup { user_id }.model().status_code(),
        400
    );
}

#[test]
fn connection_kind_wire_integers() {
    assert_eq!(ConnectionKind::Discord.discriminant(), 0);
    assert_eq!(ConnectionKind::GitHub.discriminant(), 1);
    assert_eq!(ConnectionKind::Roblox.discriminant(), 2);
    assert_eq!(ConnectionKind::YouTube.discriminant(), 3);
    assert_eq!(ConnectionKind::Patreon.discriminant(), 4);
    for i in 0i16..5 {
        assert_eq!(ConnectionKind::from_i16(i).unwrap().discriminant(), i as u8);
    }
    assert!(ConnectionKind::from_i16(5).is_none());
    assert!(ConnectionKind::from_i16(-1).is_none());
}

#[test]
fn cafe_kind_from_tag() {
    assert!(matches!(CafeKind::from("profile"), CafeKind::Profile));
    assert!(matches!(CafeKind::from("Profile"), CafeKind::Unknown));
    assert!(matches!(CafeKind::from(""), CafeKind::Unknown));
    assert!(matches!(CafeKind::from("anything"), CafeKind::Unknown));
}

#[test]
fn model_event_build() {
    let event = ModelEventKind::Created.build(ModelKind::Server(42));
    assert!(event.actionee_id.is_none());
    assert!(matches!(event.kind, ModelEventKind::Created));
    assert!(matches!(event.model, ModelKind::Server(42)));
}

#[test]
fn ids_are_sixteen_bytes() {
    let a: Id<UserMarker> = Id::default();
    let b: Id<UserMarker> = Id::default();
    assert_eq!(a.value.len(), 16);
    assert_eq!(b.value.len(), 16);
    assert!(!a.eq_id(&b));
    let c: Id<UserMarker> = Id::new(a.value.clone());
    assert!(a.eq_id(&c));
}

#[test]
fn passkey_store_resolution() {
    let mut store = PasskeyStore::new();
    assert!(store.resolve_cached("pk-1").is_none());
    // A missing backing record is a not-found error and nothing is memoized.
    let r = store.resolve_loaded("pk-1", None);
    assert!(matches!(
        r.unwrap_err().error,
        ErrorModelKind::NotFound { .. }
    ));
    assert!(store.resolve_cached("pk-1").is_none());
    // A fetched record is memoized and answered from the cache afterwards.
    let user: Id<UserMarker> = Id::default();
    let record = PasskeyModel { public_key: vec![1, 2, 3], user_id: Id::new(user.value.clone()) };
    let resolved = store.resolve_loaded("pk-1", Some(record)).unwrap();
    assert_eq!(resolved.public_key, vec![1, 2, 3]);
    let cached = store.resolve_cached("pk-1").unwrap();
    assert_eq!(cached.public_key, vec![1, 2, 3]);
    assert_eq!(cached.user_id.value, user.value);
    // A concurrent fetch racing a memoized record: the stored record wins.
    let late = PasskeyModel { public_key: vec![9], user_id: Id::default() };
    let resolved = store.resolve_loaded("pk-1", Some(late)).unwrap();
    assert_eq!(resolved.public_key, vec![1, 2, 3]);
}
