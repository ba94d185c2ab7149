use polyumi_auth::cache::MemoCache;
use polyumi_auth::error::{ErrorModel, ErrorModelKind};

fn cache_error() -> ErrorModel {
    ErrorModelKind::Cache.model()
}

#[test]
fn get_or_load_populates_on_miss() {
    let mut cache: MemoCache<u64> = MemoCache::new();
    let loaded = cache.get_or_load(b"alpha", || Ok(7)).unwrap();
    assert_eq!(*loaded, 7);
    assert_eq!(cache.get(b"alpha"), Some(&7));
}

#[test]
fn second_get_or_load_never_observes_loader() {
    let mut cache: MemoCache<u64> = MemoCache::new();
    cache.get_or_load(b"alpha", || Ok(7)).unwrap();
    // A loader that would panic is never invoked for a present key.
    let again = cache
        .get_or_load(b"alpha", || -> Result<u64, ErrorModel> { panic!("loader must not run") })
        .unwrap();
    assert_eq!(*again, 7);
    // A loader that would error is never invoked either.
    let again = cache.get_or_load(b"alpha", || Err(cache_error())).unwrap();
    assert_eq!(*again, 7);
}

#[test]
fn loader_failure_leaves_key_absent() {
    let mut cache: MemoCache<u64> = MemoCache::new();
    let failed = cache.get_or_load(b"alpha", || Err(cache_error()));
    assert!(failed.is_err());
    assert_eq!(cache.get(b"alpha"), None);
    // A later succeeding loader populates the key: the failure did not
    // poison it.
    let loaded = cache.get_or_load(b"alpha", || Ok(11)).unwrap();
    assert_eq!(*loaded, 11);
    assert_eq!(cache.get(b"alpha"), Some(&11));
}

#[test]
fn keys_are_exact_bytes() {
    let mut cache: MemoCache<u64> = MemoCache::new();
    cache.get_or_load(b"alpha", || Ok(1)).unwrap();
    cache.get_or_load(b"alph", || Ok(2)).unwrap();
    cache.get_or_load(b"", || Ok(3)).unwrap();
    assert_eq!(cache.get(b"alpha"), Some(&1));
    assert_eq!(cache.get(b"alph"), Some(&2));
    assert_eq!(cache.get(b""), Some(&3));
    assert_eq!(cache.get(b"beta"), None);
}

#[test]
fn remove_takes_the_value_out() {
    let mut cache: MemoCache<u64> = MemoCache::new();
    cache.get_or_load(b"alpha", || Ok(1)).unwrap();
    cache.get_or_load(b"beta", || Ok(2)).unwrap();
    assert_eq!(cache.remove(b"alpha"), Some(1));
    assert_eq!(cache.remove(b"alpha"), None);
    assert_eq!(cache.get(b"alpha"), None);
    assert_eq!(cache.get(b"beta"), Some(&2));
    // Removal does not poison re-population.
    cache.get_or_load(b"alpha", || Ok(9)).unwrap();
    assert_eq!(cache.get(b"alpha"), Some(&9));
}
