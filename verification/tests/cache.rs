use kitty_pane_bg::cache::{
    clear_kitty_cache, socket_file_of, EndpointCache, KittyRemoteInfo, ENDPOINT_TTL_SECS,
};

#[test]
fn endpoint_record_derives_its_socket() {
    let e = KittyRemoteInfo::new(1234, 100);
    assert_eq!(e.pid, 1234);
    assert_eq!(e.validated_at, 100);
    assert_eq!(e.socket_path, "unix:/tmp/kitty-1234");
    assert_eq!(e.socket_file(), "/tmp/kitty-1234");
    assert_eq!(socket_file_of(88), "/tmp/kitty-88");
}

#[test]
fn validity_is_strictly_within_ttl() {
    let e = KittyRemoteInfo::new(7, 100);
    assert!(e.is_valid(100, ENDPOINT_TTL_SECS));
    assert!(e.is_valid(699, ENDPOINT_TTL_SECS));
    assert!(!e.is_valid(700, ENDPOINT_TTL_SECS));
    // A stamp in the future is not valid either.
    assert!(!e.is_valid(99, ENDPOINT_TTL_SECS));
}

// A lookup immediately after a store returns the stored endpoint.
#[test]
fn get_after_set_returns_the_entry() {
    let mut cache = EndpointCache::new(ENDPOINT_TTL_SECS);
    assert!(cache.candidate(50).is_none());
    let e = KittyRemoteInfo::new(42, 100);
    cache.set(e);
    let got = cache.candidate(100).expect("fresh entry");
    assert_eq!(got.pid, 42);
    assert_eq!(got.validated_at, 100);
    assert_eq!(got.socket_path, "unix:/tmp/kitty-42");
}

// After an invalidation a lookup returns nothing, whatever was stored.
#[test]
fn get_after_invalidate_is_empty() {
    let mut cache = EndpointCache::new(ENDPOINT_TTL_SECS);
    cache.set(KittyRemoteInfo::new(42, 100));
    cache.invalidate();
    assert!(cache.candidate(100).is_none());
    cache.set(KittyRemoteInfo::new(43, 100));
    clear_kitty_cache(&mut cache);
    assert!(cache.candidate(100).is_none());
}

// An entry older than the TTL is never returned, and the lookup clears it.
#[test]
fn stale_entry_is_never_returned() {
    let mut cache = EndpointCache::new(ENDPOINT_TTL_SECS);
    cache.set(KittyRemoteInfo::new(42, 0));
    assert!(cache.candidate(600).is_none());
    // The stale entry was dropped: a fresh clock does not revive it.
    assert!(cache.candidate(0).is_none());
}

#[test]
fn boundary_just_inside_ttl_is_returned() {
    let mut cache = EndpointCache::new(ENDPOINT_TTL_SECS);
    cache.set(KittyRemoteInfo::new(42, 0));
    assert_eq!(cache.candidate(599).unwrap().pid, 42);
}
