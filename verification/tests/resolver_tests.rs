use libg933::resolver::{FeatureCache, ResolveDecision, FEATURE_BATTERY, FEATURE_ROOT};

#[test]
fn root_feature_is_preresolved() {
    let mut cache = FeatureCache::new();
    match cache.resolve_step(FEATURE_ROOT) {
        ResolveDecision::Use(feature) => {
            assert_eq!(feature.id, FEATURE_ROOT);
            assert_eq!(feature.index, 0);
        },
        _ => panic!("root feature must be resolved without discovery"),
    }
}

#[test]
fn first_caller_discovers_later_callers_wait() {
    // However many callers ask for the same unresolved feature, only the
    // first is told to issue the discovery exchange.
    let mut cache = FeatureCache::new();
    assert_eq!(cache.resolve_step(FEATURE_BATTERY), ResolveDecision::MustQuery);
    for _ in 0..10 {
        assert_eq!(cache.resolve_step(FEATURE_BATTERY), ResolveDecision::Wait);
    }
}

#[test]
fn all_callers_receive_the_same_feature() {
    let mut cache = FeatureCache::new();
    assert_eq!(cache.resolve_step(FEATURE_BATTERY), ResolveDecision::MustQuery);
    let resolved = cache.complete(FEATURE_BATTERY, 0x08).unwrap();
    assert_eq!(resolved.id, FEATURE_BATTERY);
    assert_eq!(resolved.index, 0x08);
    for _ in 0..10 {
        assert_eq!(cache.resolve_step(FEATURE_BATTERY), ResolveDecision::Use(resolved));
    }
}

#[test]
fn index_zero_is_cached_as_unsupported() {
    let mut cache = FeatureCache::new();
    assert_eq!(cache.resolve_step(0x8310), ResolveDecision::MustQuery);
    assert!(cache.complete(0x8310, 0).is_err());
    // Repeated queries answer from the cache and never re-probe.
    for _ in 0..10 {
        assert_eq!(cache.resolve_step(0x8310), ResolveDecision::Unsupported);
    }
}

#[test]
fn distinct_features_are_discovered_separately() {
    let mut cache = FeatureCache::new();
    assert_eq!(cache.resolve_step(0x8010), ResolveDecision::MustQuery);
    assert_eq!(cache.resolve_step(0x8300), ResolveDecision::MustQuery);
    let gkey = cache.complete(0x8010, 0x05).unwrap();
    assert_eq!(cache.resolve_step(0x8300), ResolveDecision::Wait);
    let sidetone = cache.complete(0x8300, 0x07).unwrap();
    assert_eq!(cache.resolve_step(0x8010), ResolveDecision::Use(gkey));
    assert_eq!(cache.resolve_step(0x8300), ResolveDecision::Use(sidetone));
}
