//! Feature resolution: symbolic feature ids to device-local indices.
//!
//! A device addresses its capabilities by small indices it assigns itself;
//! callers use stable 16-bit symbolic ids. The cache memoizes the mapping
//! per device instance. The first caller for an id installs an empty
//! [`Future`] and becomes responsible for the one discovery exchange; all
//! later callers find the entry and either wait or read the cached result.
//! The mapping never expires: features are a static property of a
//! connected device.

use vstd::prelude::*;
use crate::assoc::{assoc_map, lemma_assoc_lookup, lemma_assoc_push, lemma_assoc_update,
    unique_keys};
use crate::error::Error;
use crate::future::Future;

verus! {

/// Root feature, the one feature reachable without discovery.
pub const FEATURE_ROOT: u16 = 0x0000;
/// Device feature set.
pub const FEATURE_SET: u16 = 0x0001;
/// Device and firmware info.
pub const FEATURE_DEVINFO: u16 = 0x0002;
/// Device name.
pub const FEATURE_DEVNAME: u16 = 0x0005;
/// Battery levels and charging status.
pub const FEATURE_BATTERY: u16 = 0x1f20;
/// Buttons.
pub const FEATURE_GKEY: u16 = 0x8010;
/// LED controls.
pub const FEATURE_LIGHTS: u16 = 0x8070;
/// Sidetone.
pub const FEATURE_SIDETONE: u16 = 0x8300;
/// Equalizer.
pub const FEATURE_EQ: u16 = 0x8310;

/// A resolved feature: its public symbolic id and the index this device
/// assigned to it.
#[derive(Clone, Copy, Debug, PartialEq, Eq, Structural)]
pub struct Feature {
    /// Public feature id.
    pub id: u16,
    /// Device-specific resolved feature index.
    pub index: u8,
}

/// What a caller asking for a feature should do next.
#[derive(Clone, Copy, Debug, PartialEq, Eq, Structural)]
pub enum ResolveDecision {
    /// The feature is resolved; use this index.
    Use(Feature),
    /// The device answered index 0 earlier: the feature is not supported.
    Unsupported,
    /// Nobody asked before: this caller must issue the one discovery
    /// exchange and then complete the entry.
    MustQuery,
    /// Another caller is already discovering this feature: wait for its
    /// result, then ask again.
    Wait,
}

/// One caller asks the cache for a feature. A missing entry is installed
/// empty and the caller is told to discover; an empty entry means someone
/// else already is; a filled entry answers from the cache.
pub open spec fn spec_resolve_step(m: Map<u16, Option<Option<Feature>>>, id: u16) -> (Map<
    u16,
    Option<Option<Feature>>,
>, ResolveDecision) {
    if m.dom().contains(id) {
        match m[id] {
            None => (m, ResolveDecision::Wait),
            Some(None) => (m, ResolveDecision::Unsupported),
            Some(Some(f)) => (m, ResolveDecision::Use(f)),
        }
    } else {
        (m.insert(id, None), ResolveDecision::MustQuery)
    }
}

/// The discovering caller reports the index the device answered: 0 caches
/// "unsupported", anything else caches the resolved feature.
pub open spec fn spec_complete(m: Map<u16, Option<Option<Feature>>>, id: u16, device_index: u8) -> (
    Map<u16, Option<Option<Feature>>>,
    Result<Feature, Error>,
) {
    if device_index == 0 {
        (m.insert(id, Some(None)), Err(Error::UnsupportedFeature))
    } else {
        let f = Feature { id, index: device_index };
        (m.insert(id, Some(Some(f))), Ok(f))
    }
}

/// The per-device feature cache.
pub struct FeatureCache {
    entries: Vec<(u16, Future<Option<Feature>>)>,
}

impl FeatureCache {
    /// The entry list with each future replaced by its state.
    spec fn states(&self) -> Seq<(u16, Option<Option<Feature>>)> {
        self.entries@.map_values(|e: (u16, Future<Option<Feature>>)| (e.0, e.1@))
    }

    /// The cache as a map: each asked-for feature id to `None` while its
    /// discovery is in flight, later to its result (`None` again for an
    /// unsupported feature).
    pub closed spec fn view(&self) -> Map<u16, Option<Option<Feature>>> {
        assoc_map(self.states())
    }

    /// One entry per id, and a cached feature always carries the id it is
    /// filed under.
    pub closed spec fn wf(&self) -> bool {
        &&& unique_keys(self.states())
        &&& forall|i: int|
            0 <= i < self.entries@.len() ==> ((#[trigger] self.entries@[i]).1@ matches Some(Some(f))
                ==> f.id == self.entries@[i].0)
    }

    /// A fresh cache with the root feature pre-resolved to index 0; it is
    /// always reachable and never discovered.
    pub fn new() -> (r: FeatureCache)
        ensures
            r.wf(),
            r@ == Map::<u16, Option<Option<Feature>>>::empty().insert(
                FEATURE_ROOT,
                Some(Some(Feature { id: FEATURE_ROOT, index: 0 })),
            ),
    {
        let mut root = Future::new();
        root.set(Some(Feature { id: FEATURE_ROOT, index: 0 }));
        let mut entries: Vec<(u16, Future<Option<Feature>>)> = Vec::new();
        entries.push((FEATURE_ROOT, root));
        let r = FeatureCache { entries };
        proof {
            assert(r.states() =~= Seq::<(u16, Option<Option<Feature>>)>::empty().push(
                (FEATURE_ROOT, Some(Some(Feature { id: FEATURE_ROOT, index: 0 }))),
            ));
            lemma_assoc_push(
                Seq::<(u16, Option<Option<Feature>>)>::empty(),
                FEATURE_ROOT,
                Some(Some(Feature { id: FEATURE_ROOT, index: 0 })),
            );
            assert(assoc_map(Seq::<(u16, Option<Option<Feature>>)>::empty()) =~= Map::<
                u16,
                Option<Option<Feature>>,
            >::empty());
        }
        r
    }

    /// Ask for a feature; see [`spec_resolve_step`] for the decision the
    /// caller is handed.
    pub fn resolve_step(&mut self, feature_id: u16) -> (r: ResolveDecision)
        requires
            old(self).wf(),
        ensures
            final (self).wf(),
            (final (self)@, r) == spec_resolve_step(old(self)@, feature_id),
            r matches ResolveDecision::Use(f) ==> f.id == feature_id,
    {
        let n = self.entries.len();
        let mut i: usize = 0;
        while i < n
            invariant
                self == old(self),
                old(self).wf(),
                n == self.entries@.len(),
                i <= n,
                forall|j: int| 0 <= j < i ==> (#[trigger] self.entries@[j]).0 != feature_id,
            decreases n - i,
        {
            if self.entries[i].0 == feature_id {
                proof {
                    assert(self.states()[i as int] == (self.entries@[i as int].0, self.entries@[i as int].1@));
                    lemma_assoc_lookup(self.states(), i as int);
                }
                let mut fut = self.entries[i].1;
                if fut.is_set() {
                    match fut.wait() {
                        None => {
                            return ResolveDecision::Unsupported;
                        },
                        Some(f) => {
                            return ResolveDecision::Use(f);
                        },
                    }
                } else {
                    return ResolveDecision::Wait;
                }
            }
            i = i + 1;
        }
        proof {
            if self@.dom().contains(feature_id) {
                let j = choose|j: int|
                    0 <= j < self.states().len() && (#[trigger] self.states()[j]).0 == feature_id;
                assert(self.states()[j] == (self.entries@[j].0, self.entries@[j].1@));
                assert(false);
            }
            lemma_assoc_push(self.states(), feature_id, None);
        }
        self.entries.push((feature_id, Future::new()));
        proof {
            assert(self.states() =~= old(self).states().push((feature_id, None)));
        }
        ResolveDecision::MustQuery
    }

    /// Report the device's answer for a feature this caller was told to
    /// discover; see [`spec_complete`]. Only the caller that was handed
    /// [`ResolveDecision::MustQuery`] does this, exactly once, so the entry
    /// is present and still empty.
    pub fn complete(&mut self, feature_id: u16, device_index: u8) -> (r: Result<Feature, Error>)
        requires
            old(self).wf(),
            old(self)@.dom().contains(feature_id),
            old(self)@[feature_id] is None,
        ensures
            final (self).wf(),
            (final (self)@, r) == spec_complete(old(self)@, feature_id, device_index),
    {
        let n = self.entries.len();
        let mut i: usize = 0;
        while i < n
            invariant
                self == old(self),
                old(self).wf(),
                n == self.entries@.len(),
                i <= n,
                forall|j: int| 0 <= j < i ==> (#[trigger] self.entries@[j]).0 != feature_id,
            decreases n - i,
        {
            if self.entries[i].0 == feature_id {
                let result: Option<Feature> = if device_index == 0 {
                    None
                } else {
                    Some(Feature { id: feature_id, index: device_index })
                };
                let mut fut: Future<Option<Feature>> = Future::new();
                fut.set(result);
                proof {
                    assert(self.states()[i as int] == (self.entries@[i as int].0, self.entries@[i as int].1@));
                    lemma_assoc_update(self.states(), i as int, Some(result));
                }
                self.entries.set(i, (feature_id, fut));
                proof {
                    assert(self.states() =~= old(self).states().update(
                        i as int,
                        (feature_id, Some(result)),
                    ));
                }
                if device_index == 0 {
                    return Err(Error::UnsupportedFeature);
                } else {
                    return Ok(Feature { id: feature_id, index: device_index });
                }
            }
            i = i + 1;
        }
        proof {
            let j = choose|j: int|
                0 <= j < self.states().len() && (#[trigger] self.states()[j]).0 == feature_id;
            assert(self.states()[j] == (self.entries@[j].0, self.entries@[j].1@));
            assert(false);
        }
        unreached()
    }
}

/// Resolver collapse: however many callers ask for the same unresolved
/// feature, only the very first is told to discover it; everyone asking
/// after that is told to wait or answered from the cache, and once the
/// discovery result is in, every caller is handed that same result.
pub proof fn lemma_resolver_collapse(
    m: Map<u16, Option<Option<Feature>>>,
    id: u16,
    device_index: u8,
)
    ensures
        ({
            let (m1, d1) = spec_resolve_step(m, id);
            let (m2, d2) = spec_resolve_step(m1, id);
            &&& d1 is MustQuery ==> !m.dom().contains(id)
            &&& !(d2 is MustQuery)
            &&& !(d1 is MustQuery) ==> m1 == m
        }),
        ({
            let (m1, d1) = spec_resolve_step(m, id);
            let (mc, r) = spec_complete(m1, id, device_index);
            let (m3, d3) = spec_resolve_step(mc, id);
            &&& m3 == mc
            &&& device_index == 0 ==> r == Err::<Feature, Error>(Error::UnsupportedFeature) && d3
                is Unsupported
            &&& device_index != 0 ==> r == Ok::<Feature, Error>(
                Feature { id, index: device_index },
            ) && d3 == ResolveDecision::Use(Feature { id, index: device_index })
        }),
{
}

} // verus!
