//! Cache for annotation maps, to avoid redundant loading within a frame.
//!
//! Annotation maps are loaded per query (timeline plus time point) and the
//! cache is cleared at the beginning of each frame, so multiple views
//! querying at different times each get the correct annotations for their
//! query while a repeated query within one frame is answered from the
//! cache. Loading itself is an outside collaborator: on a miss the
//! embedder loads the map and inserts it here. The cache is also cleared
//! whenever store events touch an annotation context, since any cached map
//! may then be stale.

use vstd::prelude::*;

verus! {

/// A latest-at query: a timeline and a time point on it; the cache key.
#[derive(Clone, Debug)]
pub struct LatestAtQuery {
    pub timeline: String,
    pub at: i64,
}

impl LatestAtQuery {
    /// Field-wise equality of two queries.
    pub open spec fn spec_matches(&self, other: &Self) -> bool {
        self.timeline@ == other.timeline@ && self.at == other.at
    }

    /// Are the two queries the same?
    pub fn matches(&self, other: &Self) -> (r: bool)
        ensures
            r == self.spec_matches(other),
    {
        self.timeline.eq(&other.timeline) && self.at == other.at
    }
}

/// Cache of annotation maps keyed by query. The annotation map itself is
/// opaque to the cache, which only stores and returns it.
#[verifier::reject_recursive_types(V)]
pub struct AnnotationMapCache<V> {
    /// At most one entry per query; maintained by `insert`.
    pub cached: Vec<(LatestAtQuery, V)>,
}

impl<V> AnnotationMapCache<V> {
    /// At most one entry per query.
    pub open spec fn wf(&self) -> bool {
        forall|i: int, j: int|
            #![trigger self.cached@[i], self.cached@[j]]
            0 <= i < j < self.cached@.len() ==> !self.cached@[i].0.spec_matches(&self.cached@[j].0)
    }

    /// Is a map for this query cached?
    pub open spec fn spec_hit(&self, query: &LatestAtQuery) -> bool {
        exists|i: int|
            0 <= i < self.cached@.len() && (#[trigger] self.cached@[i]).0.spec_matches(query)
    }

    /// An empty cache.
    pub fn new() -> (r: Self)
        ensures
            r.wf(),
            r.cached@.len() == 0,
    {
        AnnotationMapCache { cached: Vec::new() }
    }

    /// The cached annotation map for this query, if one was inserted since
    /// the last clear. `None` is a miss: the embedder loads the map and
    /// `insert`s it.
    pub fn get(&self, query: &LatestAtQuery) -> (r: Option<&V>)
        ensures
            r is Some <==> self.spec_hit(query),
            r matches Some(v) ==> exists|i: int|
                0 <= i < self.cached@.len() && (#[trigger] self.cached@[i]).0.spec_matches(query)
                    && *v == self.cached@[i].1,
    {
        let n = self.cached.len();
        let mut i: usize = 0;
        while i < n
            invariant
                i <= n,
                n == self.cached@.len(),
                forall|k: int|
                    0 <= k < i ==> !(#[trigger] self.cached@[k]).0.spec_matches(query),
            decreases n - i,
        {
            let hit = self.cached[i].0.matches(query);
            if hit {
                return Some(&self.cached[i].1);
            }
            i = i + 1;
        }
        None
    }

    /// Caches the freshly loaded annotation map for a query; a query that
    /// is already cached keeps its old map.
    pub fn insert(&mut self, query: LatestAtQuery, value: V)
        requires
            old(self).wf(),
        ensures
            final(self).wf(),
            final(self).spec_hit(&query),
    {
        let n = self.cached.len();
        let mut i: usize = 0;
        while i < n
            invariant
                i <= n,
                n == self.cached@.len(),
                self.wf(),
                *self == *old(self),
                forall|k: int|
                    0 <= k < i ==> !(#[trigger] self.cached@[k]).0.spec_matches(&query),
            decreases n - i,
        {
            let hit = self.cached[i].0.matches(&query);
            if hit {
                proof {
                    assert(self.cached@[i as int].0.spec_matches(&query));
                }
                return ;
            }
            i = i + 1;
        }
        let ghost pre = *self;
        self.cached.push((query, value));
        proof {
            let last = self.cached@.len() - 1;
            assert(self.cached@[last].0.spec_matches(&self.cached@[last].0));
            assert forall|a: int, b: int|
                0 <= a < b < self.cached@.len() implies !self.cached@[a].0.spec_matches(
                &self.cached@[b].0,
            ) by {
                if b < last {
                    assert(self.cached@[a] == pre.cached@[a]);
                    assert(self.cached@[b] == pre.cached@[b]);
                } else {
                    assert(self.cached@[a] == pre.cached@[a]);
                }
            }
        }
    }

    /// Clears all cached queries; called at the beginning of each frame.
    pub fn begin_frame(&mut self)
        ensures
            final(self).wf(),
            final(self).cached@.len() == 0,
    {
        self.cached.clear();
    }

    /// Drops every cached map to give memory back.
    pub fn purge_memory(&mut self)
        ensures
            final(self).wf(),
            final(self).cached@.len() == 0,
    {
        self.cached.clear();
    }

    /// Reacts to store events: if any event touched an annotation context,
    /// every cached map may be stale and the cache is cleared; otherwise
    /// nothing changes.
    pub fn on_store_events(&mut self, has_annotation_context_changes: bool)
        ensures
            has_annotation_context_changes ==> final(self).cached@.len() == 0,
            !has_annotation_context_changes ==> *final(self) == *old(self),
    {
        if has_annotation_context_changes {
            self.cached.clear();
        }
    }

    /// The cache's display name.
    pub fn name(&self) -> (r: &'static str)
        ensures
            r@ == "Annotation Map Cache"@,
    {
        "Annotation Map Cache"
    }
}

} // verus!
