use smart_channel::annotation_map_cache::AnnotationMapCache;
use smart_channel::annotation_map_cache::LatestAtQuery;
use smart_channel::visualizable_entities_cache::ChunkStoreGeneration;
use smart_channel::visualizable_entities_cache::MaybeVisualizableEntities;
use smart_channel::visualizable_entities_cache::PerVisualizer;
use smart_channel::visualizable_entities_cache::ViewId;
use smart_channel::visualizable_entities_cache::VisualizableEntitiesCache;
use smart_channel::visualizable_entities_cache::VisualizableEntitiesCacheKey;
use smart_channel::visualizable_entities_cache::subscriber_fingerprint;

fn per_visualizer_with_entities(visualizer: &str, entities: &[&str]) -> PerVisualizer {
    let mut per_visualizer = PerVisualizer::new();
    let mut maybe_entities = MaybeVisualizableEntities::new();

    for entity in entities {
        maybe_entities.insert(String::from(*entity));
    }

    per_visualizer.insert(String::from(visualizer), maybe_entities);

    per_visualizer
}

#[test]
fn fingerprint_differs_for_different_entities() {
    let set_a = per_visualizer_with_entities("viz", &["/a", "/b"]);
    let set_b = per_visualizer_with_entities("viz", &["/a", "/c"]);

    let fingerprint_a = subscriber_fingerprint(&set_a);
    let fingerprint_b = subscriber_fingerprint(&set_b);

    assert_ne!(fingerprint_a, fingerprint_b);
}

#[test]
fn fingerprint_stable_across_iteration_order() {
    let set_a = per_visualizer_with_entities("viz", &["/a", "/b"]);
    let set_b = per_visualizer_with_entities("viz", &["/b", "/a"]);

    let fingerprint_a = subscriber_fingerprint(&set_a);
    let fingerprint_b = subscriber_fingerprint(&set_b);

    assert_eq!(fingerprint_a, fingerprint_b);
}

#[test]
fn fingerprint_differs_for_different_visualizers() {
    let set_a = per_visualizer_with_entities("viz", &["/a"]);
    let set_b = per_visualizer_with_entities("other", &["/a"]);
    assert_ne!(subscriber_fingerprint(&set_a), subscriber_fingerprint(&set_b));
}

#[test]
fn duplicate_entities_are_kept_once() {
    let set_a = per_visualizer_with_entities("viz", &["/a", "/a", "/b"]);
    let set_b = per_visualizer_with_entities("viz", &["/a", "/b"]);
    assert_eq!(subscriber_fingerprint(&set_a), subscriber_fingerprint(&set_b));
}

fn key(generation: u64, fingerprint: u64) -> VisualizableEntitiesCacheKey {
    VisualizableEntitiesCacheKey {
        recording_generation: ChunkStoreGeneration { insert_id: generation, gc_id: 0 },
        space_origin: String::from("/world"),
        class_identifier: String::from("3d"),
        subscriber_fingerprint: fingerprint,
    }
}

#[test]
fn cache_hit_requires_matching_key() {
    let mut cache = VisualizableEntitiesCache::new();
    let view = ViewId { value: 1 };
    let entities = per_visualizer_with_entities("viz", &["/a"]);

    assert!(cache.lookup(view, &key(1, 10)).is_none());

    cache.store(view, key(1, 10), entities);
    assert!(cache.lookup(view, &key(1, 10)).is_some());

    // A changed recording generation or fingerprint misses.
    assert!(cache.lookup(view, &key(2, 10)).is_none());
    assert!(cache.lookup(view, &key(1, 11)).is_none());

    // Another view misses.
    assert!(cache.lookup(ViewId { value: 2 }, &key(1, 10)).is_none());
}

#[test]
fn cache_remove_and_clear() {
    let mut cache = VisualizableEntitiesCache::new();
    let view_a = ViewId { value: 1 };
    let view_b = ViewId { value: 2 };
    cache.store(view_a, key(1, 10), per_visualizer_with_entities("viz", &["/a"]));
    cache.store(view_b, key(1, 20), per_visualizer_with_entities("viz", &["/b"]));
    assert_eq!(cache.stats().cached_views, 2);

    cache.remove(&view_a);
    assert_eq!(cache.stats().cached_views, 1);
    assert!(cache.lookup(view_a, &key(1, 10)).is_none());
    assert!(cache.lookup(view_b, &key(1, 20)).is_some());

    cache.clear();
    assert_eq!(cache.stats().cached_views, 0);
}

#[test]
fn cache_store_replaces_previous_entry() {
    let mut cache = VisualizableEntitiesCache::new();
    let view = ViewId { value: 1 };
    cache.store(view, key(1, 10), per_visualizer_with_entities("viz", &["/a"]));
    cache.store(view, key(2, 10), per_visualizer_with_entities("viz", &["/a"]));
    assert_eq!(cache.stats().cached_views, 1);
    assert!(cache.lookup(view, &key(1, 10)).is_none());
    assert!(cache.lookup(view, &key(2, 10)).is_some());
}

fn query(timeline: &str, at: i64) -> LatestAtQuery {
    LatestAtQuery { timeline: String::from(timeline), at }
}

#[test]
fn annotation_cache_serves_repeated_queries() {
    let mut cache: AnnotationMapCache<String> = AnnotationMapCache::new();
    assert!(cache.get(&query("frame", 10)).is_none());

    cache.insert(query("frame", 10), String::from("annotations at ten"));
    assert_eq!(cache.get(&query("frame", 10)).unwrap(), "annotations at ten");

    // A different time or timeline is a different query.
    assert!(cache.get(&query("frame", 11)).is_none());
    assert!(cache.get(&query("time", 10)).is_none());
}

#[test]
fn annotation_cache_clears_between_frames() {
    let mut cache: AnnotationMapCache<String> = AnnotationMapCache::new();
    cache.insert(query("frame", 10), String::from("stale"));
    cache.begin_frame();
    assert!(cache.get(&query("frame", 10)).is_none());
}

#[test]
fn annotation_cache_invalidates_on_context_changes() {
    let mut cache: AnnotationMapCache<String> = AnnotationMapCache::new();
    cache.insert(query("frame", 10), String::from("loaded"));

    cache.on_store_events(false);
    assert!(cache.get(&query("frame", 10)).is_some());

    cache.on_store_events(true);
    assert!(cache.get(&query("frame", 10)).is_none());

    assert_eq!(cache.name(), "Annotation Map Cache");
}

#[test]
fn get_or_determine_runs_the_determination_once() {
    let mut cache = VisualizableEntitiesCache::new();
    let view = ViewId { value: 9 };

    let mut determined = 0u32;
    let result = cache.get_or_determine(view, &key(1, 10), || {
        determined += 1;
        per_visualizer_with_entities("viz", &["/a", "/b"])
    });
    assert_eq!(result.items.len(), 1);
    assert_eq!(determined, 1);

    // The second call with the same key is a hit: no determination.
    let mut called_again = false;
    let result = cache.get_or_determine(view, &key(1, 10), || {
        called_again = true;
        per_visualizer_with_entities("viz", &[])
    });
    assert_eq!(result.items[0].1.entities.len(), 2);
    assert!(!called_again);

    // A changed key is a miss and recomputes.
    let mut recomputed = false;
    cache.get_or_determine(view, &key(2, 10), || {
        recomputed = true;
        per_visualizer_with_entities("viz", &["/c"])
    });
    assert!(recomputed);
}
