use shadertoy_browser::registry::{PipelineCache, SurfaceAction, SurfaceState};
use std::collections::HashSet;
use rayon::iter::{IntoParallelIterator, ParallelIterator};
use std::sync::Mutex;

#[test]
fn handles_are_indices_in_order_of_registration() {
    let mut cache: PipelineCache<&str> = PipelineCache::new();
    assert_eq!(cache.len(), 0);
    assert!(!cache.is_valid(0));
    assert_eq!(cache.register("a"), 0);
    assert_eq!(cache.register("b"), 1);
    assert_eq!(cache.register("c"), 2);
    assert_eq!(cache.len(), 3);
    assert_eq!(cache.get(0), Some(&"a"));
    assert_eq!(cache.get(1), Some(&"b"));
    assert_eq!(cache.get(2), Some(&"c"));
    assert_eq!(cache.get(3), None);
    assert!(cache.is_valid(2));
    assert!(!cache.is_valid(3));
}

#[test]
fn earlier_handles_stay_valid() {
    let mut cache: PipelineCache<u32> = PipelineCache::new();
    let first = cache.register(10);
    for k in 0..100 {
        cache.register(k);
        assert_eq!(cache.get(first), Some(&10));
    }
}

#[test]
fn concurrent_registrations_lose_nothing() {
    let workers: usize = 8;
    let each: usize = 50;
    let cache = Mutex::new(PipelineCache::<(usize, usize)>::new());
    let issued = Mutex::new(Vec::<(usize, (usize, usize))>::new());
    (0..workers).into_par_iter().for_each(|w| {
        for k in 0..each {
            let handle = cache.lock().unwrap().register((w, k));
            issued.lock().unwrap().push((handle, (w, k)));
        }
    });
    let cache = cache.into_inner().unwrap();
    let issued = issued.into_inner().unwrap();
    assert_eq!(cache.len(), workers * each);
    let handles: HashSet<usize> = issued.iter().map(|(h, _)| *h).collect();
    assert_eq!(handles.len(), workers * each);
    for (handle, pipeline) in issued.iter() {
        assert_eq!(cache.get(*handle), Some(pipeline));
    }
}

#[test]
fn surface_becomes_ready_and_stays_ready() {
    let mut surface = SurfaceState::Uninitialized;
    assert_eq!(surface.init_window(1024, 768), SurfaceAction::Create { width: 1024, height: 768 });
    assert_eq!(surface, SurfaceState::Ready { width: 1024, height: 768 });
    assert_eq!(surface.init_window(1024, 768), SurfaceAction::Recreate { width: 1024, height: 768 });
    assert_eq!(surface, SurfaceState::Ready { width: 1024, height: 768 });
    assert_eq!(surface.init_window(800, 600), SurfaceAction::Recreate { width: 800, height: 600 });
    assert_eq!(surface, SurfaceState::Ready { width: 800, height: 600 });
}
