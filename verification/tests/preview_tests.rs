use mcraw_tui::file::BayerPattern;
use mcraw_tui::preview::{
    bayer_phase_to_u32, CachedFrame, FrameCache, FrameKey, PipelineCache, PipelineKey,
    PreviewState,
};

fn frame(ts: i64, samples: usize, last_access: u64) -> CachedFrame {
    CachedFrame { timestamp_ns: ts, bayer: vec![0u16; samples], last_access }
}

#[test]
fn cache_key_equality() {
    let k1 = PipelineKey { color_space: 1, transfer: 2, adjust_enabled: 0 };
    let k2 = PipelineKey { color_space: 1, transfer: 2, adjust_enabled: 0 };
    let k3 = PipelineKey { color_space: 1, transfer: 3, adjust_enabled: 0 };
    assert_eq!(k1, k2);
    assert_ne!(k1, k3);
}

#[test]
fn cache_lru_eviction_keys() {
    let mut cache = PipelineCache::<()>::new();
    cache.max_entries = 3;

    let keys: Vec<PipelineKey> = (0..4)
        .map(|i| PipelineKey { color_space: i, transfer: 0, adjust_enabled: 0 })
        .collect();

    for k in &keys[0..3] {
        cache.access_order.push(*k);
    }
    assert_eq!(cache.access_order.len(), 3);

    cache.access_order.retain(|k| k != &keys[1]);
    cache.access_order.push(keys[1]);
    assert_eq!(*cache.access_order.last().unwrap(), keys[1]);

    cache.access_order.push(keys[3]);
    assert_eq!(cache.access_order.len(), 4);
}

#[test]
fn cache_eviction() {
    let mut cache = FrameCache::new(1); // 1 MB
    cache.insert(frame(0, 100, 0)); // 200 bytes
    assert_eq!(cache.len(), 1);

    let key = FrameKey { timestamp_ns: 0 };
    assert!(cache.get(&key).is_some());
}

#[test]
fn cache_clear() {
    let mut cache = FrameCache::new(256);
    cache.insert(frame(42, 1000, 0));
    assert!(!cache.is_empty());
    cache.clear();
    assert!(cache.is_empty());
    assert_eq!(cache.current_bytes(), 0);
}

#[test]
fn frame_cache_evicts_least_recently_used() {
    let mut cache = FrameCache::new(1); // 1 MiB = 1048576 bytes
    let quarter = 1048576 / 2 / 4; // samples of a quarter of the budget
    cache.insert(frame(1, quarter, 1));
    cache.insert(frame(2, quarter, 2));
    cache.insert(frame(3, quarter, 3));
    cache.insert(frame(4, quarter, 4));
    assert_eq!(cache.len(), 4);
    assert_eq!(cache.current_bytes(), 1048576);
    // use frame 1 again: frame 2 is now the least recently used
    assert!(cache.get(&FrameKey { timestamp_ns: 1 }).is_some());
    cache.insert(frame(5, quarter, 5));
    assert_eq!(cache.len(), 4);
    assert!(cache.get(&FrameKey { timestamp_ns: 2 }).is_none());
    assert!(cache.get(&FrameKey { timestamp_ns: 1 }).is_some());
    assert_eq!(cache.current_bytes(), 1048576);
}

#[test]
fn frame_cache_replaces_same_timestamp() {
    let mut cache = FrameCache::new(1);
    cache.insert(frame(7, 10, 0));
    cache.insert(frame(7, 30, 0));
    assert_eq!(cache.len(), 1);
    assert_eq!(cache.current_bytes(), 60);
    assert_eq!(cache.get(&FrameKey { timestamp_ns: 7 }).unwrap().bayer.len(), 30);
}

#[test]
fn frame_cache_keeps_an_oversized_frame_alone() {
    let mut cache = FrameCache::new(1);
    cache.insert(frame(1, 10, 0));
    cache.insert(frame(2, 1048576, 1)); // 2 MiB
    assert_eq!(cache.len(), 1);
    assert_eq!(cache.current_bytes(), 2 * 1048576);
    assert!(cache.get(&FrameKey { timestamp_ns: 1 }).is_none());
}

#[test]
fn frame_byte_size_counts_two_bytes_per_sample() {
    assert_eq!(frame(0, 123, 0).byte_size(), 246);
}

#[test]
fn pipeline_cache_get_moves_key_to_back() {
    let mut cache = PipelineCache::new();
    let a = PipelineKey { color_space: 1, transfer: 0, adjust_enabled: 0 };
    let b = PipelineKey { color_space: 2, transfer: 0, adjust_enabled: 0 };
    cache.insert(a, "a");
    cache.insert(b, "b");
    assert_eq!(cache.access_order, vec![a, b]);
    assert_eq!(cache.get(&a), Some(&"a"));
    assert_eq!(cache.access_order, vec![b, a]);
    assert_eq!(cache.get(&PipelineKey { color_space: 9, transfer: 0, adjust_enabled: 0 }), None);
    assert_eq!(cache.len(), 2);
}

#[test]
fn pipeline_cache_evicts_front_key_when_full() {
    let mut cache = PipelineCache::new();
    cache.max_entries = 2;
    let k = |i: u32| PipelineKey { color_space: i, transfer: 1, adjust_enabled: 1 };
    cache.insert(k(1), 10);
    cache.insert(k(2), 20);
    cache.get(&k(1));
    cache.insert(k(3), 30);
    assert_eq!(cache.len(), 2);
    assert_eq!(cache.get(&k(2)), None);
    assert_eq!(cache.get(&k(1)), Some(&10));
    assert_eq!(cache.get(&k(3)), Some(&30));
}

#[test]
fn preview_state_predicates() {
    let s: PreviewState = Default::default();
    assert!(s.is_empty());
    assert!(!s.is_loading());
    let l = PreviewState::Loading { started: std::time::Instant::now() };
    assert!(l.is_loading());
    let r = PreviewState::Ready { sixel: vec![1], width: 1, height: 1 };
    assert!(r.is_ready());
    assert!(!PreviewState::Error("x".to_string()).is_ready());
}

#[test]
fn bayer_phases() {
    assert_eq!(bayer_phase_to_u32(&BayerPattern::RGGB), 0);
    assert_eq!(bayer_phase_to_u32(&BayerPattern::QuadBayerGRBG), 1);
    assert_eq!(bayer_phase_to_u32(&BayerPattern::GBRG), 2);
    assert_eq!(bayer_phase_to_u32(&BayerPattern::QuadBayerBGGR), 3);
}

#[test]
fn pipeline_cache_keeps_keys_with_shifted_fields_apart() {
    let mut cache = PipelineCache::new();
    let keys = [
        PipelineKey { color_space: 1, transfer: 0, adjust_enabled: 0 },
        PipelineKey { color_space: 0, transfer: 1, adjust_enabled: 0 },
        PipelineKey { color_space: 0, transfer: 0, adjust_enabled: 1 },
        PipelineKey { color_space: u32::MAX, transfer: u32::MAX, adjust_enabled: u32::MAX },
    ];
    for (i, k) in keys.iter().enumerate() {
        cache.insert(*k, i);
    }
    assert_eq!(cache.len(), 4);
    for (i, k) in keys.iter().enumerate() {
        assert_eq!(cache.get(k), Some(&i));
    }
}
