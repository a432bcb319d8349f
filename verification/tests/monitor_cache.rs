use breeze::monitor::{hash_display, MonitorCache, ScreenCache, TauriDisplays};
use std::cell::RefCell;
use std::rc::Rc;
use breeze::ports::{Display, DisplayEnumerationPort, DisplayId, Rect};

#[test]
fn the_same_screen_hashes_to_the_same_id() {
    assert_eq!(
        hash_display(Some("DELL"), 0, 0),
        hash_display(Some("DELL"), 0, 0)
    );
}

#[test]
fn two_identical_screens_at_different_positions_differ() {
    assert_ne!(
        hash_display(Some("DELL"), 0, 0),
        hash_display(Some("DELL"), 1920, 0)
    );
}

#[test]
fn a_nameless_screen_still_gets_an_id_bound_to_its_position() {
    assert_ne!(hash_display(None, 0, 0), hash_display(None, 0, 1080));
}

fn fnv1a(bytes: &[u8]) -> u32 {
    let mut hash: u32 = 0x811C_9DC5;
    for byte in bytes {
        hash ^= u32::from(*byte);
        hash = hash.wrapping_mul(0x0100_0193);
    }
    hash
}

#[test]
fn the_id_is_fnv1a_of_the_name_then_both_coordinates_in_little_endian() {
    let mut key = b"DELL".to_vec();
    key.extend_from_slice(&(-1920i32).to_le_bytes());
    key.extend_from_slice(&1080i32.to_le_bytes());
    assert_eq!(hash_display(Some("DELL"), -1920, 1080), DisplayId(fnv1a(&key)));
    let mut nameless = Vec::new();
    nameless.extend_from_slice(&7i32.to_le_bytes());
    nameless.extend_from_slice(&(-3i32).to_le_bytes());
    assert_eq!(hash_display(None, 7, -3), DisplayId(fnv1a(&nameless)));
}

#[test]
fn an_empty_name_hashes_like_no_name() {
    assert_eq!(hash_display(Some(""), 5, 6), hash_display(None, 5, 6));
}

fn display(id: u32, x: i32) -> Display {
    Display {
        id: DisplayId(id),
        bounds: Rect {
            x,
            y: 0,
            width: 1920,
            height: 1080,
        },
    }
}

#[test]
fn the_cache_gives_back_the_screens_last_stored() {
    let mut cache = MonitorCache::new();
    assert!(cache.snapshot().is_empty());
    cache.store(vec![display(1, 0), display(2, 1920)]);
    cache.store(vec![display(3, -1920)]);
    assert_eq!(cache.snapshot(), vec![display(3, -1920)]);
}

#[test]
fn the_displays_port_serves_the_cached_screens() {
    let mut cache = MonitorCache::new();
    cache.store(vec![display(1, 0), display(2, 1920)]);
    let displays = TauriDisplays::new(cache);
    assert_eq!(displays.displays(), vec![display(1, 0), display(2, 1920)]);
}

#[derive(Clone)]
struct SharedCache(Rc<RefCell<MonitorCache>>);

impl ScreenCache for SharedCache {
    fn snapshot(&self) -> Vec<Display> {
        self.0.borrow().snapshot()
    }
}

#[test]
fn the_displays_port_follows_refreshes_made_through_another_handle() {
    let cache = SharedCache(Rc::new(RefCell::new(MonitorCache::new())));
    let refresher = cache.clone();
    let displays = TauriDisplays::new(cache);
    assert!(displays.displays().is_empty());
    refresher.0.borrow_mut().store(vec![display(4, 0)]);
    assert_eq!(displays.displays(), vec![display(4, 0)]);
    refresher.0.borrow_mut().store(vec![display(5, 1920), display(6, 0)]);
    assert_eq!(displays.displays(), vec![display(5, 1920), display(6, 0)]);
}
