//! The cache operations driven end to end over an in-memory stand-in
//! for the engine's cache partition: a map from keys to raw bytes, as
//! the store model describes it.

use std::collections::HashMap;

use persistence::codec::DecodeError;
use persistence::store::build_entry;
use persistence::store::read_entry;
use persistence::store::resolve_safe;
use persistence::Cachable;

struct MemPartition {
    map: HashMap<String, Vec<u8>>,
}

impl MemPartition {
    fn new() -> MemPartition {
        MemPartition { map: HashMap::new() }
    }

    fn set<C: Cachable>(&mut self, key: &str, value: &C, ttl_ms: Option<u64>, now_ms: i64) {
        self.map.insert(key.to_string(), build_entry(value, ttl_ms, now_ms));
    }

    fn get<C: Cachable>(&self, key: &str, now_ms: i64) -> Result<Option<C>, DecodeError> {
        read_entry(self.map.get(key).map(|v| v.as_slice()), now_ms)
    }

    fn get_safe<C: Cachable>(&mut self, key: &str, now_ms: i64) -> Option<C> {
        let (value, prune) = resolve_safe(self.get(key, now_ms));
        if prune {
            self.map.remove(key);
        }
        value
    }

    fn remove(&mut self, key: &str) {
        self.map.remove(key);
    }
}

#[test]
fn set_get_remove_cycle() {
    let mut cache = MemPartition::new();
    cache.set::<u64>("a", &10, None, 0);
    assert_eq!(cache.get::<u64>("a", 5), Ok(Some(10)));
    cache.remove("a");
    assert_eq!(cache.get::<u64>("a", 5), Ok(None));
    // removing an absent key is not an error
    cache.remove("a");
    assert_eq!(cache.get::<u64>("a", 5), Ok(None));
}

#[test]
fn last_write_wins() {
    let mut cache = MemPartition::new();
    cache.set::<u64>("k", &1, Some(10), 0);
    cache.set::<u64>("k", &2, None, 5);
    assert_eq!(cache.get::<u64>("k", 1_000_000), Ok(Some(2)));
}

#[test]
fn keys_are_independent() {
    let mut cache = MemPartition::new();
    cache.set::<u64>("x", &1, None, 0);
    cache.set::<u64>("y", &2, None, 0);
    cache.remove("x");
    assert_eq!(cache.get::<u64>("x", 0), Ok(None));
    assert_eq!(cache.get::<u64>("y", 0), Ok(Some(2)));
}

#[test]
fn corrupt_record_heals_on_safe_read() {
    let mut cache = MemPartition::new();
    // replace the stored bytes with ones no record decodes from
    cache.map.insert("bad".to_string(), vec![9, 9, 9]);
    assert_eq!(cache.get::<u64>("bad", 0), Err(DecodeError::BadTag));
    assert_eq!(cache.get_safe::<u64>("bad", 0), None);
    // the raw slot is gone afterwards
    assert!(cache.map.get("bad").is_none());
    assert_eq!(cache.get::<u64>("bad", 0), Ok(None));
}

#[test]
fn safe_read_keeps_healthy_records() {
    let mut cache = MemPartition::new();
    cache.set::<u64>("ok", &33, None, 0);
    assert_eq!(cache.get_safe::<u64>("ok", 10), Some(33));
    assert!(cache.map.get("ok").is_some());
}

#[test]
fn stale_version_stays_in_place() {
    let mut cache = MemPartition::new();
    cache.set::<u64>("v", &123, None, 0);
    // a reader declaring another schema version misses but deletes nothing
    assert_eq!(cache.get::<u32>("v", 0), Ok(None));
    assert_eq!(cache.get_safe::<u32>("v", 0), None);
    assert!(cache.map.get("v").is_some());
    // the matching reader still sees the record
    assert_eq!(cache.get::<u64>("v", 0), Ok(Some(123)));
}
