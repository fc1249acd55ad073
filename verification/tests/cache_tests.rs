use mailgate::cache::{fingerprint, simple_hash, CursorCache};
use mailgate::model::ListParams;

fn query(q: Option<&str>, labels: Option<&str>, max: Option<u32>, page: Option<u32>) -> ListParams {
    ListParams {
        label_ids: labels.map(str::to_string),
        max_results: max,
        q: q.map(str::to_string),
        page_token: None,
        page_number: page,
        collapse_threads: None,
    }
}

#[test]
fn simple_hash_is_the_decimal_fnv1a_of_the_bytes() {
    assert_eq!(simple_hash(""), "14695981039346656037");
    assert_eq!(simple_hash("a"), "12638187200555641996");
}

#[test]
fn fingerprint_is_idempotent() {
    let p1 = query(Some("invoice"), Some("INBOX"), Some(25), Some(1));
    let p2 = query(Some("invoice"), Some("INBOX"), Some(25), Some(7));
    let f1 = fingerprint("token-1", &p1);
    let f2 = fingerprint("token-1", &p1);
    let f3 = fingerprint("token-1", &p2);
    assert_eq!(f1, f2);
    assert_eq!(f1, f3, "page number must not enter the fingerprint");
}

#[test]
fn fingerprint_separates_callers_and_filters() {
    let p = query(Some("invoice"), None, None, None);
    assert_ne!(fingerprint("token-1", &p), fingerprint("token-2", &p));
    let other = query(Some("receipt"), None, None, None);
    assert_ne!(fingerprint("token-1", &p), fingerprint("token-1", &other));
}

#[test]
fn fingerprint_defaults_page_size_to_ten() {
    let explicit = query(None, None, Some(10), None);
    let defaulted = query(None, None, None, None);
    assert_eq!(fingerprint("t", &explicit), fingerprint("t", &defaulted));
}

#[test]
fn lookup_finds_what_store_put() {
    let mut cache = CursorCache::new();
    assert_eq!(cache.lookup("fp", 2), None);
    cache.store("fp", 2, "cursor-a".to_string());
    assert_eq!(cache.lookup("fp", 2).as_deref(), Some("cursor-a"));
    assert_eq!(cache.lookup("fp", 3), None);
    assert_eq!(cache.lookup("other", 2), None);
}

#[test]
fn last_write_wins() {
    let mut cache = CursorCache::new();
    cache.store("fp", 2, "stale".to_string());
    cache.store("fp", 2, "fresh".to_string());
    assert_eq!(cache.lookup("fp", 2).as_deref(), Some("fresh"));
}

#[test]
fn keys_are_fingerprint_and_page_together() {
    let mut cache = CursorCache::new();
    cache.store("fp-a", 2, "two".to_string());
    cache.store("fp-a", 3, "three".to_string());
    cache.store("fp-b", 2, "other".to_string());
    assert_eq!(cache.lookup("fp-a", 2).as_deref(), Some("two"));
    assert_eq!(cache.lookup("fp-a", 3).as_deref(), Some("three"));
    assert_eq!(cache.lookup("fp-b", 2).as_deref(), Some("other"));
}
