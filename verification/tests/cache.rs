use brewery::cache::{merge_details, DetailsCache, DETAILS_CACHE_CAPACITY};
use brewery::gateway::Details;

fn strings(items: &[&str]) -> Vec<String> {
    items.iter().map(|s| s.to_string()).collect()
}

fn basic(desc: &str) -> Details {
    Details {
        desc: Some(desc.to_string()),
        homepage: Some("https://example.org".to_string()),
        latest: Some("1.0".to_string()),
        installed: strings(&["1.0"]),
        deps: None,
        uses: None,
        artifacts: None,
    }
}

fn full(desc: &str) -> Details {
    let mut d = basic(desc);
    d.deps = Some(strings(&["openssl"]));
    d.uses = Some(strings(&["curl", "git"]));
    d
}

#[test]
fn overlay_of_a_full_record_takes_its_fields() {
    let mut a = basic("old");
    let mut b = full("new");
    b.homepage = None;
    b.installed = strings(&["1.1", "1.0"]);
    merge_details(&mut a, &b);
    assert_eq!(a.desc, Some("new".to_string()));
    assert_eq!(a.homepage, None);
    assert_eq!(a.latest, Some("1.0".to_string()));
    assert_eq!(a.installed, strings(&["1.1", "1.0"]));
    assert_eq!(a.deps, Some(strings(&["openssl"])));
    assert_eq!(a.uses, Some(strings(&["curl", "git"])));
}

#[test]
fn overlay_of_a_basic_record_keeps_dependencies() {
    let mut a = full("old");
    a.artifacts = Some(strings(&["app: Foo.app"]));
    let b = basic("new");
    merge_details(&mut a, &b);
    assert_eq!(a.desc, Some("new".to_string()));
    assert_eq!(a.deps, Some(strings(&["openssl"])));
    assert_eq!(a.uses, Some(strings(&["curl", "git"])));
    assert_eq!(a.artifacts, Some(strings(&["app: Foo.app"])));
}

#[test]
fn overlay_is_idempotent() {
    let mut once = basic("old");
    let b = full("new");
    merge_details(&mut once, &b);
    let mut twice = once.duplicate();
    merge_details(&mut twice, &b);
    assert_eq!(format!("{:?}", once), format!("{:?}", twice));
}

#[test]
fn cache_starts_empty() {
    let cache = DetailsCache::new();
    assert_eq!(cache.len(), 0);
    assert!(cache.get("wget").is_none());
}

#[test]
fn cache_holds_what_was_put_in() {
    let mut cache = DetailsCache::new();
    cache.get_mut_or_insert("wget".to_string(), basic("fetcher"));
    assert_eq!(cache.len(), 1);
    assert_eq!(cache.get("wget").unwrap().desc, Some("fetcher".to_string()));
    assert!(cache.get("curl").is_none());
}

#[test]
fn cache_lays_a_second_record_over_the_first() {
    let mut cache = DetailsCache::new();
    cache.get_mut_or_insert("wget".to_string(), full("fetcher"));
    cache.get_mut_or_insert("wget".to_string(), basic("better fetcher"));
    assert_eq!(cache.len(), 1);
    let held = cache.get("wget").unwrap();
    assert_eq!(held.desc, Some("better fetcher".to_string()));
    assert_eq!(held.deps, Some(strings(&["openssl"])));
}

#[test]
fn cache_keeps_to_its_capacity() {
    let mut cache = DetailsCache::new();
    for i in 0..DETAILS_CACHE_CAPACITY + 1 {
        cache.get_mut_or_insert(format!("pkg{}", i), basic("x"));
        assert!(cache.len() <= DETAILS_CACHE_CAPACITY);
    }
    assert_eq!(cache.len(), DETAILS_CACHE_CAPACITY);
    assert!(cache.get("pkg0").is_none());
    for i in 1..DETAILS_CACHE_CAPACITY + 1 {
        assert!(cache.get(&format!("pkg{}", i)).is_some());
    }
}

#[test]
fn access_protects_from_eviction() {
    let mut cache = DetailsCache::new();
    for i in 0..DETAILS_CACHE_CAPACITY {
        cache.get_mut_or_insert(format!("pkg{}", i), basic("x"));
    }
    assert!(cache.access("pkg0").is_some());
    cache.get_mut_or_insert("fresh".to_string(), basic("x"));
    assert_eq!(cache.len(), DETAILS_CACHE_CAPACITY);
    assert!(cache.get("pkg0").is_some());
    assert!(cache.get("pkg1").is_none());
    assert!(cache.get("fresh").is_some());
}

#[test]
fn peeking_does_not_protect_from_eviction() {
    let mut cache = DetailsCache::new();
    for i in 0..DETAILS_CACHE_CAPACITY {
        cache.get_mut_or_insert(format!("pkg{}", i), basic("x"));
    }
    assert!(cache.get("pkg0").is_some());
    cache.get_mut_or_insert("fresh".to_string(), basic("x"));
    assert!(cache.get("pkg0").is_none());
    assert!(cache.get("pkg1").is_some());
}

#[test]
fn an_arrival_counts_as_a_use() {
    let mut cache = DetailsCache::new();
    for i in 0..DETAILS_CACHE_CAPACITY {
        cache.get_mut_or_insert(format!("pkg{}", i), basic("x"));
    }
    cache.get_mut_or_insert("pkg0".to_string(), basic("y"));
    cache.get_mut_or_insert("fresh".to_string(), basic("x"));
    assert!(cache.get("pkg0").is_some());
    assert!(cache.get("pkg1").is_none());
}

#[test]
fn access_of_a_missing_key_changes_nothing() {
    let mut cache = DetailsCache::new();
    cache.get_mut_or_insert("wget".to_string(), basic("x"));
    assert!(cache.access("curl").is_none());
    assert_eq!(cache.len(), 1);
}
