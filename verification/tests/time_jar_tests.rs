use rust_fetch::time_jar::TimeJar;

fn origins(jar: &TimeJar, since: u64) -> Vec<String> {
    jar.cookies_since(since).into_iter().map(|n| n.origin).collect()
}

#[test]
fn since_returns_only_strictly_later_entries() {
    let mut jar = TimeJar::new();
    jar.set_cookies(5, "https://a.example".to_string(), vec!["a=1".to_string()]);
    jar.set_cookies(10, "https://b.example".to_string(), vec!["b=2".to_string()]);
    jar.set_cookies(15, "https://c.example".to_string(), vec!["c=3".to_string()]);

    // Strictly after 5: the entry at 5 itself is excluded.
    assert_eq!(origins(&jar, 5), vec!["https://b.example", "https://c.example"]);
    assert_eq!(origins(&jar, 0), vec!["https://a.example", "https://b.example", "https://c.example"]);
}

#[test]
fn since_is_empty_when_nothing_later_was_recorded() {
    let mut jar = TimeJar::new();
    jar.set_cookies(5, "https://a.example".to_string(), vec!["a=1".to_string()]);
    assert!(jar.cookies_since(5).is_empty());
    assert!(jar.cookies_since(20).is_empty());
    assert!(TimeJar::new().cookies_since(0).is_empty());
}

#[test]
fn since_preserves_chronological_order() {
    let mut jar = TimeJar::new();
    jar.set_cookies(3, "https://first.example".to_string(), vec!["x=1".to_string()]);
    jar.set_cookies(7, "https://second.example".to_string(), vec!["y=2".to_string()]);
    jar.set_cookies(9, "https://third.example".to_string(), vec!["z=3".to_string()]);
    assert_eq!(
        origins(&jar, 1),
        vec!["https://first.example", "https://second.example", "https://third.example"]
    );
}

#[test]
fn equal_times_keep_insertion_order() {
    let mut jar = TimeJar::new();
    jar.set_cookies(4, "https://a.example".to_string(), vec!["a=1".to_string()]);
    jar.set_cookies(4, "https://b.example".to_string(), vec!["b=2".to_string()]);
    assert_eq!(origins(&jar, 0), vec!["https://a.example", "https://b.example"]);
}

#[test]
fn entries_group_all_values_of_one_response() {
    let mut jar = TimeJar::new();
    jar.set_cookies(
        2,
        "https://a.example".to_string(),
        vec!["sid=abc".to_string(), "theme=dark".to_string()],
    );
    let got = jar.cookies_since(0);
    assert_eq!(got.len(), 1);
    assert_eq!(got[0].origin, "https://a.example");
    assert_eq!(got[0].cookies, vec!["sid=abc".to_string(), "theme=dark".to_string()]);
}

#[test]
fn overlapping_requests_may_see_each_others_cookies() {
    // Two concurrent requests share one jar. The second request starts
    // at instant 3; the first triggers a cookie at instant 5 and
    // completes; when the second completes and samples the store, the
    // first's cookie is legitimately included — the documented
    // imprecision of time-ranged attribution.
    let mut jar = TimeJar::new();
    let second_request_start: u64 = 3;
    jar.set_cookies(5, "https://a.example".to_string(), vec!["set-by-first=1".to_string()]);
    let seen_by_second = jar.cookies_since(second_request_start);
    assert!(seen_by_second.iter().any(|n| n.cookies.contains(&"set-by-first=1".to_string())));
}

#[test]
fn out_of_order_recording_keeps_the_jar_chronological() {
    let mut jar = TimeJar::new();
    jar.set_cookies(10, "https://late.example".to_string(), vec!["l=1".to_string()]);
    jar.set_cookies(5, "https://early.example".to_string(), vec!["e=1".to_string()]);
    assert_eq!(origins(&jar, 0), vec!["https://early.example", "https://late.example"]);
    assert_eq!(origins(&jar, 5), vec!["https://late.example"]);
}
