use swordfish::browser::Browser;
use swordfish::browser_data_source::{
    collate_history, dedup_history, BrowserFetch, BrowserHistoryDataSource, HistoryEntry,
    HistoryRow,
};
use swordfish::frecency::calculate_frecency;
use swordfish::types::{Query, QueryMode};
use swordfish::urlnorm::normalize_url;

fn row(url: &str, visits: i64, last_visit: i64) -> HistoryRow {
    HistoryRow {
        url: url.to_string(),
        title: format!("title of {}", url),
        visit_count: visits,
        last_visit_time: last_visit,
    }
}

const NOW: i64 = 86400 * 1000;

#[test]
fn normalize_strips_query_and_fragment() {
    assert_eq!(
        normalize_url("https://example.com/path?q=1#frag"),
        "https://example.com/path"
    );
    assert_eq!(normalize_url("https://example.com/a/b/"), "https://example.com/a/b");
    assert_eq!(normalize_url("https://example.com/x?"), "https://example.com/x");
    assert_eq!(normalize_url("https://example.com/x&"), "https://example.com/x");
    assert_eq!(normalize_url("plain"), "plain");
    assert_eq!(normalize_url(""), "");
}

#[test]
fn normalize_is_idempotent_on_samples() {
    let samples = [
        "https://example.com/path?q=1#frag",
        "https://example.com/a/b///",
        "http://x.y/?##",
        "no-url-at-all",
        "",
        "https://example.com/k?a=1&b=2&",
    ];
    for s in samples {
        let once = normalize_url(s);
        let twice = normalize_url(&once);
        assert_eq!(once, twice);
    }
}

#[test]
fn frecency_exact_value() {
    // ten days old, one hundred visits: 100 * 40 - 10 * 60.
    assert_eq!(calculate_frecency(86400 * 10, 0, 100), 3400);
}

#[test]
fn frecency_nonnegative_and_clamped() {
    assert_eq!(calculate_frecency(86400 * 1000, 0, 1), 0);
    // future timestamp is invalid and scores zero
    assert_eq!(calculate_frecency(0, 100, 50), 0);
    assert_eq!(calculate_frecency(0, 0, 0), 0);
}

#[test]
fn frecency_decreases_with_age() {
    let newer = calculate_frecency(NOW, NOW - 86400, 100);
    let older = calculate_frecency(NOW, NOW - 10 * 86400, 100);
    assert!(newer > older);
    assert!(older > 0);
}

#[test]
fn frecency_grows_with_visits() {
    let few = calculate_frecency(NOW, NOW - 86400, 10);
    let many = calculate_frecency(NOW, NOW - 86400, 20);
    assert!(many > few);
}

#[test]
fn collation_drops_local_urls() {
    let fetches = vec![BrowserFetch {
        browser: Browser::Chrome,
        rows: Some(vec![
            row("http://localhost:8080/admin", 50, NOW - 86400),
            row("https://127.0.0.1/x", 50, NOW - 86400),
            row("file:///etc/passwd", 50, NOW - 86400),
            row("https://example.com/keep", 50, NOW - 86400),
        ]),
    }];
    let entries = collate_history(&fetches, NOW);
    assert_eq!(entries.len(), 1);
    assert_eq!(entries[0].url, "https://example.com/keep");
}

#[test]
fn collation_is_full_replace() {
    let mut store = BrowserHistoryDataSource::new("history");
    let first = vec![BrowserFetch {
        browser: Browser::Chrome,
        rows: Some(vec![
            row("https://first.example/a", 10, NOW - 86400),
            row("https://first.example/b", 10, NOW - 86400),
        ]),
    }];
    store.update_cache(&first, NOW);
    assert_eq!(store.entries.len(), 2);

    let second = vec![BrowserFetch {
        browser: Browser::Firefox,
        rows: Some(vec![row("https://second.example/c", 10, NOW - 86400)]),
    }];
    store.update_cache(&second, NOW);
    assert_eq!(store.entries.len(), 1);
    assert_eq!(store.entries[0].url, "https://second.example/c");
    assert!(store.entries.iter().all(|e| !e.url.contains("first.example")));
}

#[test]
fn duplicate_url_keeps_last_write() {
    let fetches = vec![
        BrowserFetch {
            browser: Browser::Chrome,
            rows: Some(vec![row("https://example.com/page?utm=1", 3, NOW - 86400)]),
        },
        BrowserFetch {
            browser: Browser::Firefox,
            rows: Some(vec![row("https://example.com/page#top", 9, NOW - 86400)]),
        },
    ];
    let mut store = BrowserHistoryDataSource::new("history");
    store.update_cache(&fetches, NOW);
    // both rows normalize to one URL; the later batch wins
    assert_eq!(store.entries.len(), 1);
    assert_eq!(store.entries[0].url, "https://example.com/page");
    assert_eq!(store.entries[0].visit_count, 9);
    assert!(matches!(store.entries[0].browser, Browser::Firefox));
}

#[test]
fn dedup_keeps_order_of_survivors() {
    let entries = collate_history(
        &vec![BrowserFetch {
            browser: Browser::Chrome,
            rows: Some(vec![
                row("https://a.example/1", 5, NOW - 86400),
                row("https://b.example/2", 5, NOW - 86400),
                row("https://a.example/1", 7, NOW - 86400),
            ]),
        }],
        NOW,
    );
    let deduped = dedup_history(entries);
    assert_eq!(deduped.len(), 2);
    assert_eq!(deduped[0].url, "https://b.example/2");
    assert_eq!(deduped[1].url, "https://a.example/1");
    assert_eq!(deduped[1].visit_count, 7);
}

#[test]
fn locked_browser_still_lets_others_through() {
    // one browser's database could not be read; the readable one still
    // contributes, and its entries are queryable
    let fetches = vec![
        BrowserFetch { browser: Browser::Safari, rows: None },
        BrowserFetch {
            browser: Browser::Chrome,
            rows: Some(vec![row("https://reachable.example/page", 40, NOW - 86400)]),
        },
    ];
    let mut store = BrowserHistoryDataSource::new("history");
    store.update_cache(&fetches, NOW);
    assert_eq!(store.entries.len(), 1);

    let q = Query {
        search_string: "reachable".to_string(),
        mode: QueryMode::BrowserHistory,
    };
    let hits = store.query(&q, NOW).unwrap();
    assert_eq!(hits.len(), 1);
    assert_eq!(hits[0].url, "https://reachable.example/page");
}

#[test]
fn history_query_filters_window_and_ranks_by_frecency() {
    let fetches = vec![BrowserFetch {
        browser: Browser::Chrome,
        rows: Some(vec![
            row("https://old.example/page", 500, NOW - 86400 * 365),
            row("https://cold.example/page", 100, NOW - 86400 * 30),
            row("https://hot.example/page", 400, NOW - 86400),
        ]),
    }];
    let mut store = BrowserHistoryDataSource::new("history");
    store.update_cache(&fetches, NOW);

    let q = Query {
        search_string: "example".to_string(),
        mode: QueryMode::BrowserHistory,
    };
    let hits = store.query(&q, NOW).unwrap();
    // the year-old entry is outside the six-month window
    assert_eq!(hits.len(), 2);
    assert_eq!(hits[0].url, "https://hot.example/page");
    assert_eq!(hits[1].url, "https://cold.example/page");
}

#[test]
fn history_query_matches_title_too() {
    let fetches = vec![BrowserFetch {
        browser: Browser::Chrome,
        rows: Some(vec![row("https://site.example/p", 40, NOW - 86400)]),
    }];
    let mut store = BrowserHistoryDataSource::new("history");
    store.update_cache(&fetches, NOW);

    // titles are "title of <url>"
    let q = Query {
        search_string: "title of".to_string(),
        mode: QueryMode::BrowserHistory,
    };
    assert_eq!(store.query(&q, NOW).unwrap().len(), 1);
    let q2 = Query {
        search_string: "no-such-needle".to_string(),
        mode: QueryMode::BrowserHistory,
    };
    assert_eq!(store.query(&q2, NOW).unwrap().len(), 0);
}

#[test]
fn entry_view_is_faithful() {
    let e = HistoryEntry {
        browser: Browser::Brave,
        url: "https://x.example".to_string(),
        title: "x".to_string(),
        visit_count: 4,
        last_visit_time: 99,
        frecency_score: 7,
    };
    let e2 = e.clone();
    assert_eq!(e2.url, e.url);
    assert_eq!(e2.visit_count, 4);
    assert_eq!(e2.frecency_score, 7);
}
