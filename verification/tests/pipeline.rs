use swordfish::browser::Browser;
use swordfish::browser_data_source::{BrowserFetch, BrowserHistoryDataSource, HistoryRow};
use swordfish::file_data_source::FileDataSource;
use swordfish::files::{FileInfo, FileMeta};
use swordfish::fuzzy::score_files;
use swordfish::query_engine::QueryEngine;
use swordfish::types::{Query, QueryMode, ResultType};

const NOW: i64 = 86400 * 1000;

fn meta(size: u64, is_dir: bool) -> FileMeta {
    FileMeta {
        size,
        is_dir,
        last_modified: Some(1000),
        created: Some(500),
    }
}

fn info(path: &str) -> FileInfo {
    FileInfo::from_string(path.to_string(), Some(meta(10, false))).unwrap()
}

fn engine_with_files(paths: &[&str]) -> QueryEngine {
    let mut files = FileDataSource::new("sf_cache");
    let crawled: Vec<FileInfo> = paths.iter().map(|p| info(p)).collect();
    files.update_cache(Some(crawled));
    QueryEngine::new(BrowserHistoryDataSource::new("history"), files)
}

#[test]
fn result_count_never_exceeds_cap() {
    let paths: Vec<String> = (0..80).map(|i| format!("/docs/report-{}.txt", i)).collect();
    let refs: Vec<&str> = paths.iter().map(|s| s.as_str()).collect();
    let engine = engine_with_files(&refs);
    let q = Query {
        search_string: "report".to_string(),
        mode: QueryMode::Search,
    };
    let result = engine.query(&q, NOW);
    assert_eq!(result.results.len(), 50);
}

#[test]
fn blank_queries_return_empty_for_search_modes() {
    let engine = engine_with_files(&["/docs/report.txt"]);
    for text in ["", "   ", "\t\n  \r", "\u{000C}", "\u{00A0}\u{2028} \u{205F}"] {
        let q = Query {
            search_string: text.to_string(),
            mode: QueryMode::Search,
        };
        assert!(engine.query(&q, NOW).results.is_empty());
        let q = Query {
            search_string: text.to_string(),
            mode: QueryMode::BrowserHistory,
        };
        assert!(engine.query(&q, NOW).results.is_empty());
    }
}

#[test]
fn application_bonus_ranks_bundle_first() {
    let q = Query {
        search_string: "report".to_string(),
        mode: QueryMode::Search,
    };
    let ranked = score_files(
        &q,
        vec![
            "/root/report.pdf".to_string(),
            "/root/Reporting.app".to_string(),
            "/root/budget.csv".to_string(),
        ],
    )
    .unwrap();
    assert_eq!(ranked.len(), 2);
    assert_eq!(ranked[0], "/root/Reporting.app");
    assert_eq!(ranked[1], "/root/report.pdf");
}

#[test]
fn engine_file_search_excludes_non_matches() {
    let engine = engine_with_files(&[
        "/root/report.pdf",
        "/root/Reporting.app",
        "/root/budget.csv",
    ]);
    let q = Query {
        search_string: "report".to_string(),
        mode: QueryMode::Search,
    };
    let result = engine.query(&q, NOW);
    assert_eq!(result.results.len(), 2);
    assert_eq!(result.results[0].value, "/root/Reporting.app");
    assert_eq!(result.results[1].value, "/root/report.pdf");
    assert!(result
        .results
        .iter()
        .all(|r| !r.value.contains("budget.csv")));
    assert!(matches!(result.results[0].result_type, ResultType::File));
}

#[test]
fn engine_history_mode_returns_rows() {
    let mut history = BrowserHistoryDataSource::new("history");
    history.update_cache(
        &vec![BrowserFetch {
            browser: Browser::Chrome,
            rows: Some(vec![HistoryRow {
                url: "https://news.example/today?ref=home".to_string(),
                title: "Today's news".to_string(),
                visit_count: 12,
                last_visit_time: NOW - 86400,
            }]),
        }],
        NOW,
    );
    let engine = QueryEngine::new(history, FileDataSource::new("sf_cache"));
    let q = Query {
        search_string: "news".to_string(),
        mode: QueryMode::BrowserHistory,
    };
    let result = engine.query(&q, NOW);
    assert_eq!(result.results.len(), 1);
    let item = &result.results[0];
    assert_eq!(item.heading, "Today's news");
    assert_eq!(item.subheading, "https://news.example/today");
    assert!(matches!(item.result_type, ResultType::BrowserHistory));
}

#[test]
fn history_results_respect_the_cap() {
    let rows: Vec<HistoryRow> = (0..70)
        .map(|i| HistoryRow {
            url: format!("https://site-{}.example/page", i),
            title: format!("Site {}", i),
            visit_count: 10 + i,
            last_visit_time: NOW - 86400,
        })
        .collect();
    let mut history = BrowserHistoryDataSource::new("history");
    history.update_cache(
        &vec![BrowserFetch {
            browser: Browser::Chrome,
            rows: Some(rows),
        }],
        NOW,
    );
    let engine = QueryEngine::new(history, FileDataSource::new("sf_cache"));
    let q = Query {
        search_string: "example".to_string(),
        mode: QueryMode::BrowserHistory,
    };
    let result = engine.query(&q, NOW);
    assert_eq!(result.results.len(), 50);
    // ranked by frecency descending: the most-visited site first
    assert_eq!(result.results[0].heading, "Site 69");
}

#[test]
fn chat_mode_is_unserved() {
    let engine = engine_with_files(&["/docs/report.txt"]);
    let q = Query {
        search_string: "anything".to_string(),
        mode: QueryMode::Chat,
    };
    assert!(engine.query(&q, NOW).results.is_empty());
}

#[test]
fn scripts_mode_returns_stub() {
    let engine = engine_with_files(&[]);
    let q = Query {
        search_string: "".to_string(),
        mode: QueryMode::Scripts,
    };
    let result = engine.query(&q, NOW);
    assert_eq!(result.results.len(), 1);
    assert_eq!(result.results[0].heading, "Scripts");
    assert!(matches!(result.results[0].result_type, ResultType::Script));
}

#[test]
fn query_now_reads_the_clock() {
    let engine = engine_with_files(&["/docs/report.txt"]);
    let q = Query {
        search_string: "  ".to_string(),
        mode: QueryMode::Search,
    };
    assert!(engine.query_now(&q).results.is_empty());
    let q = Query {
        search_string: "report".to_string(),
        mode: QueryMode::Search,
    };
    assert!(engine.query_now(&q).results.len() <= 50);
}

#[test]
fn degraded_engine_still_answers() {
    // both sources empty: every query still returns a list, never an error
    let engine = QueryEngine::new(
        BrowserHistoryDataSource::new("history"),
        FileDataSource::new("sf_cache"),
    );
    for mode in [QueryMode::Search, QueryMode::BrowserHistory, QueryMode::Chat] {
        let q = Query {
            search_string: "whatever".to_string(),
            mode,
        };
        assert!(engine.query(&q, NOW).results.is_empty());
    }
}
