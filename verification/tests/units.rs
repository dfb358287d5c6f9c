use swordfish::browser_data_source::BrowserHistoryCollationError;
use swordfish::browser::{
    fill_home_path, get_browser_history_schema, get_history_schemas, snapshot_file_name,
    snapshot_glob_pattern, Browser, Platform,
};
use swordfish::crawl::{collect_crawl, crawl_decision, CrawlAction, CrawlEntry};
use swordfish::file_data_source::{DSError, FileDataSource};
use swordfish::files::{FileInfo, FileMeta, FileType};
use swordfish::settings::{config_filepath, get_cached_app_icon_path, icon_file_with_ext, AppConfig, AppState};
use swordfish::text::u64_to_string;
use swordfish::types::{is_empty_query, Query, QueryMode, ResultDetails, ResultItem, SFEvent};
use swordfish::urlnorm::{favicon_request_url, get_favicon_path};

fn meta(size: u64, is_dir: bool) -> FileMeta {
    FileMeta {
        size,
        is_dir,
        last_modified: Some(1234),
        created: None,
    }
}

#[test]
fn extension_table_classifies() {
    assert_eq!(FileType::from_extension(Some("rs")), FileType::Rust);
    assert_eq!(FileType::from_extension(Some("pdf")), FileType::Pdf);
    assert_eq!(FileType::from_extension(Some("app")), FileType::Application);
    assert_eq!(FileType::from_extension(Some("exe")), FileType::Application);
    assert_eq!(FileType::from_extension(Some("csv")), FileType::CSV);
    assert_eq!(FileType::from_extension(Some("jpeg")), FileType::Image);
    assert_eq!(FileType::from_extension(Some("webm")), FileType::Video);
    assert_eq!(FileType::from_extension(Some("flac")), FileType::Audio);
    assert_eq!(FileType::from_extension(Some("unknown-ext")), FileType::Other);
    assert_eq!(FileType::from_extension(None), FileType::Other);
}

#[test]
fn file_type_names_round_trip() {
    let kinds = [
        FileType::File,
        FileType::Directory,
        FileType::Rust,
        FileType::UnixShell,
        FileType::CSV,
        FileType::MakeFile,
        FileType::Other,
    ];
    for t in kinds {
        assert_eq!(FileType::from_str(t.as_ref()), Some(t));
    }
    assert_eq!(FileType::as_ref(&FileType::Powerpoint), "powerpoint");
    assert_eq!(FileType::from_str("no-such-kind"), None);
}

#[test]
fn file_info_derives_name_and_extension() {
    let info = FileInfo::from_string("/home/u/notes.backup.txt".to_string(), Some(meta(42, false)))
        .unwrap();
    assert_eq!(info.file_name.as_deref(), Some("notes.backup"));
    assert_eq!(info.extension.as_deref(), Some("txt"));
    assert_eq!(info.file_type, FileType::Text);
    assert_eq!(info.size, 42);
}

#[test]
fn file_info_handles_dotfiles_and_directories() {
    let dot = FileInfo::from_string("/home/u/.bashrc".to_string(), Some(meta(1, false))).unwrap();
    assert_eq!(dot.file_name.as_deref(), Some(".bashrc"));
    assert_eq!(dot.extension, None);
    assert_eq!(dot.file_type, FileType::Other);

    let bare = FileInfo::from_string("/src/Makefile".to_string(), Some(meta(9, false))).unwrap();
    assert_eq!(bare.extension, None);
    assert_eq!(bare.file_type, FileType::Other);

    let dir = FileInfo::from_string("/home/u/projects".to_string(), Some(meta(0, true))).unwrap();
    assert_eq!(dir.file_type, FileType::Directory);

    assert!(FileInfo::from_string("/gone".to_string(), None).is_none());
}

#[test]
fn result_item_from_file_info() {
    let info = FileInfo::from_string("/apps/Editor.app".to_string(), Some(meta(77, true))).unwrap();
    let item = ResultItem::from(info, Some("/cache/Editor.png".to_string()));
    assert_eq!(item.heading, "Editor");
    assert_eq!(item.subheading, "/apps/Editor.app");
    assert_eq!(item.icon_path.as_deref(), Some("/cache/Editor.png"));
    match item.details.unwrap() {
        ResultDetails::File { size, last_modified, file_type, .. } => {
            assert_eq!(size, "77");
            assert_eq!(last_modified.as_deref(), Some("1234"));
            assert_eq!(file_type, FileType::Application);
        }
        _ => panic!("expected a file preview"),
    }
}

#[test]
fn result_item_icon_only_for_bundles() {
    let info = FileInfo::from_string("/docs/a.txt".to_string(), Some(meta(1, false))).unwrap();
    let item = ResultItem::from(info, Some("/cache/a.png".to_string()));
    assert_eq!(item.icon_path, None);
}

#[test]
fn decimal_formatting() {
    assert_eq!(u64_to_string(0), "0");
    assert_eq!(u64_to_string(7), "7");
    assert_eq!(u64_to_string(120450), "120450");
    assert_eq!(u64_to_string(u64::MAX), format!("{}", u64::MAX));
}

#[test]
fn empty_query_detection() {
    for (text, blank) in [
        ("", true),
        ("   \t", true),
        ("\u{000C}", true),
        ("\u{000B}\u{0085}", true),
        ("\u{00A0}\u{2003}\u{3000}", true),
        (" a ", false),
        ("query", false),
        ("\u{00A0}x", false),
    ] {
        let q = Query {
            search_string: text.to_string(),
            mode: QueryMode::Search,
        };
        assert_eq!(is_empty_query(&q), blank);
    }
}

#[test]
fn browser_names_round_trip() {
    for b in Browser::variants() {
        let name = b.to_str();
        let back = Browser::from_str(name);
        assert_eq!(back.to_str(), name);
    }
    assert_eq!(Browser::from_string("Safari".to_string()).to_str(), "Safari");
}

#[test]
fn event_names_round_trip() {
    let events = [
        SFEvent::MainWindowShown,
        SFEvent::MainWindowHidden,
        SFEvent::MainWindowResized,
        SFEvent::SettingsWindowShown,
        SFEvent::SettingsWindowHidden,
        SFEvent::Query,
        SFEvent::QueryResult,
        SFEvent::RunScript,
        SFEvent::ScriptResult,
    ];
    for e in events {
        assert_eq!(SFEvent::from_str(e.as_ref()), Some(e));
    }
    assert_eq!(SFEvent::from_str("NoSuchEvent"), None);
}

#[test]
fn chrome_schema_on_macos() {
    let schema = get_browser_history_schema(Browser::Chrome, Platform::MacOs, "/Users/me").unwrap();
    assert_eq!(
        schema.path,
        "/Users/me/Library/Application Support/Google/Chrome/Default/History"
    );
    assert!(schema.query.contains("FROM urls"));
    assert!(schema.query.contains("11644473600000000"));
    assert!(matches!(schema.browser, Browser::Chrome));
}

#[test]
fn schemas_follow_the_platform() {
    let mac = get_history_schemas(Platform::MacOs, "/Users/me");
    assert_eq!(mac.len(), 5);
    assert!(mac.iter().any(|s| matches!(s.browser, Browser::Safari)));
    let linux = get_history_schemas(Platform::Linux, "/home/me");
    assert_eq!(linux.len(), 4);
    assert!(linux.iter().all(|s| !matches!(s.browser, Browser::Safari)));
    assert!(get_history_schemas(Platform::Other, "/h").is_empty());
}

#[test]
fn firefox_schema_embeds_epoch_conversion() {
    let schema =
        get_browser_history_schema(Browser::Firefox, Platform::Linux, "/home/me").unwrap();
    assert!(schema.path.ends_with("places.sqlite"));
    assert!(schema
        .query
        .contains("COALESCE(CAST(last_visit_date / 1000000 as BIGINT), 0)"));
    // the query parses: parentheses balance
    let opens = schema.query.matches('(').count();
    let closes = schema.query.matches(')').count();
    assert_eq!(opens, closes);
    // browsers the collator does not read yield nothing
    assert!(get_browser_history_schema(Browser::Opera, Platform::Linux, "/home/me").is_none());
}

#[test]
fn template_home_fill() {
    assert_eq!(fill_home_path("{}/x/y", "/home/me"), "/home/me/x/y");
    assert_eq!(fill_home_path("/absolute", "/home/me"), "/absolute");
}

#[test]
fn snapshot_names() {
    assert_eq!(snapshot_file_name("Chrome"), "sf-history-Chrome.sqlite");
    assert_eq!(snapshot_file_name("Firefox-2"), "sf-history-Firefox-2.sqlite");
    assert_eq!(snapshot_glob_pattern(Browser::Brave), "sf-history-Brave*.sqlite");
}

#[test]
fn crawl_policy_on_macos() {
    let d = |path: &str, is_dir: bool| crawl_decision(Platform::MacOs, path, is_dir, false);
    assert_eq!(d("/Applications/Editor.app", true), CrawlAction::EmitAndPrune);
    assert_eq!(d("/Applications/Editor.app/Contents", true), CrawlAction::Prune);
    assert_eq!(d("/x/Native Instruments/y", true), CrawlAction::Prune);
    assert_eq!(d("/x/Adobe Creative Cloud", true), CrawlAction::Prune);
    assert_eq!(d("/docs/a.txt", false), CrawlAction::Emit);
    assert_eq!(d("/docs", true), CrawlAction::Descend);
    assert_eq!(
        crawl_decision(Platform::MacOs, "/docs/link.txt", false, true),
        CrawlAction::Descend
    );
}

#[test]
fn crawl_policy_on_single_file_platforms() {
    assert_eq!(
        crawl_decision(Platform::Windows, "C:/Program Files/tool.exe", false, false),
        CrawlAction::Emit
    );
    assert_eq!(
        crawl_decision(Platform::Windows, "C:/Program Files/readme.txt", false, false),
        CrawlAction::Descend
    );
    assert_eq!(
        crawl_decision(Platform::Linux, "/usr/share/applications/editor.desktop", false, false),
        CrawlAction::Emit
    );
}

#[test]
fn crawl_respects_the_cap() {
    let entries: Vec<CrawlEntry> = (0..40)
        .map(|i| CrawlEntry {
            path: format!("/docs/file-{}.txt", i),
            is_symlink: false,
            meta: meta(1, false),
        })
        .collect();
    let capped = collect_crawl(Platform::MacOs, &entries, 10);
    assert_eq!(capped.len(), 10);
    let all = collect_crawl(Platform::MacOs, &entries, 300);
    assert_eq!(all.len(), 40);
    assert_eq!(all[0].path, "/docs/file-0.txt");
}

#[test]
fn crawl_emits_bundles_as_leaves() {
    let entries = vec![
        CrawlEntry {
            path: "/Applications/Editor.app".to_string(),
            is_symlink: false,
            meta: meta(0, true),
        },
        CrawlEntry {
            path: "/Applications/Editor.app/Contents".to_string(),
            is_symlink: false,
            meta: meta(0, true),
        },
    ];
    let out = collect_crawl(Platform::MacOs, &entries, 300);
    assert_eq!(out.len(), 1);
    assert_eq!(out[0].path, "/Applications/Editor.app");
    assert_eq!(out[0].file_type, FileType::Application);
}

#[test]
fn collation_error_messages() {
    assert_eq!(
        BrowserHistoryCollationError::UnableToLocateDataDir.message(),
        "unable to locate user data dir, stopping collation"
    );
    assert_eq!(
        BrowserHistoryCollationError::UnableToConnectToCollatedDB.message(),
        "unable to establish a connection to combined history database"
    );
}

#[test]
fn missing_search_dirs_is_reported() {
    let mut files = FileDataSource::new("sf_cache");
    let err = files.cache_file_search_paths(None).unwrap_err();
    assert_eq!(err, DSError::MissingSearchDir);
    assert_eq!(err.message(), "Failed to load search directories from settings");
    assert!(files.read().unwrap().is_empty());
}

#[test]
fn default_config_and_tilde_expansion() {
    let config = AppConfig::new(Platform::MacOs, "/Users/me");
    assert_eq!(config.launch_shortcut, "Control+Space");
    assert_eq!(config.search_directories.len(), 5);
    assert_eq!(config.search_directories[0], "/Users/me/Desktop");

    let custom = AppConfig {
        launch_shortcut: "Alt+Space".to_string(),
        search_directories: vec!["~/Code".to_string(), "/opt".to_string()],
    };
    let expanded = custom.get_search_directories("/home/me").unwrap();
    assert_eq!(expanded, vec!["/home/me/Code".to_string(), "/opt".to_string()]);

    let state = AppState::new(custom);
    assert_eq!(state.config.launch_shortcut, "Alt+Space");
}

#[test]
fn path_helpers() {
    assert_eq!(config_filepath("/home/me/.config/swordfish"), "/home/me/.config/swordfish/config.json");
    assert_eq!(
        get_cached_app_icon_path("/cache/app_icons", "Editor"),
        "/cache/app_icons/Editor.png"
    );
    assert_eq!(icon_file_with_ext("AppIcon"), "AppIcon.icns");
    assert_eq!(icon_file_with_ext("AppIcon.icns"), "AppIcon.icns");
}

#[test]
fn favicon_paths_come_from_the_domain() {
    assert_eq!(
        get_favicon_path("/cache/favicons", "https://www.example.com/page?x=1"),
        Some("/cache/favicons/www.example.com.png".to_string())
    );
    // an IP address host has no domain, and junk does not parse
    assert_eq!(get_favicon_path("/cache/favicons", "https://127.0.0.1/x"), None);
    assert_eq!(get_favicon_path("/cache/favicons", "not a url"), None);
    assert!(favicon_request_url("example.com").contains("url=https://example.com"));
}
