//! The browser table: every supported browser, where each platform keeps its
//! history database, and the vendor-specific extraction query (each query
//! converts the vendor's timestamp epoch to unix seconds itself).
use vstd::prelude::*;
use crate::text::{concat_str, str_eq, starts_with, starts_with_seq, substring_copy};

verus! {

/// The platform the launcher runs on, resolved once at startup and handed
/// to the library; path templates and crawl pruning rules key off it.
#[derive(Clone, Copy, Debug, PartialEq, Eq, Structural)]
pub enum Platform {
    MacOs,
    Windows,
    Linux,
    Other,
}

/// A supported browser.
#[derive(Clone, Copy, Debug, PartialEq, Eq, Structural)]
pub enum Browser {
    Arc,
    Chrome,
    Firefox,
    Safari,
    Brave,
    Opera,
    Vivaldi,
    Chromium,
    Edge,
}

/// The display name of each browser.
pub open spec fn browser_name(b: Browser) -> Seq<char> {
    match b {
        Browser::Arc => "Arc"@,
        Browser::Chrome => "Chrome"@,
        Browser::Firefox => "Firefox"@,
        Browser::Safari => "Safari"@,
        Browser::Brave => "Brave"@,
        Browser::Opera => "Opera"@,
        Browser::Edge => "Edge"@,
        Browser::Vivaldi => "Vivaldi"@,
        Browser::Chromium => "Chromium"@,
    }
}

impl Browser {
    /// Every browser, in collation order.
    pub fn variants() -> (r: Vec<Browser>)
        ensures
            r@ =~= seq![
                Browser::Arc,
                Browser::Chrome,
                Browser::Firefox,
                Browser::Safari,
                Browser::Brave,
                Browser::Opera,
                Browser::Edge,
                Browser::Vivaldi,
                Browser::Chromium,
            ],
    {
        let mut v: Vec<Browser> = Vec::new();
        v.push(Browser::Arc);
        v.push(Browser::Chrome);
        v.push(Browser::Firefox);
        v.push(Browser::Safari);
        v.push(Browser::Brave);
        v.push(Browser::Opera);
        v.push(Browser::Edge);
        v.push(Browser::Vivaldi);
        v.push(Browser::Chromium);
        v
    }

    /// The display name of this browser.
    pub fn to_str(&self) -> (r: &'static str)
        ensures
            r@ == browser_name(*self),
    {
        match self {
            Browser::Arc => "Arc",
            Browser::Chrome => "Chrome",
            Browser::Firefox => "Firefox",
            Browser::Safari => "Safari",
            Browser::Brave => "Brave",
            Browser::Opera => "Opera",
            Browser::Edge => "Edge",
            Browser::Vivaldi => "Vivaldi",
            Browser::Chromium => "Chromium",
        }
    }

    /// Parses a display name. Only valid names may be handed in; the
    /// original rejects anything else by stopping the process.
    pub fn from_str(name: &str) -> (r: Browser)
        requires
            exists|b: Browser| browser_name(b) == name@,
        ensures
            browser_name(r) == name@,
    {
        if str_eq(name, "Arc") {
            Browser::Arc
        } else if str_eq(name, "Chrome") {
            Browser::Chrome
        } else if str_eq(name, "Firefox") {
            Browser::Firefox
        } else if str_eq(name, "Safari") {
            Browser::Safari
        } else if str_eq(name, "Brave") {
            Browser::Brave
        } else if str_eq(name, "Opera") {
            Browser::Opera
        } else if str_eq(name, "Edge") {
            Browser::Edge
        } else if str_eq(name, "Vivaldi") {
            Browser::Vivaldi
        } else {
            proof {
                let b = choose|b: Browser| browser_name(b) == name@;
                assert(browser_name(b) == name@);
                assert(b is Chromium) by {
                    match b {
                        Browser::Chromium => {},
                        _ => {
                            assert(browser_name(b) != name@);
                        },
                    }
                }
            }
            Browser::Chromium
        }
    }

    /// Parses an owned display name; see `from_str`.
    pub fn from_string(name: String) -> (r: Browser)
        requires
            exists|b: Browser| browser_name(b) == name@,
        ensures
            browser_name(r) == name@,
    {
        Browser::from_str(name.as_str())
    }
}

/// Where one browser keeps its history database and how to read it.
#[derive(Clone, Debug)]
pub struct HistorySchema {
    pub browser: Browser,
    pub path: String,
    pub query: String,
}

/// The history template of Arc per platform; `{}` stands for the home
/// directory.
pub open spec fn arc_template(p: Platform) -> Option<Seq<char>> {
    match p {
        Platform::MacOs => Some("{}/Library/Application Support/Arc/User Data/Default/History"@),
        Platform::Windows => Some("{}/AppData/Local/Arc/User Data/Default/History"@),
        Platform::Linux => Some("{}/.config/Arc/User Data/Default/History"@),
        Platform::Other => None,
    }
}

/// The history template of Chrome per platform.
pub open spec fn chrome_template(p: Platform) -> Option<Seq<char>> {
    match p {
        Platform::MacOs => Some("{}/Library/Application Support/Google/Chrome/Default/History"@),
        Platform::Windows => Some("{}/AppData/Local/Google/Chrome/User Data/Default/History"@),
        Platform::Linux => Some("{}/.config/google-chrome/Default/History"@),
        Platform::Other => None,
    }
}

/// The history template of Firefox per platform; a glob over profiles.
pub open spec fn firefox_template(p: Platform) -> Option<Seq<char>> {
    match p {
        Platform::MacOs => Some("{}/Library/Application Support/Firefox/Profiles/**/places.sqlite"@),
        Platform::Windows => Some(
            "{}/AppData/Roaming/Mozilla/Firefox/Profiles/*.default-release/places.sqlite"@,
        ),
        Platform::Linux => Some("{}/.mozilla/firefox/*.default-release/places.sqlite"@),
        Platform::Other => None,
    }
}

/// The history template of Safari; it exists only on macOS.
pub open spec fn safari_template(p: Platform) -> Option<Seq<char>> {
    match p {
        Platform::MacOs => Some("{}/Library/Safari/History.db"@),
        _ => None,
    }
}

/// The history template of Opera per platform.
pub open spec fn opera_template(p: Platform) -> Option<Seq<char>> {
    match p {
        Platform::MacOs => Some("{}/Library/Application Support/com.operasoftware.Opera/History"@),
        Platform::Windows => Some("{}/AppData/Roaming/Opera Software/Opera Stable/History"@),
        Platform::Linux => Some("{}/.config/opera/History"@),
        Platform::Other => None,
    }
}

/// The history template of Brave per platform.
pub open spec fn brave_template(p: Platform) -> Option<Seq<char>> {
    match p {
        Platform::MacOs => Some(
            "{}/Library/Application Support/BraveSoftware/Brave-Browser/Default/History"@,
        ),
        Platform::Windows => Some(
            "{}/AppData/Local/BraveSoftware/Brave-Browser/User Data/Default/History"@,
        ),
        Platform::Linux => Some("{}/.config/BraveSoftware/Brave-Browser/Default/History"@),
        Platform::Other => None,
    }
}

/// The history template of Edge per platform.
pub open spec fn edge_template(p: Platform) -> Option<Seq<char>> {
    match p {
        Platform::MacOs => Some("{}/Library/Application Support/Microsoft Edge/Default/History"@),
        Platform::Windows => Some("{}/AppData/Local/Microsoft/Edge/User Data/Default/History"@),
        Platform::Linux => Some("{}/.config/microsoft-edge/Default/History"@),
        Platform::Other => None,
    }
}

/// The history template of Vivaldi per platform.
pub open spec fn vivaldi_template(p: Platform) -> Option<Seq<char>> {
    match p {
        Platform::MacOs => Some("{}/Library/Application Support/Vivaldi/Default/History"@),
        Platform::Windows => Some("{}/AppData/Local/Vivaldi/User Data/Default/History"@),
        Platform::Linux => Some("{}/.config/vivaldi/Default/History"@),
        Platform::Other => None,
    }
}

/// The history template of Chromium per platform.
pub open spec fn chromium_template(p: Platform) -> Option<Seq<char>> {
    match p {
        Platform::MacOs => Some("{}/Library/Application Support/Chromium/Default/History"@),
        Platform::Windows => Some("{}/AppData/Local/Chromium/User Data/Default/History"@),
        Platform::Linux => Some("{}/.config/chromium/Default/History"@),
        Platform::Other => None,
    }
}

/// Arc's history template on `p`.
pub fn arc_path(p: Platform) -> (r: Option<String>)
    ensures
        r matches Some(s) ==> arc_template(p) == Some(s@),
        r is None <==> arc_template(p) is None,
{
    match p {
        Platform::MacOs => Some(
            String::from_str("{}/Library/Application Support/Arc/User Data/Default/History"),
        ),
        Platform::Windows => Some(
            String::from_str("{}/AppData/Local/Arc/User Data/Default/History"),
        ),
        Platform::Linux => Some(String::from_str("{}/.config/Arc/User Data/Default/History")),
        Platform::Other => None,
    }
}

/// Chrome's history template on `p`.
pub fn chrome_path(p: Platform) -> (r: Option<String>)
    ensures
        r matches Some(s) ==> chrome_template(p) == Some(s@),
        r is None <==> chrome_template(p) is None,
{
    match p {
        Platform::MacOs => Some(
            String::from_str("{}/Library/Application Support/Google/Chrome/Default/History"),
        ),
        Platform::Windows => Some(
            String::from_str("{}/AppData/Local/Google/Chrome/User Data/Default/History"),
        ),
        Platform::Linux => Some(String::from_str("{}/.config/google-chrome/Default/History")),
        Platform::Other => None,
    }
}

/// Firefox's history template on `p`.
pub fn firefox_path(p: Platform) -> (r: Option<String>)
    ensures
        r matches Some(s) ==> firefox_template(p) == Some(s@),
        r is None <==> firefox_template(p) is None,
{
    match p {
        Platform::MacOs => Some(
            String::from_str("{}/Library/Application Support/Firefox/Profiles/**/places.sqlite"),
        ),
        Platform::Windows => Some(
            String::from_str(
                "{}/AppData/Roaming/Mozilla/Firefox/Profiles/*.default-release/places.sqlite",
            ),
        ),
        Platform::Linux => Some(
            String::from_str("{}/.mozilla/firefox/*.default-release/places.sqlite"),
        ),
        Platform::Other => None,
    }
}

/// Safari's history template on `p`.
pub fn safari_path(p: Platform) -> (r: Option<String>)
    ensures
        r matches Some(s) ==> safari_template(p) == Some(s@),
        r is None <==> safari_template(p) is None,
{
    match p {
        Platform::MacOs => Some(String::from_str("{}/Library/Safari/History.db")),
        _ => None,
    }
}

/// Opera's history template on `p`.
pub fn opera_path(p: Platform) -> (r: Option<String>)
    ensures
        r matches Some(s) ==> opera_template(p) == Some(s@),
        r is None <==> opera_template(p) is None,
{
    match p {
        Platform::MacOs => Some(
            String::from_str("{}/Library/Application Support/com.operasoftware.Opera/History"),
        ),
        Platform::Windows => Some(
            String::from_str("{}/AppData/Roaming/Opera Software/Opera Stable/History"),
        ),
        Platform::Linux => Some(String::from_str("{}/.config/opera/History")),
        Platform::Other => None,
    }
}

/// Brave's history template on `p`.
pub fn brave_path(p: Platform) -> (r: Option<String>)
    ensures
        r matches Some(s) ==> brave_template(p) == Some(s@),
        r is None <==> brave_template(p) is None,
{
    match p {
        Platform::MacOs => Some(
            String::from_str(
                "{}/Library/Application Support/BraveSoftware/Brave-Browser/Default/History",
            ),
        ),
        Platform::Windows => Some(
            String::from_str(
                "{}/AppData/Local/BraveSoftware/Brave-Browser/User Data/Default/History",
            ),
        ),
        Platform::Linux => Some(
            String::from_str("{}/.config/BraveSoftware/Brave-Browser/Default/History"),
        ),
        Platform::Other => None,
    }
}

/// Edge's history template on `p`.
pub fn edge_path(p: Platform) -> (r: Option<String>)
    ensures
        r matches Some(s) ==> edge_template(p) == Some(s@),
        r is None <==> edge_template(p) is None,
{
    match p {
        Platform::MacOs => Some(
            String::from_str("{}/Library/Application Support/Microsoft Edge/Default/History"),
        ),
        Platform::Windows => Some(
            String::from_str("{}/AppData/Local/Microsoft/Edge/User Data/Default/History"),
        ),
        Platform::Linux => Some(String::from_str("{}/.config/microsoft-edge/Default/History")),
        Platform::Other => None,
    }
}

/// Vivaldi's history template on `p`.
pub fn vivaldi_path(p: Platform) -> (r: Option<String>)
    ensures
        r matches Some(s) ==> vivaldi_template(p) == Some(s@),
        r is None <==> vivaldi_template(p) is None,
{
    match p {
        Platform::MacOs => Some(
            String::from_str("{}/Library/Application Support/Vivaldi/Default/History"),
        ),
        Platform::Windows => Some(
            String::from_str("{}/AppData/Local/Vivaldi/User Data/Default/History"),
        ),
        Platform::Linux => Some(String::from_str("{}/.config/vivaldi/Default/History")),
        Platform::Other => None,
    }
}

/// Chromium's history template on `p`.
pub fn chromium_path(p: Platform) -> (r: Option<String>)
    ensures
        r matches Some(s) ==> chromium_template(p) == Some(s@),
        r is None <==> chromium_template(p) is None,
{
    match p {
        Platform::MacOs => Some(
            String::from_str("{}/Library/Application Support/Chromium/Default/History"),
        ),
        Platform::Windows => Some(
            String::from_str("{}/AppData/Local/Chromium/User Data/Default/History"),
        ),
        Platform::Linux => Some(String::from_str("{}/.config/chromium/Default/History")),
        Platform::Other => None,
    }
}

/// The extraction query against a Chromium-family history database; the
/// CAST converts the WebKit epoch (microseconds since 1601) to unix seconds.
pub open spec fn chromium_query() -> Seq<char> {
    "SELECT id, url, title, visit_count, CAST(((CAST(last_visit_time as REAL) - 11644473600000000) / 1000000) as BIGINT) as last_visit_time FROM urls ORDER BY visit_count DESC"@
}

/// The extraction query against Firefox's places database; the division
/// converts microseconds since 1970 to unix seconds, and a row that was
/// never visited reads as time zero.
pub open spec fn firefox_query() -> Seq<char> {
    "SELECT id, url, COALESCE(title, \"\"), visit_count, COALESCE(CAST(last_visit_date / 1000000 as BIGINT), 0) FROM moz_places ORDER BY visit_count DESC"@
}

/// The extraction query against Safari's history database; the addition
/// converts seconds since 2001 to unix seconds.
pub open spec fn safari_query() -> Seq<char> {
    "SELECT i.id, i.url, COALESCE(v.title, \"\"), i.visit_count, CAST(v.visit_time + 978307200 as BIGINT) as visit_time FROM history_items i LEFT JOIN history_visits v ON i.id = v.history_item ORDER BY i.visit_count DESC"@
}

/// The extraction query used for `b`.
pub open spec fn browser_query(b: Browser) -> Seq<char> {
    match b {
        Browser::Firefox => firefox_query(),
        Browser::Safari => safari_query(),
        _ => chromium_query(),
    }
}

fn browser_query_str(b: Browser) -> (r: String)
    ensures
        r@ == browser_query(b),
{
    match b {
        Browser::Firefox => String::from_str(
            "SELECT id, url, COALESCE(title, \"\"), visit_count, COALESCE(CAST(last_visit_date / 1000000 as BIGINT), 0) FROM moz_places ORDER BY visit_count DESC",
        ),
        Browser::Safari => String::from_str(
            "SELECT i.id, i.url, COALESCE(v.title, \"\"), i.visit_count, CAST(v.visit_time + 978307200 as BIGINT) as visit_time FROM history_items i LEFT JOIN history_visits v ON i.id = v.history_item ORDER BY i.visit_count DESC",
        ),
        _ => String::from_str(
            "SELECT id, url, title, visit_count, CAST(((CAST(last_visit_time as REAL) - 11644473600000000) / 1000000) as BIGINT) as last_visit_time FROM urls ORDER BY visit_count DESC",
        ),
    }
}

/// `template` with a leading `{}` placeholder replaced by `home`.
pub open spec fn fill_home(template: Seq<char>, home: Seq<char>) -> Seq<char> {
    if starts_with_seq(template, "{}"@) {
        home + template.skip(2)
    } else {
        template
    }
}

/// Replaces the leading `{}` placeholder of a path template with the home
/// directory the platform reported.
pub fn fill_home_path(template: &str, home: &str) -> (r: String)
    ensures
        r@ == fill_home(template@, home@),
{
    if starts_with(template, "{}") {
        proof {
            reveal_strlit("{}");
        }
        let n = template.unicode_len();
        let rest = substring_copy(template, 2, n);
        let out = concat_str(home, rest.as_str());
        proof {
            assert(template@.subrange(2, template@.len() as int) =~= template@.skip(2));
        }
        out
    } else {
        String::from_str(template)
    }
}

/// The history template of `b` on `p`, when `b` is collated there.
pub open spec fn browser_template(b: Browser, p: Platform) -> Option<Seq<char>> {
    match b {
        Browser::Arc => arc_template(p),
        Browser::Chrome => chrome_template(p),
        Browser::Brave => brave_template(p),
        Browser::Firefox => firefox_template(p),
        Browser::Safari => safari_template(p),
        _ => None,
    }
}

/// The schema for browser `b` on platform `p` with home directory `home`:
/// the concrete history path and the extraction query. Browsers the collator
/// does not read (Opera, Edge, Vivaldi, Chromium) yield nothing, as do
/// browsers absent from the platform.
pub fn get_browser_history_schema(b: Browser, p: Platform, home: &str) -> (r: Option<HistorySchema>)
    ensures
        r matches Some(s) ==> {
            &&& browser_template(b, p) matches Some(t) && s.path@ == fill_home(t, home@)
            &&& s.browser == b
            &&& s.query@ == browser_query(b)
        },
        r is None <==> browser_template(b, p) is None,
{
    let template = match b {
        Browser::Arc => arc_path(p),
        Browser::Chrome => chrome_path(p),
        Browser::Brave => brave_path(p),
        Browser::Firefox => firefox_path(p),
        Browser::Safari => safari_path(p),
        _ => None,
    };
    match template {
        Some(t) => Some(
            HistorySchema {
                browser: b,
                path: fill_home_path(t.as_str(), home),
                query: browser_query_str(b),
            },
        ),
        None => None,
    }
}

/// All schemas the collator reads on platform `p`, in collation order:
/// Chrome, Arc, Brave, Firefox, Safari, for the platforms that have them.
pub fn get_history_schemas(p: Platform, home: &str) -> (r: Vec<HistorySchema>)
    ensures
        forall|i: int| 0 <= i < r@.len() ==> {
            &&& browser_template(#[trigger] r@[i].browser, p) matches Some(t) && r@[i].path@
                == fill_home(t, home@)
            &&& r@[i].query@ == browser_query(r@[i].browser)
        },
        p != Platform::Other ==> r@.map_values(|s: HistorySchema| s.browser) =~= seq![
            Browser::Chrome,
            Browser::Arc,
            Browser::Brave,
            Browser::Firefox,
            Browser::Safari,
        ].filter(|b: Browser| browser_template(b, p) is Some),
{
    let order = [Browser::Chrome, Browser::Arc, Browser::Brave, Browser::Firefox, Browser::Safari];
    let mut out: Vec<HistorySchema> = Vec::new();
    let ghost order_seq = seq![
        Browser::Chrome,
        Browser::Arc,
        Browser::Brave,
        Browser::Firefox,
        Browser::Safari,
    ];
    let mut i: usize = 0;
    while i < 5
        invariant
            0 <= i <= 5,
            order@ =~= order_seq,
            forall|k: int| 0 <= k < out@.len() ==> {
                &&& browser_template(#[trigger] out@[k].browser, p) matches Some(t)
                    && out@[k].path@ == fill_home(t, home@)
                &&& out@[k].query@ == browser_query(out@[k].browser)
            },
            out@.map_values(|s: HistorySchema| s.browser) =~= order_seq.take(i as int).filter(
                |b: Browser| browser_template(b, p) is Some,
            ),
        decreases 5 - i,
    {
        let b = order[i];
        proof {
            assert(order_seq.take(i + 1).drop_last() =~= order_seq.take(i as int));
            reveal_with_fuel(Seq::filter, 10);
        }
        match get_browser_history_schema(b, p, home) {
            Some(s) => {
                out.push(s);
            },
            None => {},
        }
        i = i + 1;
    }
    proof {
        assert(order_seq.take(5) =~= order_seq);
    }
    out
}

/// The scratch-copy file name for one snapshot of a browser's database:
/// `sf-history-<name>.sqlite`, with a 1-based index appended for browsers
/// with several profile databases.
pub fn snapshot_file_name(label: &str) -> (r: String)
    ensures
        r@ == "sf-history-"@ + label@ + ".sqlite"@,
{
    let mut s = concat_str("sf-history-", label);
    s.append(".sqlite");
    s
}

/// The glob pattern matching every snapshot of one browser's databases.
pub fn snapshot_glob_pattern(b: Browser) -> (r: String)
    ensures
        r@ == "sf-history-"@ + browser_name(b) + "*.sqlite"@,
{
    let mut s = concat_str("sf-history-", b.to_str());
    s.append("*.sqlite");
    s
}

} // verus!
