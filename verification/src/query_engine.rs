//! The query engine: the one entry point of the library. Given a query it
//! dispatches to the source its mode names, ranks and truncates, and always
//! returns a (possibly empty) result list — never an error. Blank search
//! text short-circuits to an empty list for the search-like modes before
//! any source is consulted.
use vstd::prelude::*;
use crate::browser_data_source::{
    entry_matches, in_window, ranked_window, BrowserHistoryDataSource, HistoryEntry,
};
use crate::file_data_source::{file_query_results, FileDataSource};
use crate::files::FileInfo;
use crate::rank::RESULT_CAP;
use crate::text::is_blank;
use crate::types::{
    is_empty_query, is_file_result, Query, QueryMode, QueryResult, ResultDetails, ResultItem,
    ResultType,
};

verus! {

/// What the result row built for a history entry holds: title as heading,
/// URL as subheading and value, and a history preview. Favicons live in a
/// side cache consulted by the caller, so the row carries no icon path.
pub open spec fn is_history_result(r: ResultItem, e: HistoryEntry) -> bool {
    &&& r.heading@ == e.title@
    &&& r.subheading@ == e.url@
    &&& r.value@ == e.url@
    &&& r.icon_path is None
    &&& r.result_type == ResultType::BrowserHistory
    &&& r.details matches Some(d) && d matches ResultDetails::BrowserHistory {
        url,
        image_url,
        heading,
        subheading,
    } && {
        &&& url@ == e.url@
        &&& image_url@.len() == 0
        &&& heading@ == e.title@
        &&& subheading@ == e.url@
    }
}

/// What the fixed scripts stub row holds.
pub open spec fn is_scripts_stub(r: ResultItem) -> bool {
    &&& r.heading@ == "Scripts"@
    &&& r.subheading@ == "Run scripts"@
    &&& r.value@ == "Scripts"@
    &&& r.icon_path is None
    &&& r.result_type == ResultType::Script
    &&& r.details matches Some(d) && d matches ResultDetails::Script {
        path,
        last_modified,
        language,
        content,
        parsed_content,
    } && {
        &&& path@ == "/Desktop"@
        &&& last_modified@ == "2024-08-24"@
        &&& language@ == "ts"@
        &&& content@.len() == 0
        &&& parsed_content matches Some(p) && p@.len() == 0
    }
}

/// Relies on chrono's conversion from the platform clock
/// (`DateTime::<Utc>::from(SystemTime)`) for the current time, as seconds
/// since the unix epoch; that conversion represents a clock set before
/// 1970 as a negative timestamp rather than stopping. Nothing is assumed
/// of the clock's value.
#[verifier::external_body]
pub fn ts() -> (r: i64) {
    chrono::DateTime::<chrono::Utc>::from(std::time::SystemTime::now()).timestamp()
}

/// The engine owning both data sources.
pub struct QueryEngine {
    pub browser_history: BrowserHistoryDataSource,
    pub file_data: FileDataSource,
}

impl QueryEngine {
    /// Assembles the engine from its two sources; the caller fills their
    /// caches (collation, crawl) before or after as it pleases.
    pub fn new(browser_history: BrowserHistoryDataSource, file_data: FileDataSource) -> (r:
        QueryEngine)
        ensures
            r.browser_history == browser_history,
            r.file_data == file_data,
    {
        QueryEngine { browser_history, file_data }
    }

    /// Answers one query at time `now`. Blank search text yields an empty
    /// list for the search-like modes without touching any source; file
    /// mode returns the ranked indexed files, history mode the ranked
    /// matching history entries; the chat mode is not served; the scripts
    /// mode returns its fixed stub. The result list never exceeds the
    /// result cap, and a query never fails: the worst answer is an empty
    /// list.
    pub fn query(&self, query: &Query, now: i64) -> (r: QueryResult)
        ensures
            r.results@.len() <= RESULT_CAP,
            query.mode == QueryMode::Search && is_blank(query.search_string@) ==> r.results@.len()
                == 0,
            query.mode == QueryMode::BrowserHistory && is_blank(query.search_string@)
                ==> r.results@.len() == 0,
            query.mode == QueryMode::Search && !is_blank(query.search_string@) ==> {
                let infos = file_query_results(self.file_data.entries@, query.search_string@);
                &&& r.results@.len() == infos.len()
                &&& forall|k: int|
                    0 <= k < infos.len() ==> is_file_result(
                        #[trigger] r.results@[k],
                        infos[k],
                        None,
                    )
            },
            query.mode == QueryMode::BrowserHistory && !is_blank(query.search_string@) ==> {
                let entries = ranked_window(
                    self.browser_history.entries@,
                    |e: HistoryEntry| in_window(e@, now as int) && entry_matches(
                        e@,
                        query.search_string@,
                    ),
                    RESULT_CAP as int,
                );
                &&& r.results@.len() == entries.len()
                &&& forall|k: int|
                    0 <= k < entries.len() ==> is_history_result(
                        #[trigger] r.results@[k],
                        entries[k],
                    )
            },
            query.mode == QueryMode::Chat ==> r.results@.len() == 0,
            query.mode == QueryMode::Scripts ==> r.results@.len() == 1 && is_scripts_stub(
                r.results@[0],
            ),
    {
        match query.mode {
            QueryMode::Search => {
                if is_empty_query(query) {
                    return QueryResult { results: Vec::new() };
                }
                match self.file_data.query(query) {
                    Some(infos) => {
                        let mut results: Vec<ResultItem> = Vec::new();
                        let n = infos.len();
                        let mut i: usize = 0;
                        while i < n
                            invariant
                                n == infos@.len(),
                                n <= RESULT_CAP,
                                0 <= i <= n,
                                results@.len() == i,
                                forall|k: int|
                                    0 <= k < i ==> is_file_result(
                                        #[trigger] results@[k],
                                        infos@[k],
                                        None,
                                    ),
                            decreases n - i,
                        {
                            let item = ResultItem::from(infos[i].clone(), None);
                            results.push(item);
                            i = i + 1;
                        }
                        QueryResult { results }
                    },
                    None => QueryResult { results: Vec::new() },
                }
            },
            QueryMode::BrowserHistory => {
                if is_empty_query(query) {
                    return QueryResult { results: Vec::new() };
                }
                match self.browser_history.query(query, now) {
                    Some(entries) => {
                        let mut results: Vec<ResultItem> = Vec::new();
                        let n = entries.len();
                        let mut i: usize = 0;
                        while i < n
                            invariant
                                n == entries@.len(),
                                n <= RESULT_CAP,
                                0 <= i <= n,
                                results@.len() == i,
                                forall|k: int|
                                    0 <= k < i ==> is_history_result(
                                        #[trigger] results@[k],
                                        entries@[k],
                                    ),
                            decreases n - i,
                        {
                            let e = &entries[i];
                            let item = ResultItem {
                                heading: e.title.clone(),
                                subheading: e.url.clone(),
                                value: e.url.clone(),
                                icon_path: None,
                                result_type: ResultType::BrowserHistory,
                                details: Some(
                                    ResultDetails::BrowserHistory {
                                        url: e.url.clone(),
                                        image_url: String::new(),
                                        heading: e.title.clone(),
                                        subheading: e.url.clone(),
                                    },
                                ),
                            };
                            results.push(item);
                            i = i + 1;
                        }
                        QueryResult { results }
                    },
                    None => QueryResult { results: Vec::new() },
                }
            },
            QueryMode::Chat => QueryResult { results: Vec::new() },
            QueryMode::Scripts => {
                let item = ResultItem {
                    heading: String::from_str("Scripts"),
                    subheading: String::from_str("Run scripts"),
                    value: String::from_str("Scripts"),
                    icon_path: None,
                    result_type: ResultType::Script,
                    details: Some(
                        ResultDetails::Script {
                            path: String::from_str("/Desktop"),
                            last_modified: String::from_str("2024-08-24"),
                            language: String::from_str("ts"),
                            content: String::new(),
                            parsed_content: Some(String::new()),
                        },
                    ),
                };
                let mut results: Vec<ResultItem> = Vec::new();
                results.push(item);
                QueryResult { results }
            },
        }
    }

    /// Answers one query at the current time. Whatever the clock reports,
    /// the result list never exceeds the cap, blank search text yields an
    /// empty list for the search-like modes, and the chat and scripts
    /// modes answer as they always do.
    pub fn query_now(&self, query: &Query) -> (r: QueryResult)
        ensures
            r.results@.len() <= RESULT_CAP,
            query.mode == QueryMode::Search && is_blank(query.search_string@) ==> r.results@.len()
                == 0,
            query.mode == QueryMode::BrowserHistory && is_blank(query.search_string@)
                ==> r.results@.len() == 0,
            query.mode == QueryMode::Chat ==> r.results@.len() == 0,
            query.mode == QueryMode::Scripts ==> r.results@.len() == 1 && is_scripts_stub(
                r.results@[0],
            ),
    {
        let now = ts();
        self.query(query, now)
    }
}

} // verus!
