//! The query/result data model: what a caller hands the engine and what the
//! engine hands back, plus the event vocabulary of the surrounding shell.
use vstd::prelude::*;
use crate::files::{FileInfo, FileType};
use crate::text::{dec_str, is_blank, is_blank_str, str_eq, u64_to_string};

verus! {

/// Which source a query addresses.
#[derive(Clone, Copy, Debug, PartialEq, Eq, Structural)]
pub enum QueryMode {
    Search,
    BrowserHistory,
    Chat,
    Scripts,
}

/// A single request into the engine.
#[derive(Clone, Debug)]
pub struct Query {
    pub search_string: String,
    pub mode: QueryMode,
}

/// Returns whether the query's search text is empty or all whitespace; such
/// queries short-circuit to an empty result list for the search-like modes.
pub fn is_empty_query(query: &Query) -> (r: bool)
    ensures
        r == is_blank(query.search_string@),
{
    is_blank_str(query.search_string.as_str())
}

/// The kind of a result row.
#[derive(Clone, Copy, Debug, PartialEq, Eq, Structural)]
pub enum ResultType {
    File,
    BrowserHistory,
    Script,
    Action,
    Calculator,
}

/// Type-specific preview payload attached to a result row.
#[derive(Clone, Debug)]
pub enum ResultDetails {
    File {
        path: String,
        filename: Option<String>,
        extension: Option<String>,
        file_type: FileType,
        size: String,
        last_modified: Option<String>,
        content: String,
        parsed_content: Option<String>,
    },
    BrowserHistory {
        url: String,
        image_url: String,
        heading: String,
        subheading: String,
    },
    Script {
        path: String,
        last_modified: String,
        language: String,
        content: String,
        parsed_content: Option<String>,
    },
    Calculator {
        parsed_content: String,
    },
}

/// One ranked row handed back to the caller.
#[derive(Clone, Debug)]
pub struct ResultItem {
    pub heading: String,
    pub subheading: String,
    pub value: String,
    pub icon_path: Option<String>,
    pub result_type: ResultType,
    pub details: Option<ResultDetails>,
}

/// The ordered result list of one query.
#[derive(Clone, Debug)]
pub struct QueryResult {
    pub results: Vec<ResultItem>,
}

/// What the result row built for an indexed file holds: heading from the
/// file name, path as subheading and value, the cached icon only for
/// application bundles, and a file preview carrying the classified record.
pub open spec fn is_file_result(r: ResultItem, file_info: FileInfo, app_icon: Option<String>) -> bool {
    &&& r.heading@ == match file_info.file_name {
        Some(n) => n@,
        None => "unnamed file"@,
    }
    &&& r.subheading@ == file_info.path@
    &&& r.value@ == file_info.path@
    &&& r.icon_path == if file_info.extension matches Some(e) && e@ == "app"@ {
        app_icon
    } else {
        None::<String>
    }
    &&& r.result_type == ResultType::File
    &&& r.details matches Some(d) && d matches ResultDetails::File {
        path,
        filename,
        extension,
        file_type,
        size,
        last_modified,
        content,
        parsed_content,
    } && {
        &&& path@ == file_info.path@
        &&& filename == file_info.file_name
        &&& extension == file_info.extension
        &&& file_type == file_info.file_type
        &&& size@ == dec_str(file_info.size as int)
        &&& (last_modified is Some <==> file_info.last_modified is Some)
        &&& (last_modified matches Some(t) ==> file_info.last_modified matches Some(v) && t@
            == dec_str(v as int))
        &&& content@ == ""@
        &&& parsed_content matches Some(p) && p@ == ""@
    }
}

impl ResultItem {
    /// Builds the result row for one indexed file. `app_icon` is the cached
    /// icon path the caller looked up for this file's name; it is used only
    /// for application bundles, as only those have extracted icons.
    pub fn from(file_info: FileInfo, app_icon: Option<String>) -> (r: ResultItem)
        ensures
            is_file_result(r, file_info, app_icon),
    {
        let heading = match &file_info.file_name {
            Some(n) => n.clone(),
            None => String::from_str("unnamed file"),
        };
        let is_app = match &file_info.extension {
            Some(e) => str_eq(e.as_str(), "app"),
            None => false,
        };
        let icon_path = if is_app {
            app_icon
        } else {
            None
        };
        let last_modified = match file_info.last_modified {
            Some(v) => Some(u64_to_string(v)),
            None => None,
        };
        proof {
            reveal_strlit("");
            assert(""@ =~= Seq::<char>::empty());
        }
        ResultItem {
            heading,
            subheading: file_info.path.clone(),
            value: file_info.path.clone(),
            icon_path,
            result_type: ResultType::File,
            details: Some(
                ResultDetails::File {
                    path: file_info.path.clone(),
                    filename: file_info.file_name,
                    extension: file_info.extension,
                    file_type: file_info.file_type,
                    size: u64_to_string(file_info.size),
                    last_modified,
                    content: String::new(),
                    parsed_content: Some(String::new()),
                },
            ),
        }
    }
}

/// A window of the surrounding shell.
#[derive(Clone, Copy, Debug, PartialEq, Eq, Structural)]
pub enum WindowIdent {
    Main,
    Settings,
}

/// An event received from the shell over its transport.
#[derive(Clone, Debug)]
pub enum ReceivedEvent {
    Query { query: Query },
    OpenWindow { window_ident: WindowIdent },
    CloseWindow { window_ident: WindowIdent },
    RunScript { script_name: String },
}

/// An event the engine or shell emits.
#[derive(Clone, Copy, Debug, PartialEq, Eq, Structural)]
pub enum SFEvent {
    MainWindowShown,
    MainWindowHidden,
    MainWindowResized,
    SettingsWindowShown,
    SettingsWindowHidden,
    Query,
    QueryResult,
    RunScript,
    ScriptResult,
}

/// The wire name of each event.
pub open spec fn event_name(e: SFEvent) -> Seq<char> {
    match e {
        SFEvent::MainWindowShown => "MainWindowShown"@,
        SFEvent::MainWindowHidden => "MainWindowHidden"@,
        SFEvent::MainWindowResized => "MainWindowResized"@,
        SFEvent::SettingsWindowShown => "SettingsWindowShown"@,
        SFEvent::SettingsWindowHidden => "SettingsWindowHidden"@,
        SFEvent::Query => "Query"@,
        SFEvent::QueryResult => "QueryResult"@,
        SFEvent::RunScript => "RunScript"@,
        SFEvent::ScriptResult => "ScriptResult"@,
    }
}

impl SFEvent {
    /// The wire name of this event.
    pub fn as_ref(&self) -> (r: &'static str)
        ensures
            r@ == event_name(*self),
    {
        match self {
            SFEvent::MainWindowShown => "MainWindowShown",
            SFEvent::MainWindowHidden => "MainWindowHidden",
            SFEvent::MainWindowResized => "MainWindowResized",
            SFEvent::SettingsWindowShown => "SettingsWindowShown",
            SFEvent::SettingsWindowHidden => "SettingsWindowHidden",
            SFEvent::Query => "Query",
            SFEvent::QueryResult => "QueryResult",
            SFEvent::RunScript => "RunScript",
            SFEvent::ScriptResult => "ScriptResult",
        }
    }

    /// Parses a wire name back into the event it names.
    pub fn from_str(s: &str) -> (r: Option<SFEvent>)
        ensures
            r matches Some(e) ==> event_name(e) == s@,
            r is None ==> forall|e: SFEvent| event_name(e) != s@,
    {
        if str_eq(s, "MainWindowShown") {
            Some(SFEvent::MainWindowShown)
        } else if str_eq(s, "MainWindowHidden") {
            Some(SFEvent::MainWindowHidden)
        } else if str_eq(s, "MainWindowResized") {
            Some(SFEvent::MainWindowResized)
        } else if str_eq(s, "SettingsWindowShown") {
            Some(SFEvent::SettingsWindowShown)
        } else if str_eq(s, "SettingsWindowHidden") {
            Some(SFEvent::SettingsWindowHidden)
        } else if str_eq(s, "Query") {
            Some(SFEvent::Query)
        } else if str_eq(s, "QueryResult") {
            Some(SFEvent::QueryResult)
        } else if str_eq(s, "RunScript") {
            Some(SFEvent::RunScript)
        } else if str_eq(s, "ScriptResult") {
            Some(SFEvent::ScriptResult)
        } else {
            proof {
                assert forall|e: SFEvent| event_name(e) != s@ by {
                    match e {
                        SFEvent::MainWindowShown => assert(event_name(e) != s@),
                        SFEvent::MainWindowHidden => assert(event_name(e) != s@),
                        SFEvent::MainWindowResized => assert(event_name(e) != s@),
                        SFEvent::SettingsWindowShown => assert(event_name(e) != s@),
                        SFEvent::SettingsWindowHidden => assert(event_name(e) != s@),
                        SFEvent::Query => assert(event_name(e) != s@),
                        SFEvent::QueryResult => assert(event_name(e) != s@),
                        SFEvent::RunScript => assert(event_name(e) != s@),
                        SFEvent::ScriptResult => assert(event_name(e) != s@),
                    }
                }
            }
            None
        }
    }
}

/// The error a path-to-record parse reports when the path cannot be read.
#[derive(Debug, PartialEq, Eq, Structural)]
pub struct ParsePathError;

/// A source of query results: built once, refreshed out of band, queried
/// synchronously. The shell's storage-backed sources implement it.
pub trait DataSource<T> {
    fn new(name: &str) -> Self where Self: core::marker::Sized;

    fn update_cache(&mut self);

    fn query(&self, query: &Query) -> Option<T>;
}

/// The single entry point the shell calls into the engine.
pub trait QueryInterface {
    fn new() -> Self where Self: core::marker::Sized;

    fn query(&self, query: Query) -> QueryResult;
}

} // verus!
