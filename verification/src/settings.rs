//! Application configuration: the launch shortcut and the crawl's search
//! roots, with platform defaults and tilde expansion. Reading and writing
//! the config file is the caller's work; the library owns the values and
//! the rules on them, and the caller layers persistence on top.
use vstd::prelude::*;
use crate::browser::Platform;
use crate::text::{concat_str, starts_with, starts_with_seq, substring_copy};

verus! {

/// The default search roots per platform; the home directory is supplied
/// by the platform and consumed here, never computed.
pub open spec fn default_search_directories(p: Platform, home: Seq<char>) -> Seq<Seq<char>> {
    match p {
        Platform::MacOs => seq![
            home + "/Desktop"@,
            home + "/Downloads"@,
            home + "/Documents"@,
            "/System/Applications"@,
            "/Applications"@,
        ],
        Platform::Windows => seq![
            home + "\\Desktop"@,
            home + "\\Downloads"@,
            "C:\\Program Files"@,
            "C:\\Program Files (x86)"@,
        ],
        Platform::Linux => seq![
            "/usr/share/applications"@,
            "/usr/local/share/applications"@,
            "/usr/bin"@,
            "/usr/sbin"@,
        ],
        Platform::Other => Seq::empty(),
    }
}

/// The default search roots on platform `p` with home directory `home`.
pub fn get_default_search_directories(p: Platform, home: &str) -> (r: Vec<String>)
    ensures
        r@.map_values(|s: String| s@) == default_search_directories(p, home@),
{
    let mut out: Vec<String> = Vec::new();
    match p {
        Platform::MacOs => {
            out.push(concat_str(home, "/Desktop"));
            out.push(concat_str(home, "/Downloads"));
            out.push(concat_str(home, "/Documents"));
            out.push(String::from_str("/System/Applications"));
            out.push(String::from_str("/Applications"));
        },
        Platform::Windows => {
            out.push(concat_str(home, "\\Desktop"));
            out.push(concat_str(home, "\\Downloads"));
            out.push(String::from_str("C:\\Program Files"));
            out.push(String::from_str("C:\\Program Files (x86)"));
        },
        Platform::Linux => {
            out.push(String::from_str("/usr/share/applications"));
            out.push(String::from_str("/usr/local/share/applications"));
            out.push(String::from_str("/usr/bin"));
            out.push(String::from_str("/usr/sbin"));
        },
        Platform::Other => {},
    }
    proof {
        assert(out@.map_values(|s: String| s@) =~= default_search_directories(p, home@));
    }
    out
}

/// A configured directory with a leading `~` expanded to the home
/// directory; any other directory stands as written.
pub open spec fn expand_tilde(dir: Seq<char>, home: Seq<char>) -> Seq<char> {
    if starts_with_seq(dir, "~"@) {
        home + dir.skip(1)
    } else {
        dir
    }
}

/// The launcher's configuration: the global shortcut that raises it and
/// the directories the file crawl searches.
#[derive(Debug)]
pub struct AppConfig {
    pub launch_shortcut: String,
    pub search_directories: Vec<String>,
}

impl AppConfig {
    /// The built-in configuration for platform `p`: the standard shortcut
    /// and the platform's default search roots. A caller that persists
    /// configuration overlays what it read on top of this.
    pub fn new(p: Platform, home: &str) -> (r: AppConfig)
        ensures
            r.launch_shortcut@ == "Control+Space"@,
            r.search_directories@.map_values(|s: String| s@) == default_search_directories(
                p,
                home@,
            ),
    {
        AppConfig {
            launch_shortcut: String::from_str("Control+Space"),
            search_directories: get_default_search_directories(p, home),
        }
    }

    /// The configured search roots with `~` expanded to the home
    /// directory.
    pub fn get_search_directories(&self, home: &str) -> (r: Option<Vec<String>>)
        ensures
            r matches Some(v) && v@.map_values(|s: String| s@)
                == self.search_directories@.map_values(
                |d: String| expand_tilde(d@, home@),
            ),
    {
        let mut out: Vec<String> = Vec::new();
        let n = self.search_directories.len();
        let mut i: usize = 0;
        while i < n
            invariant
                n == self.search_directories@.len(),
                0 <= i <= n,
                out@.len() == i,
                forall|j: int|
                    0 <= j < i ==> #[trigger] out@[j]@ == expand_tilde(
                        self.search_directories@[j]@,
                        home@,
                    ),
            decreases n - i,
        {
            let d = &self.search_directories[i];
            if starts_with(d.as_str(), "~") {
                proof {
                    reveal_strlit("~");
                }
                let len = d.as_str().unicode_len();
                let rest = substring_copy(d.as_str(), 1, len);
                let expanded = concat_str(home, rest.as_str());
                proof {
                    assert(d@.subrange(1, d@.len() as int) =~= d@.skip(1));
                }
                out.push(expanded);
            } else {
                out.push(d.clone());
            }
            i = i + 1;
        }
        proof {
            assert(out@.map_values(|s: String| s@) =~= self.search_directories@.map_values(
                |d: String| expand_tilde(d@, home@),
            ));
        }
        Some(out)
    }
}

/// The application state the shell keeps: the loaded configuration.
pub struct AppState {
    pub config: AppConfig,
}

impl AppState {
    /// Wraps a loaded configuration as the shell's state.
    pub fn new(config: AppConfig) -> (r: AppState)
        ensures
            r.config == config,
    {
        AppState { config }
    }
}

/// The configuration file inside the configuration directory the platform
/// reported: `<dir>/config.json`.
pub fn config_filepath(config_dir: &str) -> (r: String)
    ensures
        r@ == config_dir@ + "/config.json"@,
{
    concat_str(config_dir, "/config.json")
}

/// The cached icon location for an application name inside the icon cache
/// directory: `<dir>/<name>.png`. Whether the file exists is the caller's
/// check.
pub fn get_cached_app_icon_path(icon_cache_dir: &str, app_name: &str) -> (r: String)
    ensures
        r@ == icon_cache_dir@ + "/"@ + app_name@ + ".png"@,
{
    let mut s = concat_str(icon_cache_dir, "/");
    s.append(app_name);
    s.append(".png");
    s
}

/// An icon name from an application's metadata, with the icon container
/// extension ensured: the platform's metadata may omit it.
pub fn icon_file_with_ext(icon_file_name: &str) -> (r: String)
    ensures
        r@ == if crate::text::ends_with_seq(icon_file_name@, ".icns"@) {
            icon_file_name@
        } else {
            icon_file_name@ + ".icns"@
        },
{
    if crate::text::ends_with(icon_file_name, ".icns") {
        String::from_str(icon_file_name)
    } else {
        concat_str(icon_file_name, ".icns")
    }
}

} // verus!
