//! File classification: the extension-to-category table, path-component
//! extraction, and the `FileInfo` record produced for every indexed path.
use vstd::prelude::*;
use crate::text::{str_eq, substring_copy};

verus! {

/// Category assigned to an indexed filesystem entry.
#[derive(Clone, Copy, Debug, PartialEq, Eq, Structural)]
pub enum FileType {
    File,
    Directory,
    Binary,
    Typescript,
    Javascript,
    Rust,
    Python,
    C,
    Cpp,
    Java,
    Go,
    UnixShell,
    WindowsShell,
    Text,
    Markdown,
    Json,
    Xml,
    Yaml,
    Toml,
    Sql,
    Html,
    Css,
    Sass,
    Application,
    Image,
    Video,
    Audio,
    Archive,
    Pdf,
    Word,
    Excel,
    Powerpoint,
    CSV,
    MakeFile,
    BrewFile,
    Other,
}

/// The extension table: which category a file extension maps to.
pub open spec fn file_type_of_ext(e: Seq<char>) -> FileType {
    if e == "ts"@ || e == "tsx"@ {
        FileType::Typescript
    } else if e == "js"@ || e == "jsx"@ {
        FileType::Javascript
    } else if e == "rs"@ {
        FileType::Rust
    } else if e == "py"@ {
        FileType::Python
    } else if e == "c"@ {
        FileType::C
    } else if e == "cpp"@ {
        FileType::Cpp
    } else if e == "java"@ {
        FileType::Java
    } else if e == "go"@ {
        FileType::Go
    } else if e == "txt"@ {
        FileType::Text
    } else if e == "md"@ {
        FileType::Markdown
    } else if e == "json"@ {
        FileType::Json
    } else if e == "xml"@ {
        FileType::Xml
    } else if e == "yaml"@ {
        FileType::Yaml
    } else if e == "toml"@ {
        FileType::Toml
    } else if e == "sql"@ {
        FileType::Sql
    } else if e == "html"@ {
        FileType::Html
    } else if e == "css"@ {
        FileType::Css
    } else if e == "sass"@ {
        FileType::Sass
    } else if e == "png"@ || e == "jpg"@ || e == "jpeg"@ || e == "gif"@ || e == "bmp"@ || e
        == "svg"@ {
        FileType::Image
    } else if e == "mp4"@ || e == "mkv"@ || e == "avi"@ || e == "mov"@ || e == "flv"@ || e
        == "wmv"@ || e == "webm"@ {
        FileType::Video
    } else if e == "mp3"@ || e == "wav"@ || e == "flac"@ || e == "ogg"@ || e == "m4a"@ || e
        == "wma"@ {
        FileType::Audio
    } else if e == "zip"@ || e == "tar"@ || e == "gz"@ || e == "7z"@ || e == "rar"@ || e == "iso"@
        || e == "dmg"@ {
        FileType::Archive
    } else if e == "pdf"@ {
        FileType::Pdf
    } else if e == "doc"@ || e == "docx"@ {
        FileType::Word
    } else if e == "xls"@ || e == "xlsx"@ {
        FileType::Excel
    } else if e == "ppt"@ || e == "pptx"@ {
        FileType::Powerpoint
    } else if e == "csv"@ {
        FileType::CSV
    } else if e == "app"@ || e == "exe"@ {
        FileType::Application
    } else if e == "sh"@ {
        FileType::UnixShell
    } else if e == "bat"@ {
        FileType::WindowsShell
    } else {
        FileType::Other
    }
}

impl FileType {
    /// Maps an optional file extension to its category; a missing extension
    /// classifies as `Other`, like an unknown one.
    pub fn from_extension(file_extension: Option<&str>) -> (r: FileType)
        ensures
            r == match file_extension {
                Some(e) => file_type_of_ext(e@),
                None => file_type_of_ext(""@),
            },
    {
        let e = match file_extension {
            Some(e) => e,
            None => "",
        };
        if str_eq(e, "ts") || str_eq(e, "tsx") {
            FileType::Typescript
        } else if str_eq(e, "js") || str_eq(e, "jsx") {
            FileType::Javascript
        } else if str_eq(e, "rs") {
            FileType::Rust
        } else if str_eq(e, "py") {
            FileType::Python
        } else if str_eq(e, "c") {
            FileType::C
        } else if str_eq(e, "cpp") {
            FileType::Cpp
        } else if str_eq(e, "java") {
            FileType::Java
        } else if str_eq(e, "go") {
            FileType::Go
        } else if str_eq(e, "txt") {
            FileType::Text
        } else if str_eq(e, "md") {
            FileType::Markdown
        } else if str_eq(e, "json") {
            FileType::Json
        } else if str_eq(e, "xml") {
            FileType::Xml
        } else if str_eq(e, "yaml") {
            FileType::Yaml
        } else if str_eq(e, "toml") {
            FileType::Toml
        } else if str_eq(e, "sql") {
            FileType::Sql
        } else if str_eq(e, "html") {
            FileType::Html
        } else if str_eq(e, "css") {
            FileType::Css
        } else if str_eq(e, "sass") {
            FileType::Sass
        } else if str_eq(e, "png") || str_eq(e, "jpg") || str_eq(e, "jpeg") || str_eq(e, "gif")
            || str_eq(e, "bmp") || str_eq(e, "svg") {
            FileType::Image
        } else if str_eq(e, "mp4") || str_eq(e, "mkv") || str_eq(e, "avi") || str_eq(e, "mov")
            || str_eq(e, "flv") || str_eq(e, "wmv") || str_eq(e, "webm") {
            FileType::Video
        } else if str_eq(e, "mp3") || str_eq(e, "wav") || str_eq(e, "flac") || str_eq(e, "ogg")
            || str_eq(e, "m4a") || str_eq(e, "wma") {
            FileType::Audio
        } else if str_eq(e, "zip") || str_eq(e, "tar") || str_eq(e, "gz") || str_eq(e, "7z")
            || str_eq(e, "rar") || str_eq(e, "iso") || str_eq(e, "dmg") {
            FileType::Archive
        } else if str_eq(e, "pdf") {
            FileType::Pdf
        } else if str_eq(e, "doc") || str_eq(e, "docx") {
            FileType::Word
        } else if str_eq(e, "xls") || str_eq(e, "xlsx") {
            FileType::Excel
        } else if str_eq(e, "ppt") || str_eq(e, "pptx") {
            FileType::Powerpoint
        } else if str_eq(e, "csv") {
            FileType::CSV
        } else if str_eq(e, "app") || str_eq(e, "exe") {
            FileType::Application
        } else if str_eq(e, "sh") {
            FileType::UnixShell
        } else if str_eq(e, "bat") {
            FileType::WindowsShell
        } else {
            FileType::Other
        }
    }
}

/// The wire name of each category.
pub open spec fn file_type_name(t: FileType) -> Seq<char> {
    match t {
        FileType::File => "file"@,
        FileType::Directory => "directory"@,
        FileType::Binary => "binary"@,
        FileType::Typescript => "typescript"@,
        FileType::Javascript => "javascript"@,
        FileType::Rust => "rust"@,
        FileType::Python => "python"@,
        FileType::C => "c"@,
        FileType::Cpp => "cpp"@,
        FileType::Java => "java"@,
        FileType::Go => "go"@,
        FileType::UnixShell => "unixShell"@,
        FileType::WindowsShell => "windowsShell"@,
        FileType::Text => "text"@,
        FileType::Markdown => "markdown"@,
        FileType::Json => "json"@,
        FileType::Xml => "xml"@,
        FileType::Yaml => "yaml"@,
        FileType::Toml => "toml"@,
        FileType::Sql => "sql"@,
        FileType::Html => "html"@,
        FileType::Css => "css"@,
        FileType::Sass => "sass"@,
        FileType::Application => "application"@,
        FileType::Image => "image"@,
        FileType::Video => "video"@,
        FileType::Audio => "audio"@,
        FileType::Archive => "archive"@,
        FileType::Pdf => "pdf"@,
        FileType::Word => "word"@,
        FileType::Excel => "excel"@,
        FileType::Powerpoint => "powerpoint"@,
        FileType::CSV => "csv"@,
        FileType::MakeFile => "makeFile"@,
        FileType::BrewFile => "brewFile"@,
        FileType::Other => "other"@,
    }
}

impl FileType {
    /// The wire name of this category.
    pub fn as_ref(&self) -> (r: &'static str)
        ensures
            r@ == file_type_name(*self),
    {
        match self {
            FileType::File => "file",
            FileType::Directory => "directory",
            FileType::Binary => "binary",
            FileType::Typescript => "typescript",
            FileType::Javascript => "javascript",
            FileType::Rust => "rust",
            FileType::Python => "python",
            FileType::C => "c",
            FileType::Cpp => "cpp",
            FileType::Java => "java",
            FileType::Go => "go",
            FileType::UnixShell => "unixShell",
            FileType::WindowsShell => "windowsShell",
            FileType::Text => "text",
            FileType::Markdown => "markdown",
            FileType::Json => "json",
            FileType::Xml => "xml",
            FileType::Yaml => "yaml",
            FileType::Toml => "toml",
            FileType::Sql => "sql",
            FileType::Html => "html",
            FileType::Css => "css",
            FileType::Sass => "sass",
            FileType::Application => "application",
            FileType::Image => "image",
            FileType::Video => "video",
            FileType::Audio => "audio",
            FileType::Archive => "archive",
            FileType::Pdf => "pdf",
            FileType::Word => "word",
            FileType::Excel => "excel",
            FileType::Powerpoint => "powerpoint",
            FileType::CSV => "csv",
            FileType::MakeFile => "makeFile",
            FileType::BrewFile => "brewFile",
            FileType::Other => "other",
        }
    }

    /// Parses a wire name back into the category it names.
    pub fn from_str(s: &str) -> (r: Option<FileType>)
        ensures
            r matches Some(t) ==> file_type_name(t) == s@,
            r is None ==> forall|t: FileType| file_type_name(t) != s@,
    {
        if str_eq(s, "file") {
            Some(FileType::File)
        } else if str_eq(s, "directory") {
            Some(FileType::Directory)
        } else if str_eq(s, "binary") {
            Some(FileType::Binary)
        } else if str_eq(s, "typescript") {
            Some(FileType::Typescript)
        } else if str_eq(s, "javascript") {
            Some(FileType::Javascript)
        } else if str_eq(s, "rust") {
            Some(FileType::Rust)
        } else if str_eq(s, "python") {
            Some(FileType::Python)
        } else if str_eq(s, "c") {
            Some(FileType::C)
        } else if str_eq(s, "cpp") {
            Some(FileType::Cpp)
        } else if str_eq(s, "java") {
            Some(FileType::Java)
        } else if str_eq(s, "go") {
            Some(FileType::Go)
        } else if str_eq(s, "unixShell") {
            Some(FileType::UnixShell)
        } else if str_eq(s, "windowsShell") {
            Some(FileType::WindowsShell)
        } else if str_eq(s, "text") {
            Some(FileType::Text)
        } else if str_eq(s, "markdown") {
            Some(FileType::Markdown)
        } else if str_eq(s, "json") {
            Some(FileType::Json)
        } else if str_eq(s, "xml") {
            Some(FileType::Xml)
        } else if str_eq(s, "yaml") {
            Some(FileType::Yaml)
        } else if str_eq(s, "toml") {
            Some(FileType::Toml)
        } else if str_eq(s, "sql") {
            Some(FileType::Sql)
        } else if str_eq(s, "html") {
            Some(FileType::Html)
        } else if str_eq(s, "css") {
            Some(FileType::Css)
        } else if str_eq(s, "sass") {
            Some(FileType::Sass)
        } else if str_eq(s, "application") {
            Some(FileType::Application)
        } else if str_eq(s, "image") {
            Some(FileType::Image)
        } else if str_eq(s, "video") {
            Some(FileType::Video)
        } else if str_eq(s, "audio") {
            Some(FileType::Audio)
        } else if str_eq(s, "archive") {
            Some(FileType::Archive)
        } else if str_eq(s, "pdf") {
            Some(FileType::Pdf)
        } else if str_eq(s, "word") {
            Some(FileType::Word)
        } else if str_eq(s, "excel") {
            Some(FileType::Excel)
        } else if str_eq(s, "powerpoint") {
            Some(FileType::Powerpoint)
        } else if str_eq(s, "csv") {
            Some(FileType::CSV)
        } else if str_eq(s, "makeFile") {
            Some(FileType::MakeFile)
        } else if str_eq(s, "brewFile") {
            Some(FileType::BrewFile)
        } else if str_eq(s, "other") {
            Some(FileType::Other)
        } else {
            proof {
                assert forall|t: FileType| file_type_name(t) != s@ by {
                    match t {
                        FileType::File => assert(file_type_name(t) != s@),
                        FileType::Directory => assert(file_type_name(t) != s@),
                        FileType::Binary => assert(file_type_name(t) != s@),
                        FileType::Typescript => assert(file_type_name(t) != s@),
                        FileType::Javascript => assert(file_type_name(t) != s@),
                        FileType::Rust => assert(file_type_name(t) != s@),
                        FileType::Python => assert(file_type_name(t) != s@),
                        FileType::C => assert(file_type_name(t) != s@),
                        FileType::Cpp => assert(file_type_name(t) != s@),
                        FileType::Java => assert(file_type_name(t) != s@),
                        FileType::Go => assert(file_type_name(t) != s@),
                        FileType::UnixShell => assert(file_type_name(t) != s@),
                        FileType::WindowsShell => assert(file_type_name(t) != s@),
                        FileType::Text => assert(file_type_name(t) != s@),
                        FileType::Markdown => assert(file_type_name(t) != s@),
                        FileType::Json => assert(file_type_name(t) != s@),
                        FileType::Xml => assert(file_type_name(t) != s@),
                        FileType::Yaml => assert(file_type_name(t) != s@),
                        FileType::Toml => assert(file_type_name(t) != s@),
                        FileType::Sql => assert(file_type_name(t) != s@),
                        FileType::Html => assert(file_type_name(t) != s@),
                        FileType::Css => assert(file_type_name(t) != s@),
                        FileType::Sass => assert(file_type_name(t) != s@),
                        FileType::Application => assert(file_type_name(t) != s@),
                        FileType::Image => assert(file_type_name(t) != s@),
                        FileType::Video => assert(file_type_name(t) != s@),
                        FileType::Audio => assert(file_type_name(t) != s@),
                        FileType::Archive => assert(file_type_name(t) != s@),
                        FileType::Pdf => assert(file_type_name(t) != s@),
                        FileType::Word => assert(file_type_name(t) != s@),
                        FileType::Excel => assert(file_type_name(t) != s@),
                        FileType::Powerpoint => assert(file_type_name(t) != s@),
                        FileType::CSV => assert(file_type_name(t) != s@),
                        FileType::MakeFile => assert(file_type_name(t) != s@),
                        FileType::BrewFile => assert(file_type_name(t) != s@),
                        FileType::Other => assert(file_type_name(t) != s@),
                    }
                }
            }
            None
        }
    }
}

/// Index of the character after the last `/` of `s` (0 when `s` has none).
pub open spec fn after_last_slash(s: Seq<char>) -> int {
    if exists|i: int| 0 <= i < s.len() && s[i] == '/' {
        1 + (choose|i: int|
            0 <= i < s.len() && s[i] == '/' && (forall|j: int| i < j < s.len() ==> s[j] != '/'))
    } else {
        0
    }
}

/// The final path component of `s`: everything after the last `/`.
pub open spec fn file_name_seq(s: Seq<char>) -> Seq<char> {
    s.subrange(after_last_slash(s), s.len() as int)
}

/// Position of the last `.` of `name` that is not its first character, or
/// `name.len()` when there is none; the extension starts one past it.
pub open spec fn stem_len(name: Seq<char>) -> int {
    if exists|i: int| 0 < i < name.len() && name[i] == '.' {
        choose|i: int|
            0 < i < name.len() && name[i] == '.' && (forall|j: int|
                i < j < name.len() ==> name[j] != '.')
    } else {
        name.len() as int
    }
}

/// Finds the character index one past the last `/` of `path`.
fn find_after_last_slash(path: &str) -> (r: usize)
    ensures
        r == after_last_slash(path@),
        r <= path@.len(),
{
    let n = path.unicode_len();
    let mut i: usize = n;
    while i > 0
        invariant
            n == path@.len(),
            0 <= i <= n,
            forall|j: int| i <= j < n ==> path@[j] != '/',
        decreases i,
    {
        if path.get_char(i - 1) == '/' {
            proof {
                let w = i - 1;
                assert(0 <= w < path@.len() && path@[w] == '/' && (forall|j: int|
                    w < j < path@.len() ==> path@[j] != '/'));
                let c = choose|k: int|
                    0 <= k < path@.len() && path@[k] == '/' && (forall|j: int|
                        k < j < path@.len() ==> path@[j] != '/');
                assert(c == w);
            }
            return i;
        }
        i = i - 1;
    }
    proof {
        assert(forall|j: int| 0 <= j < path@.len() ==> path@[j] != '/');
    }
    0
}

/// The final path component of `path` as a fresh string.
pub fn file_name_of(path: &str) -> (r: String)
    ensures
        r@ == file_name_seq(path@),
{
    let n = path.unicode_len();
    let cut = find_after_last_slash(path);
    substring_copy(path, cut, n)
}

/// Splits a file name into stem and extension at its last interior dot.
/// A name whose only dot is its first character has no extension.
fn split_name(name: &str) -> (r: (String, Option<String>))
    ensures
        r.0@ == name@.subrange(0, stem_len(name@)),
        r.1 matches Some(e) ==> stem_len(name@) < name@.len() && e@ == name@.subrange(
            stem_len(name@) + 1,
            name@.len() as int,
        ),
        r.1 is None ==> stem_len(name@) == name@.len(),
        r.1 is Some <==> stem_len(name@) < name@.len(),
{
    let n = name.unicode_len();
    let mut i: usize = n;
    while i > 1
        invariant
            n == name@.len(),
            i <= n,
            i >= 1 || n == 0,
            forall|j: int| i <= j < n ==> name@[j] != '.',
        decreases i,
    {
        if name.get_char(i - 1) == '.' {
            proof {
                let w = i - 1;
                assert(0 < w < name@.len() && name@[w] == '.' && (forall|j: int|
                    w < j < name@.len() ==> name@[j] != '.'));
                let c = choose|k: int|
                    0 < k < name@.len() && name@[k] == '.' && (forall|j: int|
                        k < j < name@.len() ==> name@[j] != '.');
                assert(c == w);
            }
            let stem = substring_copy(name, 0, i - 1);
            let ext = substring_copy(name, i, n);
            return (stem, Some(ext));
        }
        i = i - 1;
    }
    proof {
        assert(forall|j: int| 0 < j < name@.len() ==> name@[j] != '.');
        assert(stem_len(name@) == name@.len() as int);
    }
    (substring_copy(name, 0, n), None)
}

/// The extension of `path`, if its final component has one.
pub fn path_extension(path: &str) -> (r: Option<String>)
    ensures
        r matches Some(e) ==> extension_of_path(path@) == Some(e@),
        r is None <==> extension_of_path(path@) is None,
{
    let name = file_name_of(path);
    let (_stem, ext) = split_name(name.as_str());
    ext
}

/// Filesystem metadata for one path, gathered by the caller; the library
/// never touches the disk itself.
#[derive(Clone, Copy, Debug)]
pub struct FileMeta {
    pub size: u64,
    pub is_dir: bool,
    pub last_modified: Option<u64>,
    pub created: Option<u64>,
}

/// One indexed filesystem entry.
#[derive(Debug)]
pub struct FileInfo {
    pub file_name: Option<String>,
    pub path: String,
    pub extension: Option<String>,
    pub file_type: FileType,
    pub size: u64,
    pub last_modified: Option<u64>,
    pub created: Option<u64>,
}

/// The extension of `path` as the record derives it, if any.
pub open spec fn extension_of_path(path: Seq<char>) -> Option<Seq<char>> {
    let name = file_name_seq(path);
    if stem_len(name) < name.len() {
        Some(name.subrange(stem_len(name) + 1, name.len() as int))
    } else {
        None
    }
}

/// The stem (file name without extension) of `path`, if the final path
/// component is non-empty.
pub open spec fn stem_of_path(path: Seq<char>) -> Option<Seq<char>> {
    let name = file_name_seq(path);
    if name.len() == 0 {
        None
    } else {
        Some(name.subrange(0, stem_len(name)))
    }
}

/// The category the record assigns: by extension when one exists, else
/// `Directory` for directories and `Other` for extensionless plain files.
pub open spec fn file_type_of_path(path: Seq<char>, is_dir: bool) -> FileType {
    match extension_of_path(path) {
        Some(e) => file_type_of_ext(e),
        None => if is_dir {
            FileType::Directory
        } else {
            FileType::Other
        },
    }
}

/// Copies an optional string.
pub fn clone_opt_string(o: &Option<String>) -> (r: Option<String>)
    ensures
        r == *o,
{
    match o {
        Some(s) => Some(s.clone()),
        None => None,
    }
}

impl Clone for FileInfo {
    /// An exact copy; cloning keeps every field.
    fn clone(&self) -> (r: Self)
        ensures
            r == *self,
    {
        FileInfo {
            file_name: clone_opt_string(&self.file_name),
            path: self.path.clone(),
            extension: clone_opt_string(&self.extension),
            file_type: self.file_type,
            size: self.size,
            last_modified: self.last_modified,
            created: self.created,
        }
    }
}

impl FileInfo {
    /// Well-formedness: the derived fields agree with the path and metadata.
    pub open spec fn wf_for(&self, path: Seq<char>, meta: FileMeta) -> bool {
        &&& self.path@ == path
        &&& self.file_name matches Some(n) ==> Some(n@) == stem_of_path(path)
        &&& self.file_name is None <==> stem_of_path(path) is None
        &&& self.extension matches Some(e) ==> Some(e@) == extension_of_path(path)
        &&& self.extension is None <==> extension_of_path(path) is None
        &&& self.file_type == file_type_of_path(path, meta.is_dir)
        &&& self.size == meta.size
        &&& self.last_modified == meta.last_modified
        &&& self.created == meta.created
    }

    /// Builds the record for `filepath` from metadata the caller gathered;
    /// `None` metadata (an unreadable path) yields `None`, as a failed stat
    /// does in the original pipeline.
    pub fn from_string(filepath: String, meta: Option<FileMeta>) -> (r: Option<FileInfo>)
        ensures
            r matches Some(info) ==> meta matches Some(m) && info.wf_for(filepath@, m),
            r is None <==> meta is None,
    {
        let m = match meta {
            Some(m) => m,
            None => { return None },
        };
        let name = file_name_of(filepath.as_str());
        let name_len = name.as_str().unicode_len();
        let (stem, ext) = split_name(name.as_str());
        let file_name = if name_len == 0 {
            None
        } else {
            Some(stem)
        };
        let file_type = match &ext {
            Some(e) => FileType::from_extension(Some(e.as_str())),
            None => if m.is_dir {
                FileType::Directory
            } else {
                FileType::Other
            },
        };
        Some(
            FileInfo {
                file_name,
                path: filepath,
                extension: ext,
                file_type,
                size: m.size,
                last_modified: m.last_modified,
                created: m.created,
            },
        )
    }
}

} // verus!
