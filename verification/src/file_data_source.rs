//! The file-search data source: it owns the indexed file records between
//! crawls and answers ranked queries over them. The crawl that discovers
//! the records and the store that persists them live with the caller; this
//! source is handed the crawl's result wholesale (a full re-index).
use vstd::prelude::*;
use crate::files::FileInfo;
use crate::fuzzy::{path_kept, path_score, score_path};
use crate::rank::{
    lemma_sorted_scored_wf, scored_seq, sort_ranked, sort_scored, Scored, RESULT_CAP,
};
use crate::types::Query;

verus! {

/// What can go wrong when refreshing or reading the file index.
#[derive(Debug, PartialEq, Eq, Structural)]
pub enum DSError {
    Io,
    MissingDir,
    MissingSearchDir,
    TransactionError,
}

impl DSError {
    /// A short description of the error.
    pub fn message(&self) -> (r: &'static str)
        ensures
            r@ == match *self {
                DSError::Io => "IO error"@,
                DSError::MissingDir => "Failed to locate data directory"@,
                DSError::MissingSearchDir => "Failed to load search directories from settings"@,
                DSError::TransactionError => "Transaction Error"@,
            },
    {
        match self {
            DSError::Io => "IO error",
            DSError::MissingDir => "Failed to locate data directory",
            DSError::MissingSearchDir => "Failed to load search directories from settings",
            DSError::TransactionError => "Transaction Error",
        }
    }
}

/// The ranked result of a file query over `infos`: every record whose path
/// scores positively, best first (ties in discovery order), capped.
pub open spec fn file_query_results(infos: Seq<FileInfo>, pattern: Seq<char>) -> Seq<FileInfo> {
    let sorted = sort_ranked(
        scored_seq(
            infos,
            |f: FileInfo| path_kept(f.path@, pattern),
            |f: FileInfo| path_score(f.path@, pattern),
        ),
    );
    let capped = if sorted.len() > RESULT_CAP as int {
        sorted.take(RESULT_CAP as int)
    } else {
        sorted
    };
    capped.map_values(|sc: Scored| infos[sc.pos as int])
}

/// The file-search source: the indexed records of the latest crawl.
pub struct FileDataSource {
    pub name: String,
    pub entries: Vec<FileInfo>,
}

impl FileDataSource {
    /// An empty index under the given dataset name; the caller fills it
    /// with a crawl before the first query.
    pub fn new(name: &str) -> (r: Self)
        ensures
            r.name@ == name@,
            r.entries@.len() == 0,
    {
        FileDataSource { name: String::from_str(name), entries: Vec::new() }
    }

    /// The indexed paths, as the persisted index would list them.
    pub fn read(&self) -> (r: Option<Vec<String>>)
        ensures
            r matches Some(v) && v@.map_values(|s: String| s@) == self.entries@.map_values(
                |f: FileInfo| f.path@,
            ),
    {
        let mut out: Vec<String> = Vec::new();
        let n = self.entries.len();
        let mut i: usize = 0;
        while i < n
            invariant
                n == self.entries@.len(),
                0 <= i <= n,
                out@.len() == i,
                forall|j: int| 0 <= j < i ==> #[trigger] out@[j]@ == self.entries@[j].path@,
            decreases n - i,
        {
            out.push(self.entries[i].path.clone());
            i = i + 1;
        }
        proof {
            assert(out@.map_values(|s: String| s@) =~= self.entries@.map_values(
                |f: FileInfo| f.path@,
            ));
        }
        Some(out)
    }

    /// Replaces the whole index with the records of a fresh crawl — a full
    /// re-index, never an incremental patch. A caller that could not load
    /// its search directories hands `None` and gets the configuration
    /// error back, with the index left untouched.
    pub fn cache_file_search_paths(&mut self, crawled: Option<Vec<FileInfo>>) -> (r: Result<
        (),
        DSError,
    >)
        ensures
            final(self).name == old(self).name,
            crawled matches Some(v) ==> r is Ok && final(self).entries == v,
            crawled is None ==> (r matches Err(e) && e == DSError::MissingSearchDir
                && final(self).entries == old(self).entries),
    {
        match crawled {
            Some(v) => {
                self.entries = v;
                Ok(())
            },
            None => Err(DSError::MissingSearchDir),
        }
    }

    /// Refreshes the index from a crawl; a missing configuration leaves it
    /// unchanged, as the refresh only logs that error.
    pub fn update_cache(&mut self, crawled: Option<Vec<FileInfo>>)
        ensures
            final(self).name == old(self).name,
            crawled matches Some(v) ==> final(self).entries == v,
            crawled is None ==> final(self).entries == old(self).entries,
    {
        let _ = self.cache_file_search_paths(crawled);
    }

    /// Answers a file query: scores every indexed record against the
    /// search text, keeps the positive, ranks them best first and caps the
    /// list.
    pub fn query(&self, query: &Query) -> (r: Option<Vec<FileInfo>>)
        ensures
            r matches Some(v) && v@ == file_query_results(self.entries@, query.search_string@),
    {
        let ghost infos = self.entries@;
        let ghost pattern = query.search_string@;
        let ghost keep = |f: FileInfo| path_kept(f.path@, pattern);
        let ghost key = |f: FileInfo| path_score(f.path@, pattern);
        let mut scored: Vec<Scored> = Vec::new();
        let n = self.entries.len();
        let mut i: usize = 0;
        while i < n
            invariant
                n == self.entries@.len(),
                infos == self.entries@,
                pattern == query.search_string@,
                keep == (|f: FileInfo| path_kept(f.path@, pattern)),
                key == (|f: FileInfo| path_score(f.path@, pattern)),
                0 <= i <= n,
                scored@ == scored_seq(infos.take(i as int), keep, key),
            decreases n - i,
        {
            let s = score_path(self.entries[i].path.as_str(), query.search_string.as_str());
            proof {
                assert(infos.take(i + 1).drop_last() =~= infos.take(i as int));
                assert(infos.take(i + 1).last() == infos[i as int]);
            }
            if s > 0 {
                scored.push(Scored { score: s, pos: i });
            }
            proof {
                assert(scored@ =~= scored_seq(infos.take(i + 1), keep, key));
            }
            i = i + 1;
        }
        proof {
            assert(infos.take(n as int) =~= infos);
        }
        let sorted = sort_scored(&scored);
        proof {
            lemma_sorted_scored_wf(infos, keep, key);
        }
        let m = sorted.len();
        let cap = if m > RESULT_CAP {
            RESULT_CAP
        } else {
            m
        };
        let mut out: Vec<FileInfo> = Vec::new();
        let mut k: usize = 0;
        while k < cap
            invariant
                m == sorted@.len(),
                cap == if m > RESULT_CAP {
                    RESULT_CAP as int
                } else {
                    m as int
                },
                sorted@ == sort_ranked(scored_seq(infos, keep, key)),
                infos == self.entries@,
                forall|j: int|
                    0 <= j < sorted@.len() ==> 0 <= #[trigger] sorted@[j].pos < infos.len(),
                0 <= k <= cap,
                out@.len() == k,
                forall|j: int| 0 <= j < k ==> #[trigger] out@[j] == infos[sorted@[j].pos as int],
            decreases cap - k,
        {
            let pos = sorted[k].pos;
            let c = self.entries[pos].clone();
            out.push(c);
            k = k + 1;
        }
        proof {
            let sorted_full = sort_ranked(scored_seq(infos, keep, key));
            let capped = if sorted_full.len() > RESULT_CAP as int {
                sorted_full.take(RESULT_CAP as int)
            } else {
                sorted_full
            };
            assert(out@ =~= capped.map_values(|sc: Scored| infos[sc.pos as int]));
        }
        Some(out)
    }
}

} // verus!
