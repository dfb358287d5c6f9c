//! The filesystem crawl policy and its collection step. Walking the disk is
//! the caller's work: it hands every discovered entry here. The library
//! decides, per entry, whether to emit it and whether to descend into it
//! (the policy table per platform), classifies what it emits, and honours
//! the global result cap — the walk stops contributing once the cap is hit.
use vstd::prelude::*;
use crate::browser::Platform;
use crate::files::{extension_of_path, FileInfo, FileMeta};
use crate::text::{contains_seq, contains_sub, ends_with, ends_with_seq, starts_with, starts_with_seq};

verus! {

/// A crawl never returns more than this many entries.
pub const CRAWL_LIMIT: usize = 300;

/// What to do with one discovered path.
#[derive(Clone, Copy, Debug, PartialEq, Eq, Structural)]
pub enum CrawlAction {
    /// Emit as a leaf result and do not descend into it (application
    /// bundles: directories presented as launchable files).
    EmitAndPrune,
    /// Emit as a result; descent does not apply.
    Emit,
    /// Do not emit and do not descend (bundle internals, vendor trees
    /// known to be enormous and irrelevant).
    Prune,
    /// Do not emit, keep walking into it.
    Descend,
}

/// One discovered filesystem entry, as the walker reports it.
#[derive(Clone, Debug)]
pub struct CrawlEntry {
    pub path: String,
    pub is_symlink: bool,
    pub meta: FileMeta,
}

/// The pruning/emission policy table. On the platform where applications
/// are directory bundles, a bundle is emitted as a leaf and its internals
/// pruned, known-huge vendor directories are pruned outright, and plain
/// absolute files are emitted. Where applications are single files, the
/// file extension is the only signal.
pub open spec fn crawl_decision_spec(
    p: Platform,
    path: Seq<char>,
    is_dir: bool,
    is_symlink: bool,
) -> CrawlAction {
    match p {
        Platform::MacOs => if extension_of_path(path) == Some("app"@) {
            CrawlAction::EmitAndPrune
        } else if ends_with_seq(path, "/Contents"@) || contains_seq(path, "Native Instruments"@)
            || contains_seq(path, "Adobe Creative Cloud"@) {
            CrawlAction::Prune
        } else if !is_dir && !is_symlink && starts_with_seq(path, "/"@) {
            CrawlAction::Emit
        } else {
            CrawlAction::Descend
        },
        Platform::Windows => if extension_of_path(path) == Some("exe"@) {
            CrawlAction::Emit
        } else {
            CrawlAction::Descend
        },
        Platform::Linux => if extension_of_path(path) == Some("desktop"@) {
            CrawlAction::Emit
        } else {
            CrawlAction::Descend
        },
        Platform::Other => CrawlAction::Descend,
    }
}

/// Decides what the walk does with one discovered path.
pub fn crawl_decision(p: Platform, path: &str, is_dir: bool, is_symlink: bool) -> (r: CrawlAction)
    ensures
        r == crawl_decision_spec(p, path@, is_dir, is_symlink),
{
    match p {
        Platform::MacOs => {
            let is_app = match crate::files::path_extension(path) {
                Some(e) => crate::text::str_eq(e.as_str(), "app"),
                None => false,
            };
            if is_app {
                CrawlAction::EmitAndPrune
            } else if ends_with(path, "/Contents") || contains_sub(path, "Native Instruments")
                || contains_sub(path, "Adobe Creative Cloud") {
                CrawlAction::Prune
            } else if !is_dir && !is_symlink && starts_with(path, "/") {
                CrawlAction::Emit
            } else {
                CrawlAction::Descend
            }
        },
        Platform::Windows => {
            let is_exe = match crate::files::path_extension(path) {
                Some(e) => crate::text::str_eq(e.as_str(), "exe"),
                None => false,
            };
            if is_exe {
                CrawlAction::Emit
            } else {
                CrawlAction::Descend
            }
        },
        Platform::Linux => {
            let is_desktop = match crate::files::path_extension(path) {
                Some(e) => crate::text::str_eq(e.as_str(), "desktop"),
                None => false,
            };
            if is_desktop {
                CrawlAction::Emit
            } else {
                CrawlAction::Descend
            }
        },
        Platform::Other => CrawlAction::Descend,
    }
}

/// Whether the policy emits this entry.
pub open spec fn entry_emitted(p: Platform, e: CrawlEntry) -> bool {
    crawl_decision_spec(p, e.path@, e.meta.is_dir, e.is_symlink) == CrawlAction::Emit
        || crawl_decision_spec(p, e.path@, e.meta.is_dir, e.is_symlink) == CrawlAction::EmitAndPrune
}

/// The entries the policy emits, in discovery order.
pub open spec fn emitted_seq(p: Platform, entries: Seq<CrawlEntry>) -> Seq<CrawlEntry>
    decreases entries.len(),
{
    if entries.len() == 0 {
        Seq::empty()
    } else {
        emitted_seq(p, entries.drop_last()) + if entry_emitted(p, entries.last()) {
            seq![entries.last()]
        } else {
            Seq::empty()
        }
    }
}

/// Emission distributes over concatenation of walks.
proof fn lemma_emitted_distributes(p: Platform, a: Seq<CrawlEntry>, b: Seq<CrawlEntry>)
    ensures
        emitted_seq(p, a + b) =~= emitted_seq(p, a) + emitted_seq(p, b),
    decreases b.len(),
{
    if b.len() == 0 {
        assert(a + b =~= a);
        assert(emitted_seq(p, b) =~= Seq::<CrawlEntry>::empty());
    } else {
        lemma_emitted_distributes(p, a, b.drop_last());
        assert((a + b).drop_last() =~= a + b.drop_last());
        assert((a + b).last() == b.last());
    }
}

/// Collects the crawl: keeps the entries the policy emits, classifies each
/// into a `FileInfo`, and stops at `limit` results. Hitting the cap is a
/// normal completion, not an error; the cap is never exceeded however many
/// entries the walk discovered.
#[verifier::rlimit(100)]
pub fn collect_crawl(p: Platform, entries: &Vec<CrawlEntry>, limit: usize) -> (r: Vec<FileInfo>)
    ensures
        r@.len() <= limit,
        r@.len() == if emitted_seq(p, entries@).len() > limit {
            limit as int
        } else {
            emitted_seq(p, entries@).len() as int
        },
        forall|j: int|
            0 <= j < r@.len() ==> (#[trigger] r@[j]).wf_for(
                emitted_seq(p, entries@)[j].path@,
                emitted_seq(p, entries@)[j].meta,
            ),
{
    let mut out: Vec<FileInfo> = Vec::new();
    let n = entries.len();
    let mut i: usize = 0;
    while i < n && out.len() < limit
        invariant
            n == entries@.len(),
            0 <= i <= n,
            out@.len() <= limit,
            out@.len() <= emitted_seq(p, entries@.take(i as int)).len(),
            out@.len() < limit ==> out@.len() == emitted_seq(p, entries@.take(i as int)).len(),
            forall|j: int|
                0 <= j < out@.len() ==> (#[trigger] out@[j]).wf_for(
                    emitted_seq(p, entries@.take(i as int))[j].path@,
                    emitted_seq(p, entries@.take(i as int))[j].meta,
                ),
        ensures
            0 <= i <= n,
            out@.len() <= limit,
            out@.len() <= emitted_seq(p, entries@.take(i as int)).len(),
            out@.len() < limit ==> i == n && out@.len() == emitted_seq(
                p,
                entries@.take(i as int),
            ).len(),
            forall|j: int|
                0 <= j < out@.len() ==> (#[trigger] out@[j]).wf_for(
                    emitted_seq(p, entries@.take(i as int))[j].path@,
                    emitted_seq(p, entries@.take(i as int))[j].meta,
                ),
        decreases n - i,
    {
        let e = &entries[i];
        let action = crawl_decision(p, e.path.as_str(), e.meta.is_dir, e.is_symlink);
        proof {
            assert(entries@.take(i + 1).drop_last() =~= entries@.take(i as int));
            assert(entries@.take(i + 1).last() == entries@[i as int]);
        }
        let emit = match action {
            CrawlAction::Emit => true,
            CrawlAction::EmitAndPrune => true,
            _ => false,
        };
        if emit {
            match FileInfo::from_string(e.path.clone(), Some(e.meta)) {
                Some(info) => {
                    out.push(info);
                },
                None => {
                    proof {
                        assert(false);
                    }
                },
            }
        }
        i = i + 1;
    }
    proof {
        let em_all = emitted_seq(p, entries@);
        if i < n {
            assert(out@.len() == limit);
        }
        lemma_emitted_distributes(p, entries@.take(i as int), entries@.skip(i as int));
        assert(entries@.take(i as int) + entries@.skip(i as int) =~= entries@);
        assert(em_all =~= emitted_seq(p, entries@.take(i as int)) + emitted_seq(
            p,
            entries@.skip(i as int),
        ));
        assert(forall|j: int|
            0 <= j < emitted_seq(p, entries@.take(i as int)).len() ==> em_all[j] == emitted_seq(
                p,
                entries@.take(i as int),
            )[j]);
    }
    out
}

} // verus!
