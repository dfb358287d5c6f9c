//! The browser-history data source: rows extracted from each browser's
//! snapshot are normalized, scored and collated into one deduplicated,
//! queryable store keyed by normalized URL. Reading the vendor databases is
//! the caller's work; this source is handed the raw rows per browser.
use vstd::prelude::*;
use crate::browser::Browser;
use crate::frecency::{calculate_frecency, frecency_spec};
use crate::rank::{
    lemma_sorted_scored_wf, scored_seq, sort_ranked, sort_scored, Scored, RESULT_CAP,
};
use crate::text::{contains_seq, contains_sub};
use crate::types::Query;
use crate::urlnorm::{check_local_url, is_local_url, normal_of, normalize_url};

verus! {

/// Entries older than this many seconds are outside the query window.
pub const SIX_MONTHS_SECONDS: i64 = 15552000;

/// The store hands back at most this many entries per read.
pub const HISTORY_READ_LIMIT: usize = 1000;

/// What can go wrong around a collation pass. The pass itself never fails
/// inside the library; these name the failures of the storage and
/// coordination work at its edges, which the caller reports with them.
#[derive(Clone, Copy, Debug, PartialEq, Eq, Structural)]
pub enum BrowserHistoryCollationError {
    UnableToConnectToCollatedDB,
    UnableToQueryCollatedDB,
    UnableToSerializeCollatedDB,
    UnableToLocateDataDir,
    UnableToExtractCombinedHistoryMutex,
}

impl BrowserHistoryCollationError {
    /// A short description of the error.
    pub fn message(&self) -> (r: &'static str)
        ensures
            r@ == match *self {
                BrowserHistoryCollationError::UnableToConnectToCollatedDB => "unable to establish a connection to combined history database"@,
                BrowserHistoryCollationError::UnableToQueryCollatedDB => "unable to query combined history database"@,
                BrowserHistoryCollationError::UnableToSerializeCollatedDB => "unable to map combined history database into runtime data (serialization error)"@,
                BrowserHistoryCollationError::UnableToLocateDataDir => "unable to locate user data dir, stopping collation"@,
                BrowserHistoryCollationError::UnableToExtractCombinedHistoryMutex => "unable to extract combined history data from mutex"@,
            },
    {
        match self {
            BrowserHistoryCollationError::UnableToConnectToCollatedDB => "unable to establish a connection to combined history database",
            BrowserHistoryCollationError::UnableToQueryCollatedDB => "unable to query combined history database",
            BrowserHistoryCollationError::UnableToSerializeCollatedDB => "unable to map combined history database into runtime data (serialization error)",
            BrowserHistoryCollationError::UnableToLocateDataDir => "unable to locate user data dir, stopping collation",
            BrowserHistoryCollationError::UnableToExtractCombinedHistoryMutex => "unable to extract combined history data from mutex",
        }
    }
}

/// One collated history entry; `url` is normalized and keys the store.
#[derive(Debug)]
pub struct HistoryEntry {
    pub browser: Browser,
    pub url: String,
    pub title: String,
    pub visit_count: i64,
    pub last_visit_time: i64,
    pub frecency_score: u64,
}

/// The mathematical value of a history entry.
pub ghost struct HistoryEntryView {
    pub browser: Browser,
    pub url: Seq<char>,
    pub title: Seq<char>,
    pub visit_count: int,
    pub last_visit_time: int,
    pub frecency_score: int,
}

impl View for HistoryEntry {
    type V = HistoryEntryView;

    open spec fn view(&self) -> HistoryEntryView {
        HistoryEntryView {
            browser: self.browser,
            url: self.url@,
            title: self.title@,
            visit_count: self.visit_count as int,
            last_visit_time: self.last_visit_time as int,
            frecency_score: self.frecency_score as int,
        }
    }
}

impl Clone for HistoryEntry {
    /// An exact copy; cloning keeps every field.
    fn clone(&self) -> (r: Self)
        ensures
            r == *self,
    {
        HistoryEntry {
            browser: self.browser,
            url: self.url.clone(),
            title: self.title.clone(),
            visit_count: self.visit_count,
            last_visit_time: self.last_visit_time,
            frecency_score: self.frecency_score,
        }
    }
}

/// One raw row out of a vendor database: url and title as stored, the
/// visit count, and the last visit time already converted to unix seconds
/// (each schema's extraction query embeds its epoch conversion).
#[derive(Clone, Debug)]
pub struct HistoryRow {
    pub url: String,
    pub title: String,
    pub visit_count: i64,
    pub last_visit_time: i64,
}

/// The mathematical value of a raw row.
pub ghost struct HistoryRowView {
    pub url: Seq<char>,
    pub title: Seq<char>,
    pub visit_count: int,
    pub last_visit_time: int,
}

impl View for HistoryRow {
    type V = HistoryRowView;

    open spec fn view(&self) -> HistoryRowView {
        HistoryRowView {
            url: self.url@,
            title: self.title@,
            visit_count: self.visit_count as int,
            last_visit_time: self.last_visit_time as int,
        }
    }
}

/// What one browser contributed to a collation pass: its rows, or nothing
/// when its database could not be read (locked, missing, malformed). A
/// failed browser never aborts the pass; it contributes zero entries.
#[derive(Clone, Debug)]
pub struct BrowserFetch {
    pub browser: Browser,
    pub rows: Option<Vec<HistoryRow>>,
}

/// The mathematical value of one browser's contribution.
pub ghost struct BrowserFetchView {
    pub browser: Browser,
    pub rows: Option<Seq<HistoryRowView>>,
}

impl View for BrowserFetch {
    type V = BrowserFetchView;

    open spec fn view(&self) -> BrowserFetchView {
        BrowserFetchView {
            browser: self.browser,
            rows: match self.rows {
                Some(v) => Some(v@.map_values(|r: HistoryRow| r@)),
                None => None,
            },
        }
    }
}

/// A raw row survives collation when its normalized URL does not target
/// the local machine and its frecency score is positive.
pub open spec fn row_kept(row: HistoryRowView, now: int) -> bool {
    &&& !is_local_url(normal_of(row.url))
    &&& frecency_spec(now, row.last_visit_time, row.visit_count) > 0
}

/// The collated entry a surviving raw row becomes: URL normalized,
/// frecency computed at `now`, the rest carried over.
pub open spec fn entry_of_row(b: Browser, row: HistoryRowView, now: int) -> HistoryEntryView {
    HistoryEntryView {
        browser: b,
        url: normal_of(row.url),
        title: row.title,
        visit_count: row.visit_count,
        last_visit_time: row.last_visit_time,
        frecency_score: frecency_spec(now, row.last_visit_time, row.visit_count),
    }
}

/// The entries one browser's rows contribute: each surviving row's entry,
/// in row order.
pub open spec fn entries_of_rows(b: Browser, rows: Seq<HistoryRowView>, now: int) -> Seq<
    HistoryEntryView,
>
    decreases rows.len(),
{
    if rows.len() == 0 {
        Seq::empty()
    } else {
        entries_of_rows(b, rows.drop_last(), now) + if row_kept(rows.last(), now) {
            seq![entry_of_row(b, rows.last(), now)]
        } else {
            Seq::empty()
        }
    }
}

/// Everything a collation pass gathers before deduplication: each
/// browser's surviving entries in order, an unreadable browser
/// contributing nothing.
pub open spec fn collated_entries(fetches: Seq<BrowserFetchView>, now: int) -> Seq<
    HistoryEntryView,
>
    decreases fetches.len(),
{
    if fetches.len() == 0 {
        Seq::empty()
    } else {
        collated_entries(fetches.drop_last(), now) + match fetches.last().rows {
            Some(rows) => entries_of_rows(fetches.last().browser, rows, now),
            None => Seq::empty(),
        }
    }
}

/// Deduplication by URL, last write wins: an entry stays only if no later
/// entry carries the same URL; survivors keep their relative order.
pub open spec fn dedup_last(s: Seq<HistoryEntryView>) -> Seq<HistoryEntryView>
    decreases s.len(),
{
    if s.len() == 0 {
        Seq::empty()
    } else if exists|j: int| 1 <= j < s.len() && #[trigger] s[j].url == s[0].url {
        dedup_last(s.drop_first())
    } else {
        seq![s[0]] + dedup_last(s.drop_first())
    }
}

/// Builds the collated entry for one raw row, or discards it: rows whose
/// normalized URL targets the local machine and rows scoring zero drop out.
pub fn build_entry(b: Browser, row: &HistoryRow, now: i64) -> (r: Option<HistoryEntry>)
    ensures
        row_kept(row@, now as int) ==> (r matches Some(e) && e@ == entry_of_row(
            b,
            row@,
            now as int,
        )),
        !row_kept(row@, now as int) ==> r is None,
{
    let url = normalize_url(row.url.as_str());
    let score = calculate_frecency(now, row.last_visit_time, row.visit_count);
    if check_local_url(url.as_str()) || score == 0 {
        None
    } else {
        Some(
            HistoryEntry {
                browser: b,
                url,
                title: row.title.clone(),
                visit_count: row.visit_count,
                last_visit_time: row.last_visit_time,
                frecency_score: score,
            },
        )
    }
}

/// The entries one browser's rows contribute, in row order.
fn entries_from_rows(b: Browser, rows: &Vec<HistoryRow>, now: i64) -> (r: Vec<HistoryEntry>)
    ensures
        r@.map_values(|e: HistoryEntry| e@) == entries_of_rows(
            b,
            rows@.map_values(|x: HistoryRow| x@),
            now as int,
        ),
{
    let ghost rviews = rows@.map_values(|x: HistoryRow| x@);
    let mut out: Vec<HistoryEntry> = Vec::new();
    let n = rows.len();
    let mut i: usize = 0;
    while i < n
        invariant
            n == rows@.len(),
            rviews == rows@.map_values(|x: HistoryRow| x@),
            0 <= i <= n,
            out@.map_values(|e: HistoryEntry| e@) =~= entries_of_rows(
                b,
                rviews.take(i as int),
                now as int,
            ),
        decreases n - i,
    {
        proof {
            assert(rviews[i as int] == rows@[i as int]@);
            assert(rviews.take(i + 1).drop_last() =~= rviews.take(i as int));
            assert(rviews.take(i + 1).last() == rviews[i as int]);
        }
        match build_entry(b, &rows[i], now) {
            Some(e) => {
                out.push(e);
            },
            None => {},
        }
        proof {
            assert(out@.map_values(|e: HistoryEntry| e@) =~= entries_of_rows(
                b,
                rviews.take(i + 1),
                now as int,
            ));
        }
        i = i + 1;
    }
    proof {
        assert(rviews.take(n as int) =~= rviews);
    }
    out
}

/// Merges every browser's contribution into one entry list, in browser
/// order; an unreadable browser contributes nothing and aborts nothing.
pub fn collate_history(fetches: &Vec<BrowserFetch>, now: i64) -> (r: Vec<HistoryEntry>)
    ensures
        r@.map_values(|e: HistoryEntry| e@) == collated_entries(
            fetches@.map_values(|f: BrowserFetch| f@),
            now as int,
        ),
{
    let ghost fviews = fetches@.map_values(|f: BrowserFetch| f@);
    let mut out: Vec<HistoryEntry> = Vec::new();
    let n = fetches.len();
    let mut i: usize = 0;
    while i < n
        invariant
            n == fetches@.len(),
            fviews == fetches@.map_values(|f: BrowserFetch| f@),
            0 <= i <= n,
            out@.map_values(|e: HistoryEntry| e@) =~= collated_entries(
                fviews.take(i as int),
                now as int,
            ),
        decreases n - i,
    {
        let ghost out0 = out@;
        match &fetches[i].rows {
            Some(rows) => {
                let mut part = entries_from_rows(fetches[i].browser, rows, now);
                out.append(&mut part);
            },
            None => {},
        }
        proof {
            assert(fviews.take(i + 1).drop_last() =~= fviews.take(i as int));
            assert(fviews.take(i + 1).last() == fviews[i as int]);
            assert(fviews[i as int] == fetches@[i as int]@);
            assert(out@.map_values(|e: HistoryEntry| e@) =~= collated_entries(
                fviews.take(i + 1),
                now as int,
            ));
        }
        i = i + 1;
    }
    proof {
        assert(fviews.take(n as int) =~= fviews);
    }
    out
}

/// Returns whether a later entry carries the same URL as the one at `i`.
fn has_later_same_url(entries: &Vec<HistoryEntry>, i: usize) -> (r: bool)
    requires
        i < entries@.len(),
    ensures
        r == exists|j: int|
            i < j < entries@.len() && #[trigger] entries@[j].url@ == entries@[i as int].url@,
{
    let n = entries.len();
    let mut j: usize = i + 1;
    while j < n
        invariant
            n == entries@.len(),
            i < j <= n,
            forall|k: int| i < k < j ==> #[trigger] entries@[k].url@ != entries@[i as int].url@,
        decreases n - j,
    {
        if crate::text::str_eq(entries[j].url.as_str(), entries[i].url.as_str()) {
            return true;
        }
        j = j + 1;
    }
    false
}

/// Deduplicates collated entries by URL, last write wins: of several
/// entries with one normalized URL only the last survives, and survivors
/// keep their order.
pub fn dedup_history(entries: Vec<HistoryEntry>) -> (r: Vec<HistoryEntry>)
    ensures
        r@.map_values(|e: HistoryEntry| e@) == dedup_last(
            entries@.map_values(|e: HistoryEntry| e@),
        ),
{
    let ghost views = entries@.map_values(|e: HistoryEntry| e@);
    let mut out: Vec<HistoryEntry> = Vec::new();
    let n = entries.len();
    proof {
        assert(views.skip(0) =~= views);
        assert(out@.map_values(|e: HistoryEntry| e@) =~= Seq::<HistoryEntryView>::empty());
        assert(Seq::<HistoryEntryView>::empty() + dedup_last(views) =~= dedup_last(views));
    }
    let mut i: usize = 0;
    while i < n
        invariant
            n == entries@.len(),
            views == entries@.map_values(|e: HistoryEntry| e@),
            0 <= i <= n,
            out@.map_values(|e: HistoryEntry| e@) + dedup_last(views.skip(i as int)) =~= dedup_last(
                views,
            ),
        decreases n - i,
    {
        let ghost sk = views.skip(i as int);
        proof {
            assert(sk.len() == n - i);
            assert(forall|j: int| 0 <= j < sk.len() ==> sk[j] == views[i + j]);
            assert(sk.drop_first() =~= views.skip(i + 1));
            assert(sk[0] == views[i as int]);
            assert(views[i as int] == entries@[i as int]@);
        }
        if has_later_same_url(&entries, i) {
            proof {
                let w = choose|j: int|
                    i < j < entries@.len() && #[trigger] entries@[j].url@ == entries@[i as int].url@;
                assert(sk[w - i] == views[w]);
                assert(views[w].url == entries@[w].url@);
                assert(1 <= w - i < sk.len() && sk[w - i].url == sk[0].url);
                assert(dedup_last(sk) == dedup_last(sk.drop_first()));
            }
        } else {
            let c = entries[i].clone();
            out.push(c);
            proof {
                assert(forall|j: int|
                    1 <= j < sk.len() ==> #[trigger] sk[j].url != sk[0].url) by {
                    assert forall|j: int| 1 <= j < sk.len() implies #[trigger] sk[j].url
                        != sk[0].url by {
                        assert(sk[j] == views[i + j]);
                        assert(views[i + j].url == entries@[i + j].url@);
                    }
                }
                assert(dedup_last(sk) == seq![sk[0]] + dedup_last(sk.drop_first()));
                assert(out@.map_values(|e: HistoryEntry| e@) =~= out@.map_values(
                    |e: HistoryEntry| e@,
                ));
            }
        }
        proof {
            assert(out@.map_values(|e: HistoryEntry| e@) + dedup_last(views.skip(i + 1))
                =~= dedup_last(views));
        }
        i = i + 1;
    }
    proof {
        assert(views.skip(n as int) =~= Seq::<HistoryEntryView>::empty());
        assert(out@.map_values(|e: HistoryEntry| e@) =~= dedup_last(views));
    }
    out
}

/// Collation distributes over splitting the browser list.
proof fn lemma_collated_distributes(a: Seq<BrowserFetchView>, b: Seq<BrowserFetchView>, now: int)
    ensures
        collated_entries(a + b, now) =~= collated_entries(a, now) + collated_entries(b, now),
    decreases b.len(),
{
    if b.len() == 0 {
        assert(a + b =~= a);
        assert(collated_entries(b, now) =~= Seq::<HistoryEntryView>::empty());
    } else {
        lemma_collated_distributes(a, b.drop_last(), now);
        assert((a + b).drop_last() =~= a + b.drop_last());
        assert((a + b).last() == b.last());
    }
}

/// One unreadable browser is invisible to collation: a pass over browsers
/// where one contributed nothing gathers exactly what the others gather.
/// The readable browsers' entries appear either way.
pub proof fn lemma_failed_source_contributes_nothing(
    before: Seq<BrowserFetchView>,
    failed: BrowserFetchView,
    after: Seq<BrowserFetchView>,
    now: int,
)
    requires
        failed.rows is None,
    ensures
        collated_entries(before + seq![failed] + after, now) == collated_entries(
            before + after,
            now,
        ),
{
    lemma_collated_distributes(before + seq![failed], after, now);
    lemma_collated_distributes(before, seq![failed], now);
    lemma_collated_distributes(before, after, now);
    assert(collated_entries(seq![failed], now) =~= Seq::<HistoryEntryView>::empty()) by {
        assert(seq![failed].drop_last() =~= Seq::<BrowserFetchView>::empty());
        assert(collated_entries(Seq::<BrowserFetchView>::empty(), now) =~= Seq::<
            HistoryEntryView,
        >::empty());
        assert(seq![failed].last() == failed);
    }
    assert(collated_entries(before + seq![failed], now) =~= collated_entries(before, now));
}

/// Everything the deduplicated list holds came from the input.
pub proof fn lemma_dedup_membership(s: Seq<HistoryEntryView>)
    ensures
        forall|k: int| 0 <= k < dedup_last(s).len() ==> s.contains(#[trigger] dedup_last(s)[k]),
    decreases s.len(),
{
    if s.len() > 0 {
        lemma_dedup_membership(s.drop_first());
        assert forall|k: int|
            0 <= k < dedup_last(s).len() implies s.contains(#[trigger] dedup_last(s)[k]) by {
            if exists|j: int| 1 <= j < s.len() && #[trigger] s[j].url == s[0].url {
                assert(dedup_last(s)[k] == dedup_last(s.drop_first())[k]);
                assert(s.drop_first().contains(dedup_last(s)[k]));
                let w = choose|w: int|
                    0 <= w < s.drop_first().len() && s.drop_first()[w] == dedup_last(s)[k];
                assert(s[w + 1] == dedup_last(s)[k]);
            } else {
                if k == 0 {
                    assert(dedup_last(s)[0] == s[0]);
                } else {
                    assert(dedup_last(s)[k] == dedup_last(s.drop_first())[k - 1]);
                    assert(s.drop_first().contains(dedup_last(s)[k]));
                    let w = choose|w: int|
                        0 <= w < s.drop_first().len() && s.drop_first()[w] == dedup_last(s)[k];
                    assert(s[w + 1] == dedup_last(s)[k]);
                }
            }
        }
    }
}

/// After deduplication every URL appears at most once: the collated store
/// is keyed by normalized URL.
pub proof fn lemma_dedup_unique_urls(s: Seq<HistoryEntryView>)
    ensures
        forall|k1: int, k2: int|
            0 <= k1 < k2 < dedup_last(s).len() ==> (#[trigger] dedup_last(s)[k1]).url != (
            #[trigger] dedup_last(s)[k2]).url,
    decreases s.len(),
{
    if s.len() > 0 {
        lemma_dedup_unique_urls(s.drop_first());
        if exists|j: int| 1 <= j < s.len() && #[trigger] s[j].url == s[0].url {
        } else {
            lemma_dedup_membership(s.drop_first());
            assert forall|k1: int, k2: int|
                0 <= k1 < k2 < dedup_last(s).len() implies (#[trigger] dedup_last(s)[k1]).url != (
            #[trigger] dedup_last(s)[k2]).url by {
                if k1 == 0 {
                    assert(dedup_last(s)[0] == s[0]);
                    assert(dedup_last(s)[k2] == dedup_last(s.drop_first())[k2 - 1]);
                    assert(s.drop_first().contains(dedup_last(s)[k2]));
                    let w = choose|w: int|
                        0 <= w < s.drop_first().len() && s.drop_first()[w] == dedup_last(s)[k2];
                    assert(s[w + 1] == dedup_last(s)[k2]);
                    assert(s[w + 1].url != s[0].url);
                } else {
                    assert(dedup_last(s)[k1] == dedup_last(s.drop_first())[k1 - 1]);
                    assert(dedup_last(s)[k2] == dedup_last(s.drop_first())[k2 - 1]);
                }
            }
        }
    }
}

/// Last write wins: an entry no later entry shares a URL with survives
/// deduplication. Of several entries carrying one URL, that is exactly the
/// last-written one.
pub proof fn lemma_dedup_keeps_last(s: Seq<HistoryEntryView>, i: int)
    requires
        0 <= i < s.len(),
        forall|j: int| i < j < s.len() ==> (#[trigger] s[j]).url != s[i].url,
    ensures
        dedup_last(s).contains(s[i]),
    decreases s.len(),
{
    if i == 0 {
        assert(forall|j: int| 1 <= j < s.len() ==> (#[trigger] s[j]).url != s[0].url);
        assert(dedup_last(s) == seq![s[0]] + dedup_last(s.drop_first()));
        assert(dedup_last(s)[0] == s[0]);
    } else {
        assert(forall|j: int|
            i - 1 < j < s.drop_first().len() ==> (#[trigger] s.drop_first()[j]).url != s
                .drop_first()[i - 1].url) by {
            assert(forall|j: int|
                i - 1 < j < s.drop_first().len() ==> #[trigger] s.drop_first()[j] == s[j + 1]);
        }
        lemma_dedup_keeps_last(s.drop_first(), i - 1);
        assert(s.drop_first()[i - 1] == s[i]);
        let w = choose|w: int|
            0 <= w < dedup_last(s.drop_first()).len() && dedup_last(s.drop_first())[w] == s[i];
        if exists|j: int| 1 <= j < s.len() && #[trigger] s[j].url == s[0].url {
            assert(dedup_last(s) == dedup_last(s.drop_first()));
        } else {
            assert(dedup_last(s) == seq![s[0]] + dedup_last(s.drop_first()));
            assert(dedup_last(s)[w + 1] == s[i]);
        }
    }
}

/// An entry is inside the query window when its last visit is recent.
pub open spec fn in_window(e: HistoryEntryView, now: int) -> bool {
    e.last_visit_time >= now - SIX_MONTHS_SECONDS
}

/// An entry matches the search text when its title or URL contains it.
pub open spec fn entry_matches(e: HistoryEntryView, pattern: Seq<char>) -> bool {
    contains_seq(e.title, pattern) || contains_seq(e.url, pattern)
}

/// The ranked result of a history read over `entries`: every entry in the
/// window, highest frecency first (ties in store order), capped at `limit`.
pub open spec fn ranked_window(
    entries: Seq<HistoryEntry>,
    keep: spec_fn(HistoryEntry) -> bool,
    limit: int,
) -> Seq<HistoryEntry> {
    let sorted = sort_ranked(scored_seq(entries, keep, |e: HistoryEntry| e@.frecency_score));
    let capped = if sorted.len() > limit {
        sorted.take(limit)
    } else {
        sorted
    };
    capped.map_values(|sc: Scored| entries[sc.pos as int])
}

/// History results come back ranked: frecency never increases along the
/// list a read or query hands out, however the store was filled.
pub proof fn lemma_ranked_window_sorted(
    entries: Seq<HistoryEntry>,
    keep: spec_fn(HistoryEntry) -> bool,
    limit: int,
)
    requires
        entries.len() <= usize::MAX,
        0 <= limit,
    ensures
        forall|i: int, j: int|
            0 <= i < j < ranked_window(entries, keep, limit).len() ==> (#[trigger] ranked_window(
                entries,
                keep,
                limit,
            )[j])@.frecency_score <= (#[trigger] ranked_window(entries, keep, limit)[i])@.frecency_score,
{
    let key = |e: HistoryEntry| e@.frecency_score;
    let sorted = sort_ranked(scored_seq(entries, keep, key));
    let capped = if sorted.len() > limit {
        sorted.take(limit)
    } else {
        sorted
    };
    crate::rank::lemma_sort_ranked_sorted(scored_seq(entries, keep, key));
    lemma_sorted_scored_wf(entries, keep, key);
    assert forall|i: int, j: int|
        0 <= i < j < ranked_window(entries, keep, limit).len() implies (#[trigger] ranked_window(
        entries,
        keep,
        limit,
    )[j])@.frecency_score <= (#[trigger] ranked_window(entries, keep, limit)[i])@.frecency_score by {
        assert(ranked_window(entries, keep, limit).len() == capped.len());
        assert(0 <= i < j < capped.len());
        assert(capped.len() <= sorted.len());
        assert(capped[i] == sorted[i]);
        assert(capped[j] == sorted[j]);
        assert(!crate::rank::ranks_before(sorted[j], sorted[i]));
        assert(sorted[i].score == key(entries[sorted[i].pos as int]) as i128);
        assert(sorted[j].score == key(entries[sorted[j].pos as int]) as i128);
        assert(ranked_window(entries, keep, limit)[i] == entries[sorted[i].pos as int]);
        assert(ranked_window(entries, keep, limit)[j] == entries[sorted[j].pos as int]);
    }
}

/// Returns whether the entry's last visit lies inside the query window.
fn in_window_exec(e: &HistoryEntry, now: i64) -> (r: bool)
    ensures
        r == in_window(e@, now as int),
{
    (e.last_visit_time as i128) >= (now as i128) - (SIX_MONTHS_SECONDS as i128)
}

/// The collated, deduplicated browser-history store the engine queries.
pub struct BrowserHistoryDataSource {
    pub name: String,
    pub entries: Vec<HistoryEntry>,
}

impl BrowserHistoryDataSource {
    /// An empty store under the given dataset name; a collation pass fills
    /// it before the first query.
    pub fn new(name: &str) -> (r: Self)
        ensures
            r.name@ == name@,
            r.entries@.len() == 0,
    {
        BrowserHistoryDataSource { name: String::from_str(name), entries: Vec::new() }
    }

    /// One collation pass: every browser's surviving rows merge in order
    /// and deduplicate by URL (last write wins), and the result replaces
    /// the store wholesale. Nothing of the previous pass survives.
    pub fn update_cache(&mut self, fetches: &Vec<BrowserFetch>, now: i64)
        ensures
            final(self).name == old(self).name,
            final(self).entries@.map_values(|e: HistoryEntry| e@) == dedup_last(
                collated_entries(fetches@.map_values(|f: BrowserFetch| f@), now as int),
            ),
    {
        let collated = collate_history(fetches, now);
        self.entries = dedup_history(collated);
    }

    /// The stored entries inside the query window, highest frecency first,
    /// capped at the read limit.
    pub fn read(&self, now: i64) -> (r: Option<Vec<HistoryEntry>>)
        ensures
            r matches Some(v) && v@ == ranked_window(
                self.entries@,
                |e: HistoryEntry| in_window(e@, now as int),
                HISTORY_READ_LIMIT as int,
            ),
    {
        let keep_entry = |e: &HistoryEntry| -> (k: bool)
            ensures
                k == in_window(e@, now as int),
            { in_window_exec(e, now) };
        Some(self.rank_entries(keep_entry, Ghost(|e: HistoryEntry| in_window(e@, now as int)), HISTORY_READ_LIMIT))
    }

    /// Answers a history query: entries inside the window whose title or
    /// URL contains the search text, ranked by frecency descending (ties
    /// in store order), capped at the result cap.
    pub fn query(&self, query: &Query, now: i64) -> (r: Option<Vec<HistoryEntry>>)
        ensures
            r matches Some(v) && v@ == ranked_window(
                self.entries@,
                |e: HistoryEntry| in_window(e@, now as int) && entry_matches(
                    e@,
                    query.search_string@,
                ),
                RESULT_CAP as int,
            ),
    {
        let keep_entry = |e: &HistoryEntry| -> (k: bool)
            ensures
                k == (in_window(e@, now as int) && entry_matches(e@, query.search_string@)),
            {
                in_window_exec(e, now) && (contains_sub(
                    e.title.as_str(),
                    query.search_string.as_str(),
                ) || contains_sub(e.url.as_str(), query.search_string.as_str()))
            };
        Some(
            self.rank_entries(
                keep_entry,
                Ghost(
                    |e: HistoryEntry| in_window(e@, now as int) && entry_matches(
                        e@,
                        query.search_string@,
                    ),
                ),
                RESULT_CAP,
            ),
        )
    }

    /// Ranks the kept entries by frecency descending, ties in store order,
    /// capped at `limit`.
    fn rank_entries<F: Fn(&HistoryEntry) -> bool>(
        &self,
        keep_exec: F,
        keep: Ghost<spec_fn(HistoryEntry) -> bool>,
        limit: usize,
    ) -> (r: Vec<HistoryEntry>)
        requires
            forall|e: &HistoryEntry| keep_exec.requires((e,)),
            forall|e: &HistoryEntry, k: bool|
                keep_exec.ensures((e,), k) ==> k == (keep@)(*e),
        ensures
            r@ == ranked_window(self.entries@, keep@, limit as int),
    {
        let ghost entries = self.entries@;
        let ghost key = |e: HistoryEntry| e@.frecency_score;
        let mut scored: Vec<Scored> = Vec::new();
        let n = self.entries.len();
        let mut i: usize = 0;
        while i < n
            invariant
                n == self.entries@.len(),
                entries == self.entries@,
                key == (|e: HistoryEntry| e@.frecency_score),
                forall|e: &HistoryEntry| keep_exec.requires((e,)),
                forall|e: &HistoryEntry, k: bool|
                    keep_exec.ensures((e,), k) ==> k == (keep@)(*e),
                0 <= i <= n,
                scored@ == scored_seq(entries.take(i as int), keep@, key),
            decreases n - i,
        {
            let kept = keep_exec(&self.entries[i]);
            proof {
                assert(entries.take(i + 1).drop_last() =~= entries.take(i as int));
                assert(entries.take(i + 1).last() == entries[i as int]);
            }
            if kept {
                let score = self.entries[i].frecency_score;
                scored.push(Scored { score: score as i128, pos: i });
            }
            proof {
                assert(scored@ =~= scored_seq(entries.take(i + 1), keep@, key));
            }
            i = i + 1;
        }
        proof {
            assert(entries.take(n as int) =~= entries);
        }
        let sorted = sort_scored(&scored);
        proof {
            lemma_sorted_scored_wf(entries, keep@, key);
        }
        let m = sorted.len();
        let cap = if m > limit {
            limit
        } else {
            m
        };
        let mut out: Vec<HistoryEntry> = Vec::new();
        let mut k: usize = 0;
        while k < cap
            invariant
                m == sorted@.len(),
                cap == if m > limit {
                    limit as int
                } else {
                    m as int
                },
                sorted@ == sort_ranked(scored_seq(entries, keep@, key)),
                entries == self.entries@,
                forall|j: int|
                    0 <= j < sorted@.len() ==> 0 <= #[trigger] sorted@[j].pos < entries.len(),
                0 <= k <= cap,
                out@.len() == k,
                forall|j: int| 0 <= j < k ==> #[trigger] out@[j] == entries[sorted@[j].pos as int],
            decreases cap - k,
        {
            let pos = sorted[k].pos;
            let c = self.entries[pos].clone();
            out.push(c);
            k = k + 1;
        }
        proof {
            let sorted_full = sort_ranked(scored_seq(entries, keep@, key));
            let capped = if sorted_full.len() > limit as int {
                sorted_full.take(limit as int)
            } else {
                sorted_full
            };
            assert(out@ =~= capped.map_values(|sc: Scored| entries[sc.pos as int]));
        }
        out
    }
}

} // verus!
