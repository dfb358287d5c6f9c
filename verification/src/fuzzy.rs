//! File search: fuzzy scoring of indexed paths against the search text,
//! with a fixed bonus for application bundles, and the file-backed data
//! source the engine queries.
use vstd::prelude::*;
use crate::files::{extension_of_path, file_name_of, file_name_seq, path_extension};
use crate::rank::{
    lemma_sorted_scored_wf, scored_seq, sort_ranked, sort_scored, Scored, RESULT_CAP,
};
use crate::text::str_eq;
use crate::types::Query;
use fuzzy_matcher::FuzzyMatcher;

verus! {

/// Fixed bonus added to a matching application bundle's score, biasing the
/// ranking toward launchable applications.
pub const APP_BONUS: i64 = 10;

/// The fuzzy-match score of `choice` against `pattern`, or nothing when the
/// pattern does not match; a pure function of the two strings.
pub uninterp spec fn fuzzy_score_of(choice: Seq<char>, pattern: Seq<char>) -> Option<int>;

/// Relies on fuzzy_matcher's `SkimMatcherV2::fuzzy_match` in its default
/// (smart-case) configuration: the score depends on the choice and pattern
/// strings alone, and an empty pattern always matches with score zero.
#[verifier::external_body]
fn fuzzy_match_score(choice: &str, pattern: &str) -> (r: Option<i64>)
    ensures
        r matches Some(v) ==> fuzzy_score_of(choice@, pattern@) == Some(v as int),
        r is None <==> fuzzy_score_of(choice@, pattern@) is None,
        pattern@.len() == 0 ==> r == Some(0i64),
{
    fuzzy_matcher::skim::SkimMatcherV2::default().fuzzy_match(choice, pattern)
}

/// A missing score counts as zero.
pub open spec fn opt_score(o: Option<int>) -> int {
    match o {
        Some(v) => v,
        None => 0,
    }
}

/// The score of one indexed path against the search text: the fuzzy scores
/// of the whole path and of its file name add up, and a positive score on
/// an application bundle earns the application bonus.
pub open spec fn path_score(path: Seq<char>, pattern: Seq<char>) -> int {
    let base = opt_score(fuzzy_score_of(path, pattern)) + opt_score(
        fuzzy_score_of(file_name_seq(path), pattern),
    );
    if extension_of_path(path) == Some("app"@) && base > 0 {
        base + APP_BONUS
    } else {
        base
    }
}

/// Scores one indexed path against the search text.
pub fn score_path(path: &str, pattern: &str) -> (r: i128)
    ensures
        r == path_score(path@, pattern@),
{
    let whole = fuzzy_match_score(path, pattern);
    let name = file_name_of(path);
    let name_score = fuzzy_match_score(name.as_str(), pattern);
    let a: i128 = match whole {
        Some(v) => v as i128,
        None => 0,
    };
    let b: i128 = match name_score {
        Some(v) => v as i128,
        None => 0,
    };
    let base = a + b;
    let is_app = match path_extension(path) {
        Some(e) => str_eq(e.as_str(), "app"),
        None => false,
    };
    if is_app && base > 0 {
        base + (APP_BONUS as i128)
    } else {
        base
    }
}

/// Whether `path` survives file scoring against `pattern`.
pub open spec fn path_kept(path: Seq<char>, pattern: Seq<char>) -> bool {
    path_score(path, pattern) > 0
}

/// The ranked file-search result for `directories` under `pattern`: every
/// path with a positive score, highest score first, ties in discovery
/// order, as paths again.
pub open spec fn ranked_paths(directories: Seq<Seq<char>>, pattern: Seq<char>) -> Seq<Seq<char>> {
    sort_ranked(
        scored_seq(
            directories,
            |d: Seq<char>| path_kept(d, pattern),
            |d: Seq<char>| path_score(d, pattern),
        ),
    ).map_values(|sc: Scored| directories[sc.pos as int])
}

/// Scores every indexed path against the query, discards the non-positive,
/// and ranks the rest by score descending (ties keep discovery order).
pub fn score_files(query: &Query, directories: Vec<String>) -> (r: Option<Vec<String>>)
    ensures
        r matches Some(v) && v@.map_values(|s: String| s@) == ranked_paths(
            directories@.map_values(|s: String| s@),
            query.search_string@,
        ),
{
    let ghost dirs = directories@.map_values(|s: String| s@);
    let ghost pattern = query.search_string@;
    let ghost keep = |d: Seq<char>| path_kept(d, pattern);
    let ghost key = |d: Seq<char>| path_score(d, pattern);
    let mut scored: Vec<Scored> = Vec::new();
    let n = directories.len();
    let mut i: usize = 0;
    while i < n
        invariant
            n == directories@.len(),
            dirs == directories@.map_values(|s: String| s@),
            pattern == query.search_string@,
            keep == (|d: Seq<char>| path_kept(d, pattern)),
            key == (|d: Seq<char>| path_score(d, pattern)),
            0 <= i <= n,
            scored@ == scored_seq(dirs.take(i as int), keep, key),
        decreases n - i,
    {
        let s = score_path(directories[i].as_str(), query.search_string.as_str());
        proof {
            assert(dirs.take(i + 1).drop_last() =~= dirs.take(i as int));
            assert(dirs.take(i + 1).last() == dirs[i as int]);
            assert(dirs[i as int] == directories@[i as int]@);
        }
        if s > 0 {
            scored.push(Scored { score: s, pos: i });
        }
        proof {
            assert(scored@ =~= scored_seq(dirs.take(i + 1), keep, key));
        }
        i = i + 1;
    }
    proof {
        assert(dirs.take(n as int) =~= dirs);
    }
    let sorted = sort_scored(&scored);
    proof {
        lemma_sorted_scored_wf(dirs, keep, key);
    }
    let mut out: Vec<String> = Vec::new();
    let m = sorted.len();
    let mut k: usize = 0;
    while k < m
        invariant
            m == sorted@.len(),
            sorted@ == sort_ranked(scored_seq(dirs, keep, key)),
            dirs == directories@.map_values(|s: String| s@),
            forall|j: int|
                0 <= j < sorted@.len() ==> 0 <= #[trigger] sorted@[j].pos < directories@.len(),
            0 <= k <= m,
            out@.len() == k,
            forall|j: int| 0 <= j < k ==> #[trigger] out@[j]@ == dirs[sorted@[j].pos as int],
        decreases m - k,
    {
        let pos = sorted[k].pos;
        let c = directories[pos].clone();
        out.push(c);
        k = k + 1;
    }
    proof {
        assert(out@.map_values(|s: String| s@) =~= sorted@.map_values(
            |sc: Scored| dirs[sc.pos as int],
        ));
    }
    Some(out)
}

} // verus!
