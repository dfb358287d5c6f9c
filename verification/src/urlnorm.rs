//! URL normalization for history entries: the query string and fragment are
//! stripped, trailing separators trimmed, and loopback/local addresses
//! rejected. Normalized URLs key the collated history store.
use vstd::prelude::*;
use crate::text::{contains_seq, contains_sub, concat_str, substring_copy};

verus! {

/// Characters that begin the stripped tail of a URL: query string or fragment.
pub open spec fn is_qf_char(c: char) -> bool {
    c == '?' || c == '#'
}

/// Trailing separator characters trimmed from a normalized URL.
pub open spec fn is_sep_char(c: char) -> bool {
    c == '/' || c == '#' || c == '?' || c == '&'
}

/// Index of the first query/fragment character of `s`, or its length.
pub open spec fn qf_cut(s: Seq<char>) -> int {
    if exists|i: int|
        0 <= i < s.len() && is_qf_char(s[i]) && (forall|j: int| 0 <= j < i ==> !is_qf_char(s[j])) {
        choose|i: int|
            0 <= i < s.len() && is_qf_char(s[i]) && (forall|j: int| 0 <= j < i ==> !is_qf_char(s[j]))
    } else {
        s.len() as int
    }
}

/// `k` is where trimming stops: only separators stand between it and the
/// cut, and the character before it (if any) is no separator.
pub open spec fn is_trim_point(s: Seq<char>, k: int) -> bool {
    &&& 0 <= k <= qf_cut(s)
    &&& forall|j: int| k <= j < qf_cut(s) ==> is_sep_char(#[trigger] s[j])
    &&& k == 0 || !is_sep_char(s[k - 1])
}

/// Length of the normalized form of `s`: everything before the first
/// query/fragment character, with trailing separators trimmed.
pub open spec fn norm_len(s: Seq<char>) -> int {
    choose|k: int| is_trim_point(s, k)
}

/// The normalized form of `s`.
pub open spec fn normal_of(s: Seq<char>) -> Seq<char> {
    s.subrange(0, norm_len(s))
}

proof fn lemma_qf_cut_is(s: Seq<char>, i: int)
    requires
        0 <= i <= s.len(),
        forall|j: int| 0 <= j < i ==> !is_qf_char(s[j]),
        i == s.len() || is_qf_char(s[i]),
    ensures
        qf_cut(s) == i,
{
    if i < s.len() {
        assert(exists|w: int|
            0 <= w < s.len() && is_qf_char(s[w]) && (forall|j: int| 0 <= j < w ==> !is_qf_char(s[j])))
            by {
            assert(0 <= i < s.len() && is_qf_char(s[i]) && (forall|j: int|
                0 <= j < i ==> !is_qf_char(s[j])));
        }
        let c = choose|w: int|
            0 <= w < s.len() && is_qf_char(s[w]) && (forall|j: int| 0 <= j < w ==> !is_qf_char(s[j]));
        if c < i {
            assert(!is_qf_char(s[c]));
        }
        if c > i {
            assert(!is_qf_char(s[i]));
        }
        assert(c == i);
    } else {
        if exists|w: int|
            0 <= w < s.len() && is_qf_char(s[w]) && (forall|j: int|
                0 <= j < w ==> !is_qf_char(s[j])) {
            let c = choose|w: int|
                0 <= w < s.len() && is_qf_char(s[w]) && (forall|j: int|
                    0 <= j < w ==> !is_qf_char(s[j]));
            assert(!is_qf_char(s[c]));
        }
    }
}

proof fn lemma_norm_len_is(s: Seq<char>, k: int)
    requires
        0 <= k <= qf_cut(s),
        forall|j: int| k <= j < qf_cut(s) ==> is_sep_char(s[j]),
        k == 0 || !is_sep_char(s[k - 1]),
    ensures
        norm_len(s) == k,
{
    assert(is_trim_point(s, k));
    let c = norm_len(s);
    assert(is_trim_point(s, c)) by {
        assert(exists|w: int| is_trim_point(s, w)) by {
            assert(is_trim_point(s, k));
        }
    }
    if c < k {
        assert(is_sep_char(s[k - 1]));
    }
    if c > k {
        assert(is_sep_char(s[c - 1]));
    }
}

/// Normalizes a URL string: strips everything from the first query/fragment
/// character on, then trims trailing separator characters.
pub fn normalize_url(url: &str) -> (r: String)
    ensures
        r@ == normal_of(url@),
{
    let n = url.unicode_len();
    let mut i: usize = 0;
    while i < n
        invariant
            n == url@.len(),
            0 <= i <= n,
            forall|j: int| 0 <= j < i ==> !is_qf_char(url@[j]),
        ensures
            0 <= i <= n,
            forall|j: int| 0 <= j < i ==> !is_qf_char(url@[j]),
            i == n || is_qf_char(url@[i as int]),
        decreases n - i,
    {
        let c = url.get_char(i);
        if c == '?' || c == '#' {
            break ;
        }
        i = i + 1;
    }
    proof {
        lemma_qf_cut_is(url@, i as int);
    }
    let mut k: usize = i;
    while k > 0
        invariant
            n == url@.len(),
            0 <= k <= i <= n,
            qf_cut(url@) == i,
            forall|j: int| k <= j < i ==> is_sep_char(url@[j]),
        ensures
            0 <= k <= i,
            forall|j: int| k <= j < i ==> is_sep_char(url@[j]),
            k == 0 || !is_sep_char(url@[k - 1]),
        decreases k,
    {
        let c = url.get_char(k - 1);
        if !(c == '/' || c == '#' || c == '?' || c == '&') {
            break ;
        }
        k = k - 1;
    }
    proof {
        lemma_norm_len_is(url@, k as int);
    }
    substring_copy(url, 0, k)
}

/// Normalization is idempotent: a normalized URL normalizes to itself.
pub proof fn lemma_normalize_idempotent(s: Seq<char>)
    ensures
        normal_of(normal_of(s)) == normal_of(s),
{
    let k = norm_len(s);
    lemma_norm_len_bounds(s);
    let t = normal_of(s);
    assert(t.len() == k);
    assert(forall|j: int| 0 <= j < qf_cut(s) ==> !is_qf_char(s[j])) by {
        lemma_qf_cut_bounds(s);
    }
    assert(forall|j: int| 0 <= j < k ==> t[j] == s[j]);
    lemma_qf_cut_is(t, k);
    lemma_norm_len_is(t, k);
    assert(normal_of(t) =~= t);
}

/// `qf_cut` lies in range and nothing before it is a query/fragment character.
#[verifier::rlimit(60)]
proof fn lemma_qf_cut_bounds(s: Seq<char>)
    ensures
        0 <= qf_cut(s) <= s.len(),
        forall|j: int| 0 <= j < qf_cut(s) ==> !is_qf_char(s[j]),
{
    if exists|i: int|
        0 <= i < s.len() && is_qf_char(s[i]) && (forall|j: int| 0 <= j < i ==> !is_qf_char(s[j])) {
        let c = choose|i: int|
            0 <= i < s.len() && is_qf_char(s[i]) && (forall|j: int| 0 <= j < i ==> !is_qf_char(s[j]));
        assert(qf_cut(s) == c);
    } else {
        assert(qf_cut(s) == s.len());
        assert forall|j: int| 0 <= j < s.len() implies !is_qf_char(s[j]) by {
            if exists|j: int| 0 <= j < s.len() && is_qf_char(s[j]) {
                let w = choose|j: int| 0 <= j < s.len() && is_qf_char(s[j]);
                lemma_first_qf_exists(s, w);
            }
        }
    }
}

/// If some index holds a query/fragment character, a first such index exists.
proof fn lemma_first_qf_exists(s: Seq<char>, w: int)
    requires
        0 <= w < s.len(),
        is_qf_char(s[w]),
    ensures
        exists|i: int|
            0 <= i < s.len() && is_qf_char(s[i]) && (forall|j: int| 0 <= j < i ==> !is_qf_char(s[j])),
    decreases w,
{
    if forall|j: int| 0 <= j < w ==> !is_qf_char(s[j]) {
        assert(0 <= w < s.len() && is_qf_char(s[w]) && (forall|j: int|
            0 <= j < w ==> !is_qf_char(s[j])));
    } else {
        let v = choose|j: int| 0 <= j < w && is_qf_char(s[j]);
        lemma_first_qf_exists(s, v);
    }
}

/// `norm_len` lies in range, nothing from it to the cut is kept, and the
/// normalized form has no trailing separator.
proof fn lemma_norm_len_bounds(s: Seq<char>)
    ensures
        0 <= norm_len(s) <= qf_cut(s),
        forall|j: int| norm_len(s) <= j < qf_cut(s) ==> is_sep_char(s[j]),
        norm_len(s) == 0 || !is_sep_char(s[norm_len(s) - 1]),
{
    lemma_qf_cut_bounds(s);
    lemma_norm_witness(s, qf_cut(s));
    let w = choose|k: int| is_trim_point(s, k);
    assert(is_trim_point(s, w));
    assert(norm_len(s) == w);
}

/// Below any point `u` of the prefix there is a trim point: an index at or
/// before `u` with only separators between it and the cut and none before it.
proof fn lemma_norm_witness(s: Seq<char>, u: int)
    requires
        0 <= u <= qf_cut(s) <= s.len(),
        forall|j: int| u <= j < qf_cut(s) ==> is_sep_char(s[j]),
    ensures
        exists|k: int| is_trim_point(s, k),
    decreases u,
{
    if u == 0 || !is_sep_char(s[u - 1]) {
        assert(is_trim_point(s, u));
    } else {
        lemma_norm_witness(s, u - 1);
    }
}

/// A URL that targets the local machine; such entries are discarded from the
/// collated history.
pub open spec fn is_local_url(s: Seq<char>) -> bool {
    ||| contains_seq(s, "localhost"@)
    ||| contains_seq(s, "127.0.0.1"@)
    ||| contains_seq(s, "0.0.0.0"@)
    ||| contains_seq(s, "file://"@)
}

/// Returns whether the URL targets the local machine.
pub fn check_local_url(url: &str) -> (r: bool)
    ensures
        r == is_local_url(url@),
{
    contains_sub(url, "localhost") || contains_sub(url, "127.0.0.1") || contains_sub(url, "0.0.0.0")
        || contains_sub(url, "file://")
}

/// The registrable domain of a URL, as the `url` crate's parser reports it;
/// a pure function of the URL text.
pub uninterp spec fn url_domain_of(s: Seq<char>) -> Option<Seq<char>>;

/// Relies on `url::Url::parse` and `url::Url::domain`: parsing is a pure
/// function of the string, and `domain` returns the host when it is a domain
/// name (not an IP address), else nothing.
#[verifier::external_body]
fn parse_domain(url: &str) -> (r: Option<String>)
    ensures
        r matches Some(d) ==> url_domain_of(url@) == Some(d@),
        r is None ==> url_domain_of(url@) is None,
{
    url::Url::parse(url).ok().and_then(|u| u.domain().map(|d| d.to_string()))
}

/// The cached favicon location for a URL's domain: `<dir>/<domain>.png`.
/// The caller supplies the favicon cache directory and checks existence;
/// a URL without a domain has no favicon.
pub fn get_favicon_path(cache_dir: &str, url: &str) -> (r: Option<String>)
    ensures
        r matches Some(p) ==> url_domain_of(url@) matches Some(d) && p@ == cache_dir@ + "/"@ + d
            + ".png"@,
        r is None <==> url_domain_of(url@) is None,
{
    match parse_domain(url) {
        Some(d) => {
            let mut p = concat_str(cache_dir, "/");
            p.append(d.as_str());
            p.append(".png");
            Some(p)
        },
        None => None,
    }
}

/// The favicon-resolution endpoint queried for a domain's icon.
pub fn favicon_request_url(domain: &str) -> (r: String)
    ensures
        r@ == "https://t1.gstatic.com/faviconV2?client=SOCIAL&type=FAVICON&fallback_opts=TYPE,SIZE,URL&url=https://"@
            + domain@ + "&size=64"@,
{
    let mut p = concat_str(
        "https://t1.gstatic.com/faviconV2?client=SOCIAL&type=FAVICON&fallback_opts=TYPE,SIZE,URL&url=https://",
        domain,
    );
    p.append("&size=64");
    p
}

} // verus!
