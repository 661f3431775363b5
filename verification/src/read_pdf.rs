//! `read_pdf`: a window of a PDF's extracted text, and the small
//! most-recent-first cache of extracted texts.
use vstd::prelude::*;

use crate::json::{arg_str, arg_u64, get_str, get_u64, Json};
use crate::text::{
    chars_of, contains, decimal, ends_with, fmt_u64, owned, push_str, str_contains, str_ends_with, str_eq,
    string_of,
};
use crate::tools::{card_of, lower_case, str_arg_or, to_lower, ResultArtifact, ToolUi};
use crate::tool_args::str_or;

verus! {

/// Characters returned when the call names no limit.
pub const DEFAULT_LIMIT: usize = 4_000;

/// Most characters one call returns.
pub const MAX_LIMIT: usize = 16_000;

/// Largest PDF body, in bytes, that is read.
pub const MAX_PDF_BYTES: usize = 20_971_520;

/// Extracted texts the cache keeps.
pub const CACHE_CAP: usize = 5;

// ---------------------------------------------------------------------
// The cache
// ---------------------------------------------------------------------
/// Cache entries as (url, text) views.
pub type CacheView = Seq<(Seq<char>, Seq<char>)>;

/// The entries of `v` for other urls than `url`, in order.
pub open spec fn without_url(v: CacheView, url: Seq<char>) -> CacheView
    decreases v.len(),
{
    if v.len() == 0 {
        Seq::empty()
    } else {
        without_url(v.drop_last(), url) + if v.last().0 == url {
            Seq::empty()
        } else {
            seq![v.last()]
        }
    }
}

/// The entries after storing `text` under `url`: it goes first, any
/// older entry for `url` goes, and only the first five remain.
pub open spec fn put_spec(v: CacheView, url: Seq<char>, text: Seq<char>) -> CacheView {
    let w = seq![(url, text)] + without_url(v, url);
    if w.len() > CACHE_CAP {
        w.take(CACHE_CAP as int)
    } else {
        w
    }
}

/// The text stored under `url`: that of its first entry.
pub open spec fn lookup(v: CacheView, url: Seq<char>) -> Option<Seq<char>>
    decreases v.len(),
{
    if v.len() == 0 {
        None
    } else if v[0].0 == url {
        Some(v[0].1)
    } else {
        lookup(v.drop_first(), url)
    }
}

/// The entries after a read of `url`: a hit moves its entry to the
/// front, a miss changes nothing.
pub open spec fn touch_spec(v: CacheView, url: Seq<char>) -> CacheView {
    match lookup(v, url) {
        Some(t) => put_spec(v, url, t),
        None => v,
    }
}

/// No two entries share a url.
pub open spec fn distinct_urls(v: CacheView) -> bool {
    forall|i: int, j: int| 0 <= i < j < v.len() ==> v[i].0 != v[j].0
}

/// The cache of extracted PDF texts, most recent first.
pub struct PdfCache {
    entries: Vec<(String, String)>,
}

/// Views of owned cache entries.
pub open spec fn entry_views(v: Seq<(String, String)>) -> CacheView {
    v.map_values(|e: (String, String)| (e.0@, e.1@))
}

impl PdfCache {
    /// The entries, most recent first.
    pub closed spec fn view(&self) -> CacheView {
        entry_views(self.entries@)
    }

    /// At most five entries, no url twice.
    pub closed spec fn wf(&self) -> bool {
        self.view().len() <= CACHE_CAP && distinct_urls(self.view())
    }

    /// An empty cache.
    pub fn new() -> (c: Self)
        ensures
            c.wf(),
            c.view().len() == 0,
    {
        let c = PdfCache { entries: Vec::new() };
        assert(c.view() =~= Seq::<(Seq<char>, Seq<char>)>::empty());
        c
    }

    /// The number of entries.
    pub fn len(&self) -> (n: usize)
        ensures
            n == self.view().len(),
    {
        self.entries.len()
    }

    /// Whether an entry for `url` is held; a query that leaves the order
    /// of the entries as it is.
    pub fn contains_url(&self, url: &str) -> (r: bool)
        ensures
            r == (lookup(self.view(), url@) is Some),
    {
        self.find(url).is_some()
    }

    /// The text stored under `url`, if any, without touching the order.
    fn find(&self, url: &str) -> (r: Option<String>)
        ensures
            match lookup(self.view(), url@) {
                Some(t) => r matches Some(s) && s@ == t,
                None => r is None,
            },
    {
        let ghost v = self.view();
        let mut i: usize = 0;
        assert(v.skip(0) =~= v);
        while i < self.entries.len()
            invariant
                i <= self.entries.len(),
                v == entry_views(self.entries@),
                lookup(v, url@) == lookup(v.skip(i as int), url@),
            decreases self.entries.len() - i,
        {
            assert(v.skip(i as int).drop_first() =~= v.skip(i + 1));
            assert(v.skip(i as int)[0] == v[i as int]);
            if str_eq(self.entries[i].0.as_str(), url) {
                return Some(self.entries[i].1.clone());
            }
            i = i + 1;
        }
        assert(v.skip(self.entries.len() as int) =~= Seq::<(Seq<char>, Seq<char>)>::empty());
        None
    }

    /// The text stored under `url`, if any. A hit makes the entry the
    /// most recently used one, so that it is the last to be evicted.
    pub fn cache_get(&mut self, url: &str) -> (r: Option<String>)
        requires
            old(self).wf(),
        ensures
            final(self).wf(),
            final(self).view() == touch_spec(old(self).view(), url@),
            match lookup(old(self).view(), url@) {
                Some(t) => r matches Some(s) && s@ == t,
                None => r is None,
            },
    {
        let found = self.find(url);
        match found {
            Some(t) => {
                let text = t.clone();
                self.cache_put(owned(url), text);
                Some(t)
            },
            None => None,
        }
    }

    /// Stores `text` under `url` as the most recent entry, dropping any
    /// older entry for `url` and the oldest beyond five.
    pub fn cache_put(&mut self, url: String, text: String)
        requires
            old(self).wf(),
        ensures
            final(self).wf(),
            final(self).view() == put_spec(old(self).view(), url@, text@),
    {
        let ghost v = self.view();
        let mut kept: Vec<(String, String)> = Vec::new();
        let ghost uv = url@;
        let ghost tv = text@;
        kept.push((url, text));
        let mut i: usize = 0;
        assert(entry_views(kept@) =~= seq![(uv, tv)] + without_url(v.take(0), uv));
        while i < self.entries.len()
            invariant
                i <= self.entries.len(),
                v == entry_views(self.entries@),
                entry_views(kept@) == seq![(uv, tv)] + without_url(v.take(i as int), uv),
                kept@.len() >= 1,
                kept@[0].0@ == uv,
            decreases self.entries.len() - i,
        {
            assert(v.take(i + 1).drop_last() =~= v.take(i as int));
            let ghost before = entry_views(kept@);
            let ghost old_kept_first = kept@[0];
            if !str_eq(self.entries[i].0.as_str(), kept[0].0.as_str()) {
                let e = (self.entries[i].0.clone(), self.entries[i].1.clone());
                kept.push(e);
                assert(entry_views(kept@) =~= before.push(v[i as int]));
                assert(kept@[0] == old_kept_first);
            } else {
                assert(entry_views(kept@) =~= before);
            }
            i = i + 1;
        }
        assert(v.take(self.entries.len() as int) =~= v);
        let ghost w = entry_views(kept@);
        kept.truncate(CACHE_CAP);
        assert(entry_views(kept@) =~= put_spec(v, uv, tv));
        self.entries = kept;
        proof {
            lemma_put_keeps_wf(v, uv, tv);
        }
    }
}

/// Every entry of `without_url(v, url)` is an entry of `v` for another url.
proof fn lemma_without_url_entries(v: CacheView, url: Seq<char>)
    ensures
        forall|i: int| 0 <= i < without_url(v, url).len() ==> (#[trigger] without_url(v, url)[i]).0 != url
            && v.contains(without_url(v, url)[i]),
        without_url(v, url).len() <= v.len(),
    decreases v.len(),
{
    if v.len() > 0 {
        lemma_without_url_entries(v.drop_last(), url);
        let w = without_url(v.drop_last(), url);
        assert forall|i: int| 0 <= i < without_url(v, url).len() implies (#[trigger] without_url(
            v,
            url,
        )[i]).0 != url && v.contains(without_url(v, url)[i]) by {
            if i < w.len() {
                assert(without_url(v, url)[i] == w[i]);
                let k = choose|k: int| 0 <= k < v.drop_last().len() && v.drop_last()[k] == w[i];
                assert(v[k] == w[i]);
            } else {
                assert(without_url(v, url)[i] == v.last());
                assert(v[v.len() - 1] == v.last());
            }
        }
    }
}

/// Removing a url keeps the other urls distinct and in order.
proof fn lemma_without_url_distinct(v: CacheView, url: Seq<char>)
    requires
        distinct_urls(v),
    ensures
        distinct_urls(without_url(v, url)),
    decreases v.len(),
{
    if v.len() > 0 {
        let p = v.drop_last();
        assert(distinct_urls(p));
        lemma_without_url_distinct(p, url);
        lemma_without_url_entries(p, url);
        let w = without_url(p, url);
        if v.last().0 != url {
            assert forall|i: int, j: int| 0 <= i < j < without_url(v, url).len() implies without_url(
                v,
                url,
            )[i].0 != without_url(v, url)[j].0 by {
                if j == w.len() {
                    assert(without_url(v, url)[j] == v.last());
                    assert(without_url(v, url)[i] == w[i]);
                    let k = choose|k: int| 0 <= k < p.len() && p[k] == w[i];
                    assert(v[k] == p[k]);
                    assert(v[v.len() - 1] == v.last());
                } else {
                    assert(without_url(v, url)[i] == w[i]);
                    assert(without_url(v, url)[j] == w[j]);
                }
            }
        } else {
            assert(without_url(v, url) =~= w);
        }
    }
}

/// Storing keeps at most five entries with distinct urls.
proof fn lemma_put_keeps_wf(v: CacheView, url: Seq<char>, text: Seq<char>)
    requires
        distinct_urls(v),
    ensures
        put_spec(v, url, text).len() <= CACHE_CAP,
        distinct_urls(put_spec(v, url, text)),
{
    lemma_without_url_distinct(v, url);
    lemma_without_url_entries(v, url);
    let w = seq![(url, text)] + without_url(v, url);
    assert forall|i: int, j: int| 0 <= i < j < w.len() implies w[i].0 != w[j].0 by {
        if i == 0 {
            assert(w[j] == without_url(v, url)[j - 1]);
        } else {
            assert(w[i] == without_url(v, url)[i - 1]);
            assert(w[j] == without_url(v, url)[j - 1]);
        }
    }
}

/// A text stored under a url is what the cache then gives for it.
pub proof fn lemma_get_after_put(v: CacheView, url: Seq<char>, text: Seq<char>)
    ensures
        lookup(put_spec(v, url, text), url) == Some(text),
{
}

/// The cache never holds more than five entries, and the one just
/// stored comes first.
pub proof fn lemma_put_bounded_most_recent_first(v: CacheView, url: Seq<char>, text: Seq<char>)
    requires
        distinct_urls(v),
    ensures
        put_spec(v, url, text).len() <= CACHE_CAP,
        put_spec(v, url, text)[0] == (url, text),
        distinct_urls(put_spec(v, url, text)),
{
    lemma_put_keeps_wf(v, url, text);
}

/// Storing under one url leaves what another url gives unchanged, as
/// long as that entry is among the four most recent others.
pub proof fn lemma_put_keeps_recent_others(v: CacheView, url: Seq<char>, text: Seq<char>, other: Seq<char>)
    requires
        other != url,
        without_url(v, url).len() < CACHE_CAP,
    ensures
        lookup(put_spec(v, url, text), other) == lookup(without_url(v, url), other),
{
    let w = seq![(url, text)] + without_url(v, url);
    assert(w.drop_first() =~= without_url(v, url));
}

/// Dropping another url keeps the first entry first.
proof fn lemma_without_url_keeps_head(s: CacheView, w: Seq<char>)
    requires
        s.len() > 0,
        s[0].0 != w,
    ensures
        without_url(s, w).len() > 0,
        without_url(s, w)[0] == s[0],
    decreases s.len(),
{
    let p = s.drop_last();
    let tail: CacheView = if s.last().0 == w {
        Seq::empty()
    } else {
        seq![s.last()]
    };
    assert(without_url(s, w) == without_url(p, w) + tail);
    if s.len() > 1 {
        assert(p[0] == s[0]);
        lemma_without_url_keeps_head(p, w);
    } else {
        assert(p =~= Seq::<(Seq<char>, Seq<char>)>::empty());
        assert(without_url(p, w) =~= Seq::<(Seq<char>, Seq<char>)>::empty());
        assert(s.last() == s[0]);
    }
}

/// The cache evicts the least recently used entry: an entry just read
/// stays through the next store of another url, whatever the cache held.
pub proof fn lemma_read_entry_survives_next_put(v: CacheView, url: Seq<char>, other: Seq<char>, text: Seq<char>)
    requires
        distinct_urls(v),
        lookup(v, url) is Some,
        other != url,
    ensures
        lookup(put_spec(touch_spec(v, url), other, text), url) == lookup(v, url),
{
    let t = lookup(v, url).unwrap();
    let x = touch_spec(v, url);
    assert(x == put_spec(v, url, t));
    lemma_put_bounded_most_recent_first(v, url, t);
    assert(x[0] == (url, t));
    lemma_without_url_keeps_head(x, other);
    let w = seq![(other, text)] + without_url(x, other);
    assert(w[1] == (url, t));
    let y = put_spec(x, other, text);
    assert(w.len() >= 2);
    assert(y.len() >= 2);
    assert(y[0] == w[0]);
    assert(y[1] == w[1]);
    assert(y.drop_first()[0] == y[1]);
    assert(lookup(y.drop_first(), url) == Some(t));
    assert(lookup(y, url) == lookup(y.drop_first(), url));
}

// ---------------------------------------------------------------------
// The window
// ---------------------------------------------------------------------
/// A window of extracted text and where it stands in the whole.
pub struct PdfWindow {
    /// The reply body: markdown with progress and a next-call hint, or
    /// the bare slice for the `text` format.
    pub body: String,
    pub offset: usize,
    pub limit: usize,
    pub returned_chars: usize,
    pub total_chars: usize,
    pub next_offset: usize,
    pub has_more: bool,
    pub non_ascii_chars: usize,
    /// A long text with under one in twenty characters outside ASCII,
    /// whose extraction of Chinese may have failed.
    pub quality_unverified: bool,
}

/// The characters of `s` outside ASCII.
pub open spec fn non_ascii_count(s: Seq<char>) -> nat
    decreases s.len(),
{
    if s.len() == 0 {
        0
    } else {
        non_ascii_count(s.drop_last()) + if (s.last() as u32) < 128 {
            0nat
        } else {
            1nat
        }
    }
}

/// The slice of `limit` characters from `offset`.
pub open spec fn window_slice(s: Seq<char>, offset: int, limit: int) -> Seq<char> {
    if offset >= s.len() {
        Seq::empty()
    } else if offset + limit >= s.len() {
        s.skip(offset)
    } else {
        s.subrange(offset, offset + limit)
    }
}

/// Reading on from where a window ended continues the text: two windows
/// in a row are the text from the first offset on, as far as they reach.
pub proof fn lemma_windows_tile(s: Seq<char>, offset: usize, limit: usize, next_limit: usize)
    requires
        offset < s.len(),
    ensures
        ({
            let first = window_slice(s, offset as int, limit as int);
            let next = offset + first.len();
            let end = if next + next_limit >= s.len() {
                s.len() as int
            } else {
                next + next_limit
            };
            first + window_slice(s, next, next_limit as int) == s.subrange(offset as int, end)
        }),
{
    let first = window_slice(s, offset as int, limit as int);
    let next = offset + first.len();
    let end = if next + next_limit >= s.len() {
        s.len() as int
    } else {
        next + next_limit
    };
    assert(first + window_slice(s, next, next_limit as int) =~= s.subrange(offset as int, end));
}

/// The markdown reply of a window.
pub open spec fn markdown_text(url: Seq<char>, slice: Seq<char>, offset: usize, limit: usize, total: usize, cached: bool) -> Seq<char> {
    let next = offset + slice.len();
    "## PDF\n**来源:** "@ + url + "\n**进度:** 第 "@ + decimal(offset as nat) + "-"@ + decimal(next as nat)
        + " 字 / 共 ~"@ + decimal(total as nat) + " 字"@ + (if cached {
        " (cached)"@
    } else {
        Seq::empty()
    }) + "\n\n"@ + slice + "\n\n---\n"@ + (if next < total {
        "**下一段:** `read_pdf(url, offset="@ + decimal(next as nat) + ", limit="@ + decimal(limit as nat)
            + ")` 续读 (剩余 ~"@ + decimal((total - next) as nat) + " 字)"@
    } else {
        "**已读完。**"@
    }) + "\n"@
}

/// The window a call asks for, or why it is refused: an offset at or
/// past the end of a non-empty text.
pub open spec fn window_ok(url: Seq<char>, text: Seq<char>, offset: usize, limit: usize, format: Seq<char>, cached: bool, w: PdfWindow) -> bool {
    let slice = window_slice(text, offset as int, limit as int);
    &&& w.offset == offset
    &&& w.limit == limit
    &&& w.total_chars == text.len()
    &&& w.returned_chars == slice.len()
    &&& w.next_offset == offset + slice.len()
    &&& w.has_more == (offset + slice.len() < text.len())
    &&& w.non_ascii_chars == non_ascii_count(text)
    &&& w.quality_unverified == (text.len() > 200 && non_ascii_count(text) * 20 < text.len())
    &&& w.body@ == if format == "markdown"@ {
        markdown_text(url, slice, offset, limit, text.len() as usize, cached)
    } else {
        slice
    }
}

/// The non-ASCII characters of a text.
fn count_non_ascii(v: &[char]) -> (n: usize)
    ensures
        n == non_ascii_count(v@),
{
    let mut n: usize = 0;
    let mut i: usize = 0;
    while i < v.len()
        invariant
            i <= v.len(),
            n == non_ascii_count(v@.take(i as int)),
            n <= i,
        decreases v.len() - i,
    {
        assert(v@.take(i + 1).drop_last() =~= v@.take(i as int));
        if (v[i] as u32) >= 128 {
            n = n + 1;
        }
        i = i + 1;
    }
    assert(v@.take(v.len() as int) =~= v@);
    n
}

/// The markdown reply for a slice of `total` characters from `offset`.
fn markdown_body(url: &str, slice: &str, offset: usize, next: usize, limit: usize, total: usize, cached: bool) -> (b: String)
    requires
        next == offset + slice@.len(),
    ensures
        b@ == markdown_text(url@, slice@, offset, limit, total, cached),
{
    let mut head = owned("## PDF\n**来源:** ");
    push_str(&mut head, url);
    push_str(&mut head, "\n**进度:** 第 ");
    push_str(&mut head, fmt_u64(offset as u64).as_str());
    push_str(&mut head, "-");
    push_str(&mut head, fmt_u64(next as u64).as_str());
    push_str(&mut head, " 字 / 共 ~");
    push_str(&mut head, fmt_u64(total as u64).as_str());
    push_str(&mut head, " 字");
    let ghost h1 = head@;
    if cached {
        push_str(&mut head, " (cached)");
    }
    let ghost h2 = head@;
    push_str(&mut head, "\n\n");
    push_str(&mut head, slice);
    push_str(&mut head, "\n\n---\n");
    let ghost h3 = head@;
    let mut tail = owned("");
    if next < total {
        push_str(&mut tail, "**下一段:** `read_pdf(url, offset=");
        push_str(&mut tail, fmt_u64(next as u64).as_str());
        push_str(&mut tail, ", limit=");
        push_str(&mut tail, fmt_u64(limit as u64).as_str());
        push_str(&mut tail, ")` 续读 (剩余 ~");
        push_str(&mut tail, fmt_u64((total - next) as u64).as_str());
        push_str(&mut tail, " 字)");
    } else {
        push_str(&mut tail, "**已读完。**");
    }
    push_str(&mut tail, "\n");
    let ghost t = tail@;
    push_str(&mut head, tail.as_str());
    proof {
        reveal_strlit("");
    }
    assert(head@ =~= markdown_text(url@, slice@, offset, limit, total, cached));
    head
}

/// The window of `limit` characters from `offset` of an extracted text.
pub fn finalize(url: &str, full_text: &str, offset: usize, limit: usize, format: &str, cached: bool) -> (r:
    Result<PdfWindow, String>)
    ensures
        r is Err <==> (offset >= full_text@.len() && full_text@.len() > 0),
        match r {
            Ok(w) => window_ok(url@, full_text@, offset, limit, format@, cached, w),
            Err(e) => offset >= full_text@.len() && full_text@.len() > 0 && e@ == "read_pdf: offset "@
                + decimal(offset as nat) + " ≥ total "@ + decimal(full_text@.len()) + " characters [validation]"@,
        },
{
    let v = chars_of(full_text);
    let total = v.len();
    if offset >= total && total > 0 {
        let mut e = owned("read_pdf: offset ");
        push_str(&mut e, fmt_u64(offset as u64).as_str());
        push_str(&mut e, " ≥ total ");
        push_str(&mut e, fmt_u64(total as u64).as_str());
        push_str(&mut e, " characters [validation]");
        return Err(e);
    }
    let start: usize = if offset >= total {
        total
    } else {
        offset
    };
    let end: usize = if offset >= total {
        total
    } else if limit >= total - offset {
        total
    } else {
        offset + limit
    };
    let mut slice: Vec<char> = Vec::new();
    let mut i: usize = start;
    while i < end
        invariant
            start <= i <= end,
            end <= total,
            total == v@.len(),
            slice@ == v@.subrange(start as int, i as int),
        decreases end - i,
    {
        slice.push(v[i]);
        assert(slice@ =~= v@.subrange(start as int, i + 1));
        i = i + 1;
    }
    let ghost sv = window_slice(v@, offset as int, limit as int);
    assert(slice@ =~= sv);
    let returned = slice.len();
    let next_offset = offset + returned;
    let has_more = next_offset < total;
    let non_ascii = count_non_ascii(v.as_slice());
    let text = string_of(slice.as_slice());
    let body = if str_eq(format, "markdown") {
        markdown_body(url, text.as_str(), offset, next_offset, limit, total, cached)
    } else {
        text
    };
    assert(window_slice(full_text@, offset as int, limit as int) == sv);
    Ok(
        PdfWindow {
            body,
            offset,
            limit,
            returned_chars: returned,
            total_chars: total,
            next_offset,
            has_more,
            non_ascii_chars: non_ascii,
            quality_unverified: total > 200 && non_ascii < total / 20 + if total % 20 == 0 { 0 } else { 1 },
        },
    )
}

// ---------------------------------------------------------------------
// Arguments
// ---------------------------------------------------------------------
/// The scheme the URL parser finds in a text, or its error message.
pub uninterp spec fn url_scheme_of(s: Seq<char>) -> Result<Seq<char>, Seq<char>>;

/// `reqwest::Url::parse(s)`, reduced to the scheme of the parsed URL or
/// the parser's error message; the result is `url_scheme_of` of the text.
#[verifier::external_body]
fn parse_url_scheme(s: &str) -> (r: Result<String, String>)
    ensures
        match url_scheme_of(s@) {
            Ok(scheme) => r matches Ok(t) && t@ == scheme,
            Err(e) => r matches Err(t) && t@ == e,
        },
{
    match reqwest::Url::parse(s) {
        Ok(u) => Ok(u.scheme().to_string()),
        Err(e) => Err(e.to_string()),
    }
}

/// The host the URL parser finds in a text; nothing where the text does
/// not parse or names no host.
pub uninterp spec fn url_host_of(s: Seq<char>) -> Option<Seq<char>>;

/// `reqwest::Url::parse(s)` and `host_str` of the parsed URL; the result
/// is `url_host_of` of the text.
#[verifier::external_body]
fn parse_url_host(s: &str) -> (r: Option<String>)
    ensures
        match url_host_of(s@) {
            Some(h) => r matches Some(t) && t@ == h,
            None => r is None,
        },
{
    reqwest::Url::parse(s).ok().and_then(|u| u.host_str().map(|h| h.to_string()))
}

/// A read request.
pub struct PdfRequest {
    pub url: String,
    pub offset: usize,
    pub limit: usize,
    pub format: String,
}

/// The offset a call names, or zero.
pub open spec fn offset_spec(args: Json) -> u64 {
    match arg_u64(args, "offset"@) {
        Some(n) => n,
        None => 0,
    }
}

/// The limit a call names, capped at 16000, else 4000.
pub open spec fn limit_spec(args: Json) -> usize {
    match arg_u64(args, "limit"@) {
        Some(n) => if n > MAX_LIMIT {
            MAX_LIMIT
        } else {
            n as usize
        },
        None => DEFAULT_LIMIT,
    }
}

/// Reads a call: the url must parse with an http or https scheme.
pub fn pdf_request(args: &Json) -> (r: Result<PdfRequest, String>)
    requires
        offset_spec(*args) <= usize::MAX,
    ensures
        match arg_str(*args, "url"@) {
            None => r matches Err(e) && e@ == "read_pdf: missing required 'url'."@,
            Some(u) => match url_scheme_of(u) {
                Err(m) => r matches Err(e) && e@ == "read_pdf: invalid URL '"@ + u + "' — "@ + m
                    + " [validation]"@,
                Ok(scheme) => if scheme != "http"@ && scheme != "https"@ {
                    r matches Err(e) && e@ == "read_pdf: scheme '"@ + scheme
                        + "' not supported (need http/https) [validation]"@
                } else {
                    r matches Ok(req) && req.url@ == u && req.offset == offset_spec(*args) && req.limit
                        == limit_spec(*args) && req.format@ == match arg_str(*args, "format"@) {
                        Some(f) => f,
                        None => "markdown"@,
                    }
                },
            },
        },
{
    let url = match get_str(args, "url") {
        Some(u) => u,
        None => return Err(owned("read_pdf: missing required 'url'.")),
    };
    match parse_url_scheme(url) {
        Err(m) => {
            let mut e = owned("read_pdf: invalid URL '");
            push_str(&mut e, url);
            push_str(&mut e, "' — ");
            push_str(&mut e, m.as_str());
            push_str(&mut e, " [validation]");
            Err(e)
        },
        Ok(scheme) => {
            if !str_eq(scheme.as_str(), "http") && !str_eq(scheme.as_str(), "https") {
                let mut e = owned("read_pdf: scheme '");
                push_str(&mut e, scheme.as_str());
                push_str(&mut e, "' not supported (need http/https) [validation]");
                return Err(e);
            }
            let offset: usize = match get_u64(args, "offset") {
                Some(n) => n as usize,
                None => 0,
            };
            let limit: usize = match get_u64(args, "limit") {
                Some(n) => if n > 16_000 {
                    MAX_LIMIT
                } else {
                    n as usize
                },
                None => DEFAULT_LIMIT,
            };
            let format = match get_str(args, "format") {
                Some(f) => owned(f),
                None => owned("markdown"),
            };
            Ok(PdfRequest { url: owned(url), offset, limit, format })
        },
    }
}

// ---------------------------------------------------------------------
// Response checks
// ---------------------------------------------------------------------
/// Whether a response is taken for a PDF: its content type, lower-cased,
/// names `application/pdf`, or the URL path ends in `.pdf`.
pub open spec fn is_pdf_spec(content_type: Seq<char>, path: Seq<char>) -> bool {
    contains(lower_case(content_type), "application/pdf"@) || ends_with(path, ".pdf"@)
}

/// The refusal of a response that is not a PDF, or `None` for a PDF.
pub fn not_pdf_error(url: &str, content_type: &str, path: &str) -> (r: Option<String>)
    ensures
        is_pdf_spec(content_type@, path@) ==> r is None,
        !is_pdf_spec(content_type@, path@) ==> (r matches Some(e) && e@ == "read_pdf: '"@ + url@
            + "' is not a PDF (Content-Type: "@ + content_type@ + ") [url_not_pdf / validation]"@),
{
    let lower = to_lower(content_type);
    if str_contains(lower.as_str(), "application/pdf") || str_ends_with(path, ".pdf") {
        return None;
    }
    let mut e = owned("read_pdf: '");
    push_str(&mut e, url);
    push_str(&mut e, "' is not a PDF (Content-Type: ");
    push_str(&mut e, content_type);
    push_str(&mut e, ") [url_not_pdf / validation]");
    Some(e)
}

/// The refusal of a body over 20 MB, or `None`.
pub fn size_error(body_len: usize) -> (r: Option<String>)
    ensures
        body_len <= MAX_PDF_BYTES ==> r is None,
        body_len > MAX_PDF_BYTES ==> (r matches Some(e) && e@ == "read_pdf: PDF exceeds "@ + decimal(
            MAX_PDF_BYTES as nat,
        ) + " bytes (got "@ + decimal(body_len as nat) + ") [policy]"@),
{
    if body_len <= MAX_PDF_BYTES {
        return None;
    }
    let mut e = owned("read_pdf: PDF exceeds ");
    push_str(&mut e, fmt_u64(MAX_PDF_BYTES as u64).as_str());
    push_str(&mut e, " bytes (got ");
    push_str(&mut e, fmt_u64(body_len as u64).as_str());
    push_str(&mut e, ") [policy]");
    Some(e)
}

/// The card of the tool: its display name and card kind.
pub fn ui() -> (u: ToolUi)
    ensures
        u.display_name@ == "读取 PDF"@,
        card_of(u.result) == Some("pdf_reader"@),
{
    ToolUi { display_name: "读取 PDF", result: ResultArtifact::Card("pdf_reader") }
}

/// The card summary of a call: the host of its URL, else the URL as given.
pub open spec fn ui_summary_of(args: Json) -> Seq<char> {
    let url = str_or(args, "url"@, ""@);
    "PDF · "@ + match url_host_of(url) {
        Some(h) => h,
        None => url,
    }
}

/// `ui_summary_of` the call's arguments.
pub fn ui_summary(args: &Json) -> (r: String)
    ensures
        r@ == ui_summary_of(*args),
{
    let url = str_arg_or(args, "url", "");
    let mut out = owned("PDF · ");
    match parse_url_host(url) {
        Some(h) => push_str(&mut out, h.as_str()),
        None => push_str(&mut out, url),
    }
    out
}

} // verus!
