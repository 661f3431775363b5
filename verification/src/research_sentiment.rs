//! `research_sentiment`: the once-a-minute throttle of the consensus
//! call, and the merged list of recent research reports.
use vstd::prelude::*;

use crate::coverage::{
    array_at, array_member, bool_at, bool_member, closing_lines, closing_text, coverage_reply, coverage_tail, json_at,
    lemma_head, member, str_at, text_member, u64_at, u64_member,
};
use crate::tools::ToolOutcome;

use crate::tools::{card_of, str_arg_or, summary_snippet, snippet, ToolUi, ResultArtifact};
use crate::tool_args::str_or;
use crate::json::Json;

use crate::coverage::{push_stamped, push_text, Coverage};
use crate::date_order::{
    insert_pos_by, lemma_insert_pos_bounds, lemma_sort_len, lemma_sort_multiset, lemma_sort_newest_first,
    newest_first_by, sort_desc_by, str_lt,
};
use crate::text::{decimal, fmt_u64, owned, push_str, str_eq, views};

verus! {

broadcast use vstd::seq_lib::group_seq_properties;

// ---------------------------------------------------------------------
// The throttle
// ---------------------------------------------------------------------
/// Seconds that must pass between two consensus calls.
pub const REPORT_RC_INTERVAL_SECS: u64 = 60;

/// Nanoseconds in a second.
pub const NANOS_PER_SEC: u64 = 1_000_000_000;

/// Whole seconds from `prev` to `now`, zero when `now` is not later.
pub open spec fn elapsed_secs(prev: u64, now: u64) -> int {
    if now > prev {
        (now - prev) as int / NANOS_PER_SEC as int
    } else {
        0
    }
}

/// Whether a call at `now` may go out, given the time of the last one
/// that did.
pub open spec fn throttle_allows(last: Option<u64>, now: u64) -> bool {
    match last {
        None => true,
        Some(prev) => elapsed_secs(prev, now) >= REPORT_RC_INTERVAL_SECS,
    }
}

/// The time of the last consensus call that went out, in nanoseconds on
/// a monotonic clock.
pub struct ReportThrottle {
    pub last: Option<u64>,
}

impl ReportThrottle {
    /// A throttle that has let nothing through yet.
    pub fn new() -> (t: Self)
        ensures
            t.last is None,
    {
        ReportThrottle { last: None }
    }

    /// Lets a call at `now` through when none went out in the last 60
    /// seconds, and then records `now`; otherwise refuses and records
    /// nothing.
    pub fn try_acquire_report_rc(&mut self, now: u64) -> (allowed: bool)
        ensures
            allowed == throttle_allows(old(self).last, now),
            final(self).last == if allowed {
                Some(now)
            } else {
                old(self).last
            },
    {
        let allowed = match self.last {
            None => true,
            Some(prev) => {
                let secs: u64 = if now > prev {
                    (now - prev) / NANOS_PER_SEC
                } else {
                    0
                };
                secs >= REPORT_RC_INTERVAL_SECS
            },
        };
        if allowed {
            self.last = Some(now);
        }
        allowed
    }
}

/// After a call went out at `t`, one less than 60 seconds later is refused.
pub proof fn lemma_throttle_refuses_within_window(t: u64, later: u64)
    requires
        later < t + REPORT_RC_INTERVAL_SECS * NANOS_PER_SEC,
    ensures
        !throttle_allows(Some(t), later),
{
    if later > t {
        assert(((later - t) as int) / (NANOS_PER_SEC as int) < 60) by (nonlinear_arith)
            requires
                (later - t) < 60 * 1_000_000_000int,
                NANOS_PER_SEC == 1_000_000_000,
        ;
    }
}

/// After a call went out at `t`, one 60 seconds or more later goes out.
pub proof fn lemma_throttle_allows_after_window(t: u64, later: u64)
    requires
        later >= t + REPORT_RC_INTERVAL_SECS * NANOS_PER_SEC,
    ensures
        throttle_allows(Some(t), later),
{
    assert(((later - t) as int) / (NANOS_PER_SEC as int) >= 60) by (nonlinear_arith)
        requires
            (later - t) >= 60 * 1_000_000_000int,
            NANOS_PER_SEC == 1_000_000_000,
    ;
}

// ---------------------------------------------------------------------
// Merging report lists
// ---------------------------------------------------------------------
/// One research report: its date, title, and what else the source gave.
pub struct ResearchReportItem {
    pub date: String,
    pub title: String,
    pub org_name: Option<String>,
    pub author: Option<String>,
    pub pdf_url: Option<String>,
}

/// A report as plain texts.
pub type ReportView = (Seq<char>, Seq<char>, Option<Seq<char>>, Option<Seq<char>>, Option<Seq<char>>);

/// The text of an optional string.
pub open spec fn opt_text(o: Option<String>) -> Option<Seq<char>> {
    match o {
        Some(s) => Some(s@),
        None => None,
    }
}

impl ResearchReportItem {
    pub open spec fn view(&self) -> ReportView {
        (self.date@, self.title@, opt_text(self.org_name), opt_text(self.author), opt_text(self.pdf_url))
    }

    /// A field-by-field copy.
    pub fn duplicate(&self) -> (r: Self)
        ensures
            r.view() == self.view(),
    {
        ResearchReportItem {
            date: owned(self.date.as_str()),
            title: owned(self.title.as_str()),
            org_name: copy_opt(&self.org_name),
            author: copy_opt(&self.author),
            pdf_url: copy_opt(&self.pdf_url),
        }
    }
}

fn copy_opt(o: &Option<String>) -> (r: Option<String>)
    ensures
        opt_text(r) == opt_text(*o),
{
    match o {
        Some(s) => Some(owned(s.as_str())),
        None => None,
    }
}

/// Views of a list of reports.
pub open spec fn report_views(s: Seq<ResearchReportItem>) -> Seq<ReportView> {
    s.map_values(|r: ResearchReportItem| r.view())
}

/// The key two copies of one report share: date, `|`, title.
pub open spec fn report_key(r: ReportView) -> Seq<char> {
    r.0 + "|"@ + r.1
}

/// Whether some report of `s` has key `k`.
pub open spec fn has_key(s: Seq<ReportView>, k: Seq<char>) -> bool {
    exists|i: int| 0 <= i < s.len() && report_key(#[trigger] s[i]) == k
}

/// The first report of each key, in order.
pub open spec fn dedup_reports(s: Seq<ReportView>) -> Seq<ReportView>
    decreases s.len(),
{
    if s.len() == 0 {
        Seq::empty()
    } else if has_key(s.drop_last(), report_key(s.last())) {
        dedup_reports(s.drop_last())
    } else {
        dedup_reports(s.drop_last()).push(s.last())
    }
}

/// The date of a report.
pub open spec fn report_date() -> spec_fn(ReportView) -> Seq<char> {
    |r: ReportView| r.0
}

/// Where a report of date `d` goes in a newest-first list.
pub open spec fn insert_pos(s: Seq<ReportView>, d: Seq<char>) -> int {
    insert_pos_by(s, report_date(), d)
}

/// A stable newest-first sort of reports by date.
pub open spec fn sort_by_date_desc(s: Seq<ReportView>) -> Seq<ReportView> {
    sort_desc_by(s, report_date())
}

/// The merged list: the first report of each key over `e` then `t`,
/// newest first, reports of one date in that order.
pub open spec fn merged_reports(t: Seq<ReportView>, e: Seq<ReportView>) -> Seq<ReportView> {
    sort_by_date_desc(dedup_reports(e + t))
}

/// No later report has a later date than an earlier one.
pub open spec fn newest_first(s: Seq<ReportView>) -> bool {
    newest_first_by(s, report_date())
}

/// No two reports share a key.
pub open spec fn distinct_keys(s: Seq<ReportView>) -> bool {
    forall|i: int, j: int| 0 <= i < j < s.len() ==> report_key(s[i]) != report_key(s[j])
}

proof fn lemma_dedup_keys(s: Seq<ReportView>)
    ensures
        distinct_keys(dedup_reports(s)),
        forall|k: Seq<char>|
            #![trigger has_key(dedup_reports(s), k)]
            #![trigger has_key(s, k)]
            has_key(dedup_reports(s), k) <==> has_key(s, k),
        forall|x: ReportView| #[trigger] dedup_reports(s).contains(x) ==> s.contains(x),
    decreases s.len(),
{
    if s.len() > 0 {
        let p = s.drop_last();
        lemma_dedup_keys(p);
        let d = dedup_reports(p);
        assert forall|k: Seq<char>| has_key(dedup_reports(s), k) <==> has_key(s, k) by {
            if has_key(s, k) {
                let i = choose|i: int| 0 <= i < s.len() && report_key(#[trigger] s[i]) == k;
                if i < p.len() {
                    assert(report_key(p[i]) == k);
                    assert(has_key(p, k));
                    let j = choose|j: int| 0 <= j < d.len() && report_key(#[trigger] d[j]) == k;
                    assert(report_key(dedup_reports(s)[j]) == k);
                } else if !has_key(p, report_key(s.last())) {
                    assert(report_key(dedup_reports(s)[d.len() as int]) == k);
                } else {
                    assert(has_key(p, k));
                    let j = choose|j: int| 0 <= j < d.len() && report_key(#[trigger] d[j]) == k;
                    assert(report_key(dedup_reports(s)[j]) == k);
                }
            }
            if has_key(dedup_reports(s), k) {
                let j = choose|j: int| 0 <= j < dedup_reports(s).len() && report_key(
                    #[trigger] dedup_reports(s)[j],
                ) == k;
                if j < d.len() {
                    assert(dedup_reports(s)[j] == d[j]);
                    assert(has_key(d, k));
                    let i = choose|i: int| 0 <= i < p.len() && report_key(#[trigger] p[i]) == k;
                    assert(s[i] == p[i]);
                } else {
                    assert(report_key(s[s.len() - 1]) == k);
                }
            }
        }
        assert forall|x: ReportView| dedup_reports(s).contains(x) implies s.contains(x) by {
            let j = choose|j: int| 0 <= j < dedup_reports(s).len() && dedup_reports(s)[j] == x;
            if j < d.len() {
                assert(d[j] == x);
                assert(d.contains(x));
                let i = choose|i: int| 0 <= i < p.len() && p[i] == x;
                assert(s[i] == x);
            } else {
                assert(s[s.len() - 1] == x);
            }
        }
        if !has_key(p, report_key(s.last())) {
            let r = d.push(s.last());
            assert forall|i: int, j: int| 0 <= i < j < r.len() implies report_key(r[i]) != report_key(
                r[j],
            ) by {
                if j == d.len() {
                    assert(r[i] == d[i]);
                    if report_key(d[i]) == report_key(s.last()) {
                        assert(has_key(d, report_key(s.last())));
                    }
                } else {
                    assert(r[i] == d[i] && r[j] == d[j]);
                }
            }
        }
    }
}

/// The merged list is newest first.
pub proof fn lemma_merged_newest_first(t: Seq<ReportView>, e: Seq<ReportView>)
    ensures
        newest_first(merged_reports(t, e)),
{
    lemma_sort_newest_first(dedup_reports(e + t), report_date());
}

/// The merged list holds the first report of each key over both lists
/// (the second list's first), each once: nothing lost, nothing added.
pub proof fn lemma_merged_is_deduped_union(t: Seq<ReportView>, e: Seq<ReportView>)
    ensures
        merged_reports(t, e).to_multiset() == dedup_reports(e + t).to_multiset(),
        forall|k: Seq<char>| has_key(merged_reports(t, e), k) <==> (has_key(t, k) || has_key(e, k)),
        forall|x: ReportView| merged_reports(t, e).contains(x) ==> (t.contains(x) || e.contains(x)),
{
    let s = e + t;
    let d = dedup_reports(s);
    let m = merged_reports(t, e);
    lemma_sort_multiset(d, report_date());
    lemma_dedup_keys(s);
    assert forall|x: ReportView| m.contains(x) <==> d.contains(x) by {
        vstd::seq_lib::to_multiset_contains(m, x);
        vstd::seq_lib::to_multiset_contains(d, x);
    }
    assert forall|k: Seq<char>| has_key(m, k) <==> (has_key(t, k) || has_key(e, k)) by {
        if has_key(m, k) {
            let j = choose|j: int| 0 <= j < m.len() && report_key(#[trigger] m[j]) == k;
            assert(m.contains(m[j]));
            let i = choose|i: int| 0 <= i < d.len() && d[i] == m[j];
            assert(has_key(d, k));
        }
        if has_key(d, k) {
            let i = choose|i: int| 0 <= i < d.len() && report_key(#[trigger] d[i]) == k;
            assert(d.contains(d[i]));
            let j = choose|j: int| 0 <= j < m.len() && m[j] == d[i];
            assert(has_key(m, k));
        }
        if has_key(s, k) {
            let i = choose|i: int| 0 <= i < s.len() && report_key(#[trigger] s[i]) == k;
            if i < e.len() {
                assert(s[i] == e[i]);
            } else {
                assert(s[i] == t[i - e.len()]);
            }
        }
        if has_key(e, k) {
            let i = choose|i: int| 0 <= i < e.len() && report_key(#[trigger] e[i]) == k;
            assert(s[i] == e[i]);
        }
        if has_key(t, k) {
            let i = choose|i: int| 0 <= i < t.len() && report_key(#[trigger] t[i]) == k;
            assert(s[i + e.len()] == t[i]);
        }
    }
    assert forall|x: ReportView| m.contains(x) implies (t.contains(x) || e.contains(x)) by {
        assert(d.contains(x));
        assert(s.contains(x));
        let i = choose|i: int| 0 <= i < s.len() && s[i] == x;
        if i < e.len() {
            assert(e[i] == x);
        } else {
            assert(t[i - e.len()] == x);
        }
    }
}

/// No two reports of the merged list share a date and title.
pub proof fn lemma_merged_keys_distinct(t: Seq<ReportView>, e: Seq<ReportView>)
    ensures
        distinct_keys(merged_reports(t, e)),
{
    let d = dedup_reports(e + t);
    let m = merged_reports(t, e);
    lemma_dedup_keys(e + t);
    lemma_sort_multiset(d, report_date());
    lemma_sort_len(d, report_date());
    assert forall|i: int, j: int| 0 <= i < j < m.len() implies report_key(m[i]) != report_key(m[j]) by {
        if report_key(m[i]) == report_key(m[j]) {
            vstd::seq_lib::to_multiset_contains(m, m[i]);
            vstd::seq_lib::to_multiset_contains(d, m[i]);
            vstd::seq_lib::to_multiset_contains(m, m[j]);
            vstd::seq_lib::to_multiset_contains(d, m[j]);
            let a = choose|a: int| 0 <= a < d.len() && d[a] == m[i];
            let b = choose|b: int| 0 <= b < d.len() && d[b] == m[j];
            if a == b {
                // Equal reports at two places of `m` occur twice in `d`.
                lemma_two_places_two_copies(m, i, j);
                lemma_distinct_keys_single_copy(d, a);
            }
        }
    }
}

proof fn lemma_two_places_two_copies(s: Seq<ReportView>, i: int, j: int)
    requires
        0 <= i < j < s.len(),
        s[i] == s[j],
    ensures
        s.to_multiset().count(s[i]) >= 2,
{
    let x = s[i];
    let r = s.remove(j);
    vstd::seq_lib::to_multiset_remove(s, j);
    assert(r[i] == x);
    vstd::seq_lib::to_multiset_contains(r, x);
    assert(r.contains(x));
}

proof fn lemma_distinct_keys_single_copy(s: Seq<ReportView>, a: int)
    requires
        0 <= a < s.len(),
        distinct_keys(s),
    ensures
        s.to_multiset().count(s[a]) == 1,
{
    let x = s[a];
    let r = s.remove(a);
    vstd::seq_lib::to_multiset_remove(s, a);
    vstd::seq_lib::to_multiset_contains(r, x);
    if r.contains(x) {
        let k = choose|k: int| 0 <= k < r.len() && r[k] == x;
        if k < a {
            assert(r[k] == s[k]);
        } else {
            assert(r[k] == s[k + 1]);
        }
    }
    vstd::seq_lib::to_multiset_contains(s, x);
}

/// The key of a report, as text.
fn key_of(r: &ResearchReportItem) -> (k: String)
    ensures
        k@ == report_key(r.view()),
{
    let mut k = owned(r.date.as_str());
    push_str(&mut k, "|");
    push_str(&mut k, r.title.as_str());
    k
}

/// Appends to `out` each report of `src` whose key `out` lacks.
fn append_unseen(out: &mut Vec<ResearchReportItem>, keys: &mut Vec<String>, src: &[ResearchReportItem], Ghost(done): Ghost<Seq<ReportView>>)
    requires
        report_views(old(out)@) == dedup_reports(done),
        old(keys)@.len() == old(out)@.len(),
        forall|i: int| 0 <= i < old(keys)@.len() ==> (#[trigger] old(keys)@[i])@ == report_key(old(out)@[i].view()),
    ensures
        report_views(final(out)@) == dedup_reports(done + report_views(src@)),
        final(keys)@.len() == final(out)@.len(),
        forall|i: int| 0 <= i < final(keys)@.len() ==> (#[trigger] final(keys)@[i])@ == report_key(final(out)@[i].view()),
{
    let mut i: usize = 0;
    assert(done + report_views(src@).take(0) =~= done);
    while i < src.len()
        invariant
            i <= src.len(),
            report_views(out@) == dedup_reports(done + report_views(src@).take(i as int)),
            keys@.len() == out@.len(),
            forall|j: int| 0 <= j < keys@.len() ==> (#[trigger] keys@[j])@ == report_key(out@[j].view()),
        decreases src.len() - i,
    {
        let ghost prefix = done + report_views(src@).take(i as int);
        let ghost next = done + report_views(src@).take(i + 1);
        assert(next.drop_last() =~= prefix);
        assert(next.last() == src@[i as int].view());
        let k = key_of(&src[i]);
        let mut seen = false;
        let mut j: usize = 0;
        while j < keys.len()
            invariant
                j <= keys.len(),
                keys@.len() == out@.len(),
                forall|m: int| 0 <= m < keys@.len() ==> (#[trigger] keys@[m])@ == report_key(out@[m].view()),
                seen == exists|m: int| 0 <= m < j && (#[trigger] keys@[m])@ == k@,
            decreases keys.len() - j,
        {
            if str_eq(keys[j].as_str(), k.as_str()) {
                seen = true;
            }
            j = j + 1;
        }
        proof {
            lemma_dedup_keys(prefix);
            let d = report_views(out@);
            assert(d.len() == out@.len());
            if seen {
                let m = choose|m: int| 0 <= m < j && (#[trigger] keys@[m])@ == k@;
                assert(report_key(d[m]) == k@);
                assert(has_key(d, k@));
            } else {
                if has_key(d, k@) {
                    let m = choose|m: int| 0 <= m < d.len() && report_key(#[trigger] d[m]) == k@;
                    assert(keys@[m]@ == k@);
                }
            }
        }
        if !seen {
            let ghost before = report_views(out@);
            out.push(src[i].duplicate());
            keys.push(k);
            assert(report_views(out@) =~= before.push(src@[i as int].view()));
        }
        i = i + 1;
    }
    assert(report_views(src@).take(src.len() as int) =~= report_views(src@));
}

/// Where a report of `date` goes in the newest-first `sorted`.
fn find_insert_pos(sorted: &Vec<ResearchReportItem>, date: &str) -> (p: usize)
    ensures
        p == insert_pos(report_views(sorted@), date@),
{
    let ghost s = report_views(sorted@);
    let mut i: usize = 0;
    assert(s.skip(0) =~= s);
    while i < sorted.len()
        invariant
            i <= sorted.len(),
            s == report_views(sorted@),
            insert_pos(s, date@) == i + insert_pos(s.skip(i as int), date@),
        decreases sorted.len() - i,
    {
        assert(s.skip(i as int)[0] == s[i as int]);
        assert(s.skip(i as int).drop_first() =~= s.skip(i + 1));
        if str_lt(sorted[i].date.as_str(), date) {
            return i;
        }
        i = i + 1;
    }
    assert(s.skip(sorted.len() as int) =~= Seq::<ReportView>::empty());
    i
}

/// Merges two report lists: the first report of each date and title
/// over `e` then `t`, newest first; reports of one date keep their order.
pub fn merge_reports(t: &[ResearchReportItem], e: &[ResearchReportItem]) -> (r: Vec<ResearchReportItem>)
    ensures
        report_views(r@) == merged_reports(report_views(t@), report_views(e@)),
{
    let mut deduped: Vec<ResearchReportItem> = Vec::new();
    let mut keys: Vec<String> = Vec::new();
    assert(report_views(deduped@) =~= dedup_reports(Seq::<ReportView>::empty()));
    append_unseen(&mut deduped, &mut keys, e, Ghost(Seq::<ReportView>::empty()));
    assert(Seq::<ReportView>::empty() + report_views(e@) =~= report_views(e@));
    append_unseen(&mut deduped, &mut keys, t, Ghost(report_views(e@)));
    let ghost d = report_views(deduped@);
    let mut sorted: Vec<ResearchReportItem> = Vec::new();
    let mut i: usize = 0;
    assert(d.take(0) =~= Seq::<ReportView>::empty());
    assert(report_views(sorted@) =~= sort_by_date_desc(d.take(0)));
    while i < deduped.len()
        invariant
            i <= deduped.len(),
            d == report_views(deduped@),
            report_views(sorted@) == sort_by_date_desc(d.take(i as int)),
        decreases deduped.len() - i,
    {
        assert(d.take(i + 1).drop_last() =~= d.take(i as int));
        assert(d.take(i + 1).last() == deduped@[i as int].view());
        let p = find_insert_pos(&sorted, deduped[i].date.as_str());
        proof {
            lemma_insert_pos_bounds(report_views(sorted@), report_date(), deduped@[i as int].view().0);
        }
        let ghost before = report_views(sorted@);
        sorted.insert(p, deduped[i].duplicate());
        assert(report_views(sorted@) =~= before.insert(p as int, deduped@[i as int].view()));
        i = i + 1;
    }
    assert(d.take(deduped.len() as int) =~= d);
    sorted
}

// ---------------------------------------------------------------------
// The reply
// ---------------------------------------------------------------------
/// Reports the reply lists.
pub const MAX_LISTED_REPORTS: usize = 15;

/// An optional text, or `-`.
pub open spec fn or_dash(o: Option<Seq<char>>) -> Seq<char> {
    match o {
        Some(s) => s,
        None => "-"@,
    }
}

/// One list line: `- [date] **title** — org (author) PDF: url`.
pub open spec fn report_line_text(r: ReportView) -> Seq<char> {
    "- ["@ + r.0 + "] **"@ + r.1 + "** — "@ + or_dash(r.2) + " ("@ + or_dash(r.3) + ") "@ + match r.4 {
        Some(u) => "PDF: "@ + u,
        None => Seq::empty(),
    } + "\n"@
}

/// The lines of reports, one after another.
pub open spec fn report_lines_text(s: Seq<ReportView>) -> Seq<char>
    decreases s.len(),
{
    if s.len() == 0 {
        Seq::empty()
    } else {
        report_lines_text(s.drop_last()) + report_line_text(s.last())
    }
}

/// The report list of the reply: the first fifteen, then a pointer to
/// `read_pdf`; nothing when there are none.
pub open spec fn reports_section_text(s: Seq<ReportView>) -> Seq<char> {
    if s.len() == 0 {
        Seq::empty()
    } else {
        "\n### 近 30 天研报列表\n\n"@ + report_lines_text(
            if s.len() > MAX_LISTED_REPORTS {
                s.take(MAX_LISTED_REPORTS as int)
            } else {
                s
            },
        ) + "\n_PDF URL 可交给 `read_pdf` 工具读全文。_\n"@
    }
}

fn push_opt_or_dash(out: &mut String, o: &Option<String>)
    ensures
        final(out)@ == old(out)@ + or_dash(opt_text(*o)),
{
    match o {
        Some(s) => push_str(out, s.as_str()),
        None => push_str(out, "-"),
    }
}

/// One list line of a report.
pub fn report_line(r: &ResearchReportItem) -> (line: String)
    ensures
        line@ == report_line_text(r.view()),
{
    let mut line = owned("- [");
    push_str(&mut line, r.date.as_str());
    push_str(&mut line, "] **");
    push_str(&mut line, r.title.as_str());
    push_str(&mut line, "** — ");
    push_opt_or_dash(&mut line, &r.org_name);
    push_str(&mut line, " (");
    push_opt_or_dash(&mut line, &r.author);
    push_str(&mut line, ") ");
    let ghost head = line@;
    match &r.pdf_url {
        Some(u) => {
            push_str(&mut line, "PDF: ");
            push_str(&mut line, u.as_str());
        },
        None => {},
    }
    let ghost with_url = line@;
    push_str(&mut line, "\n");
    proof {
        match r.view().4 {
            Some(u) => assert(with_url == head + ("PDF: "@ + u)),
            None => assert(with_url == head + Seq::<char>::empty()),
        }
    }
    line
}

/// The report list of the reply.
pub fn reports_section(merged: &Vec<ResearchReportItem>) -> (r: String)
    ensures
        r@ == reports_section_text(report_views(merged@)),
{
    let ghost s = report_views(merged@);
    proof {
        reveal_strlit("");
    }
    if merged.len() == 0 {
        return owned("");
    }
    let n: usize = if merged.len() > MAX_LISTED_REPORTS {
        MAX_LISTED_REPORTS
    } else {
        merged.len()
    };
    let ghost shown = if s.len() > MAX_LISTED_REPORTS {
        s.take(MAX_LISTED_REPORTS as int)
    } else {
        s
    };
    assert(shown =~= s.take(n as int));
    let mut lines = owned("");
    let mut i: usize = 0;
    assert(s.take(0) =~= Seq::<ReportView>::empty());
    while i < n
        invariant
            i <= n <= merged.len(),
            s == report_views(merged@),
            lines@ == report_lines_text(s.take(i as int)),
        decreases n - i,
    {
        assert(s.take(i + 1).drop_last() =~= s.take(i as int));
        let line = report_line(&merged[i]);
        push_str(&mut lines, line.as_str());
        i = i + 1;
    }
    let mut r = owned("\n### 近 30 天研报列表\n\n");
    push_str(&mut r, lines.as_str());
    push_str(&mut r, "\n_PDF URL 可交给 `read_pdf` 工具读全文。_\n");
    r
}

/// How the consensus ratings split.
pub struct RatingMix {
    pub buy: u64,
    pub overweight: u64,
    pub hold: u64,
    pub underweight: u64,
    pub sell: u64,
}

/// The rating line of the reply.
pub open spec fn rating_line_text(rc_count: u64, m: RatingMix) -> Seq<char> {
    "\n### 评级分布(本轮 "@ + decimal(rc_count as nat) + " 条) — 买入 "@ + decimal(m.buy as nat) + " / 增持 "@
        + decimal(m.overweight as nat) + " / 中性 "@ + decimal(m.hold as nat) + " / 减持 "@ + decimal(
        m.underweight as nat,
    ) + " / 卖出 "@ + decimal(m.sell as nat) + "\n"@
}

/// The rating line of the reply.
pub fn rating_line(rc_count: u64, m: &RatingMix) -> (r: String)
    ensures
        r@ == rating_line_text(rc_count, *m),
{
    let mut r = owned("\n### 评级分布(本轮 ");
    push_str(&mut r, fmt_u64(rc_count).as_str());
    push_str(&mut r, " 条) — 买入 ");
    push_str(&mut r, fmt_u64(m.buy).as_str());
    push_str(&mut r, " / 增持 ");
    push_str(&mut r, fmt_u64(m.overweight).as_str());
    push_str(&mut r, " / 中性 ");
    push_str(&mut r, fmt_u64(m.hold).as_str());
    push_str(&mut r, " / 减持 ");
    push_str(&mut r, fmt_u64(m.underweight).as_str());
    push_str(&mut r, " / 卖出 ");
    push_str(&mut r, fmt_u64(m.sell).as_str());
    push_str(&mut r, "\n");
    r
}

/// A broker's stock pick of the month.
pub struct BrokerPick {
    pub broker: String,
    pub name: String,
    pub ts_code: String,
}

/// A pick as plain texts: broker, name, code.
pub open spec fn pick_view(p: BrokerPick) -> (Seq<char>, Seq<char>, Seq<char>) {
    (p.broker@, p.name@, p.ts_code@)
}

/// Views of picks.
pub open spec fn pick_views(s: Seq<BrokerPick>) -> Seq<(Seq<char>, Seq<char>, Seq<char>)> {
    s.map_values(|p: BrokerPick| pick_view(p))
}

/// The picks of one stock code, in order.
pub open spec fn picks_of(s: Seq<(Seq<char>, Seq<char>, Seq<char>)>, code: Seq<char>) -> Seq<(Seq<char>, Seq<char>, Seq<char>)>
    decreases s.len(),
{
    if s.len() == 0 {
        Seq::empty()
    } else {
        picks_of(s.drop_last(), code) + if s.last().2 == code {
            seq![s.last()]
        } else {
            Seq::empty()
        }
    }
}

/// The month's picks of the stock `code`.
pub fn picks_for(picks: Vec<BrokerPick>, code: &str) -> (r: Vec<BrokerPick>)
    ensures
        pick_views(r@) == picks_of(pick_views(picks@), code@),
{
    let ghost all = pick_views(picks@);
    let mut r: Vec<BrokerPick> = Vec::new();
    let mut i: usize = 0;
    assert(all.take(0) =~= Seq::<(Seq<char>, Seq<char>, Seq<char>)>::empty());
    assert(pick_views(r@) =~= picks_of(all.take(0), code@));
    while i < picks.len()
        invariant
            i <= picks.len(),
            all == pick_views(picks@),
            pick_views(r@) == picks_of(all.take(i as int), code@),
        decreases picks.len() - i,
    {
        assert(all.take(i + 1).drop_last() =~= all.take(i as int));
        let ghost before = pick_views(r@);
        if str_eq(picks[i].ts_code.as_str(), code) {
            let p = BrokerPick {
                broker: owned(picks[i].broker.as_str()),
                name: owned(picks[i].name.as_str()),
                ts_code: owned(picks[i].ts_code.as_str()),
            };
            r.push(p);
            assert(pick_views(r@) =~= before + seq![all[i as int]]);
        } else {
            assert(pick_views(r@) =~= before + Seq::<(Seq<char>, Seq<char>, Seq<char>)>::empty());
        }
        i = i + 1;
    }
    assert(all.take(picks.len() as int) =~= all);
    r
}

/// The lines of picks: `- broker 推荐 name (code)`.
pub open spec fn pick_lines_text(s: Seq<(Seq<char>, Seq<char>, Seq<char>)>) -> Seq<char>
    decreases s.len(),
{
    if s.len() == 0 {
        Seq::empty()
    } else {
        pick_lines_text(s.drop_last()) + "- "@ + s.last().0 + " 推荐 "@ + s.last().1 + " ("@ + s.last().2 + ")\n"@
    }
}

/// The picks part of the reply; nothing when there are none.
pub open spec fn picks_section_text(month: Seq<char>, s: Seq<(Seq<char>, Seq<char>, Seq<char>)>) -> Seq<char> {
    if s.len() == 0 {
        Seq::empty()
    } else {
        "\n### 本月券商金股 ("@ + month + ") — "@ + decimal(s.len()) + " 家券商\n\n"@ + pick_lines_text(s)
    }
}

/// The picks part of the reply.
pub fn picks_section(month: &str, picks: &Vec<BrokerPick>) -> (r: String)
    ensures
        r@ == picks_section_text(month@, pick_views(picks@)),
{
    let ghost s = pick_views(picks@);
    proof {
        reveal_strlit("");
    }
    if picks.len() == 0 {
        return owned("");
    }
    let mut r = owned("\n### 本月券商金股 (");
    push_str(&mut r, month);
    push_str(&mut r, ") — ");
    push_str(&mut r, fmt_u64(picks.len() as u64).as_str());
    push_str(&mut r, " 家券商\n\n");
    let ghost head = r@;
    let mut i: usize = 0;
    assert(s.take(0) =~= Seq::<(Seq<char>, Seq<char>, Seq<char>)>::empty());
    while i < picks.len()
        invariant
            i <= picks.len(),
            s == pick_views(picks@),
            r@ == head + pick_lines_text(s.take(i as int)),
        decreases picks.len() - i,
    {
        assert(s.take(i + 1).drop_last() =~= s.take(i as int));
        push_str(&mut r, "- ");
        push_str(&mut r, picks[i].broker.as_str());
        push_str(&mut r, " 推荐 ");
        push_str(&mut r, picks[i].name.as_str());
        push_str(&mut r, " (");
        push_str(&mut r, picks[i].ts_code.as_str());
        push_str(&mut r, ")\n");
        i = i + 1;
    }
    assert(s.take(picks.len() as int) =~= s);
    r
}

/// How the consensus call ended.
pub enum ConsensusOutcome {
    /// It went out and answered.
    Fetched,
    /// It went out and failed with this message.
    Failed(String),
    /// The throttle held it back.
    Throttled,
}

/// The missing dimensions, in the order the calls are read.
pub open spec fn missing_dimensions(rc: ConsensusOutcome, tushare_reports: bool, eastmoney_reports: bool, broker_ok: bool) -> Seq<Seq<char>> {
    (match rc {
        ConsensusOutcome::Fetched => Seq::empty(),
        ConsensusOutcome::Failed(m) => seq!["report_rc:"@ + m@],
        ConsensusOutcome::Throttled => seq!["report_rc:throttled"@],
    }) + (if tushare_reports {
        Seq::empty()
    } else {
        seq!["research_report"@]
    }) + (if eastmoney_reports {
        Seq::empty()
    } else {
        seq!["eastmoney_reports"@]
    }) + (if broker_ok {
        Seq::empty()
    } else {
        seq!["broker_recommend"@]
    })
}

/// The sources that answered, each stamped with the day.
pub open spec fn answered_sources(today: Seq<char>, rc: ConsensusOutcome, tushare_reports: bool, eastmoney_reports: bool, broker_ok: bool) -> Seq<Seq<char>> {
    (if rc is Fetched {
        seq!["Tushare report_rc @ "@ + today]
    } else {
        Seq::empty()
    }) + (if tushare_reports {
        seq!["Tushare research_report @ "@ + today]
    } else {
        Seq::empty()
    }) + (if eastmoney_reports {
        seq!["EastMoney reportapi.list @ "@ + today]
    } else {
        Seq::empty()
    }) + (if broker_ok {
        seq!["Tushare broker_recommend @ "@ + today]
    } else {
        Seq::empty()
    })
}

/// Sorts the answers of the four calls into missing dimensions and
/// sources; `tushare_reports` and `eastmoney_reports` say whether that
/// list came back non-empty.
pub fn sentiment_sources(today: &str, rc: &ConsensusOutcome, tushare_reports: bool, eastmoney_reports: bool, broker_ok: bool) -> (r: Coverage)
    ensures
        views(r.empty_dimensions@) == missing_dimensions(*rc, tushare_reports, eastmoney_reports, broker_ok),
        views(r.sources@) == answered_sources(today@, *rc, tushare_reports, eastmoney_reports, broker_ok),
{
    let mut dims: Vec<String> = Vec::new();
    let mut sources: Vec<String> = Vec::new();
    assert(views(dims@) =~= Seq::<Seq<char>>::empty());
    assert(views(sources@) =~= Seq::<Seq<char>>::empty());
    match rc {
        ConsensusOutcome::Fetched => push_stamped(&mut sources, "Tushare report_rc @ ", today),
        ConsensusOutcome::Failed(m) => {
            let mut d = owned("report_rc:");
            push_str(&mut d, m.as_str());
            push_text(&mut dims, d);
        },
        ConsensusOutcome::Throttled => push_text(&mut dims, owned("report_rc:throttled")),
    }
    let ghost d1 = views(dims@);
    let ghost s1 = views(sources@);
    if tushare_reports {
        push_stamped(&mut sources, "Tushare research_report @ ", today);
    } else {
        push_text(&mut dims, owned("research_report"));
    }
    let ghost d2 = views(dims@);
    let ghost s2 = views(sources@);
    if eastmoney_reports {
        push_stamped(&mut sources, "EastMoney reportapi.list @ ", today);
    } else {
        push_text(&mut dims, owned("eastmoney_reports"));
    }
    let ghost d3 = views(dims@);
    let ghost s3 = views(sources@);
    if broker_ok {
        push_stamped(&mut sources, "Tushare broker_recommend @ ", today);
    } else {
        push_text(&mut dims, owned("broker_recommend"));
    }
    assert(views(dims@) =~= missing_dimensions(*rc, tushare_reports, eastmoney_reports, broker_ok));
    assert(views(sources@) =~= answered_sources(today@, *rc, tushare_reports, eastmoney_reports, broker_ok));
    Coverage { empty_dimensions: dims, sources }
}


/// The card of the tool: its display name and card kind.
pub fn ui() -> (u: ToolUi)
    ensures
        u.display_name@ == "卖方研报"@,
        card_of(u.result) == Some("research_sentiment"@),
{
    ToolUi { display_name: "卖方研报", result: ResultArtifact::Card("research_sentiment") }
}

/// The card summary of a call: its symbol, as a snippet.
pub open spec fn ui_summary_of(args: Json) -> Seq<char> {
    "研报 · "@ + snippet(str_or(args, "symbol"@, ""@))
}

/// `ui_summary_of` the call's arguments.
pub fn ui_summary(args: &Json) -> (r: String)
    ensures
        r@ == ui_summary_of(*args),
{
    let s = str_arg_or(args, "symbol", "");
    let mut out = owned("研报 · ");
    push_str(&mut out, summary_snippet(s).as_str());
    out
}


/// The reply of a call: the report overview `md` followed by the closing
/// lines, and the payload `{"kind": "research_sentiment", "symbol",
/// "forecasts", "rating_mix", "rc_count", "reports", "broker_picks",
/// "empty_dimensions", "sources"}`; the debug view names the symbol as
/// given and as normalised, and whether the throttle let the consensus
/// call out.
pub fn sentiment_reply(
    dotted: &str,
    raw: &str,
    forecasts: Json,
    rating_mix: Json,
    rc_count: u64,
    reports: Json,
    broker_picks: Json,
    throttle_allowed: bool,
    md: String,
    c: &Coverage,
) -> (r: ToolOutcome)
    ensures
        !r.is_error,
        r.model_output@ == md@ + closing_text(views(c.empty_dimensions@), views(c.sources@)),
        r.display_payload matches Json::Object(m) && str_at(m@, 0, "kind"@, "research_sentiment"@) && str_at(
            m@,
            1,
            "symbol"@,
            dotted@,
        ) && json_at(m@, 2, "forecasts"@, forecasts) && json_at(m@, 3, "rating_mix"@, rating_mix) && u64_at(
            m@,
            4,
            "rc_count"@,
            rc_count,
        ) && json_at(m@, 5, "reports"@, reports) && json_at(m@, 6, "broker_picks"@, broker_picks) && coverage_tail(
            m@,
            7,
            *c,
        ),
        r.debug_payload matches Json::Object(d) && d@.len() == 3 && str_at(d@, 0, "symbol_input"@, raw@) && str_at(
            d@,
            1,
            "symbol_normalized"@,
            dotted@,
        ) && bool_at(d@, 2, "throttle_allowed"@, throttle_allowed),
{
    let mut text = md;
    let closing = closing_lines(c);
    push_str(&mut text, closing.as_str());
    let mut head: Vec<(String, Json)> = Vec::new();
    head.push(text_member("kind", "research_sentiment"));
    head.push(text_member("symbol", dotted));
    head.push(member("forecasts", forecasts));
    head.push(member("rating_mix", rating_mix));
    head.push(u64_member("rc_count", rc_count));
    head.push(member("reports", reports));
    head.push(member("broker_picks", broker_picks));
    let mut dm: Vec<(String, Json)> = Vec::new();
    dm.push(text_member("symbol_input", raw));
    dm.push(text_member("symbol_normalized", dotted));
    dm.push(bool_member("throttle_allowed", throttle_allowed));
    let ghost h = head@;
    let r = coverage_reply(text, head, c, Json::Object(dm));
    proof {
        lemma_head(r.display_payload->Object_0@, h);
    }
    r
}


/// The first step of a call: the throttle decides whether the consensus
/// call goes out. `None` means it goes out now (and the throttle records
/// the time); `Some(Throttled)` means it is held back, no call is made,
/// and that is its outcome.
pub fn consensus_plan(t: &mut ReportThrottle, now: u64) -> (r: Option<ConsensusOutcome>)
    ensures
        throttle_allows(old(t).last, now) ==> r is None && final(t).last == Some(now),
        !throttle_allows(old(t).last, now) ==> r == Some(ConsensusOutcome::Throttled) && final(t).last == old(
            t,
        ).last,
{
    if t.try_acquire_report_rc(now) {
        None
    } else {
        Some(ConsensusOutcome::Throttled)
    }
}

/// The reply of a call once its four sources are in: the coverage is
/// sorted from their outcomes, the overview `md` is closed with it, and
/// the debug view says the consensus call went out exactly when its
/// outcome is not `Throttled`.
pub fn research_reply(
    dotted: &str,
    raw: &str,
    rc: &ConsensusOutcome,
    forecasts: Json,
    rating_mix: Json,
    rc_count: u64,
    tushare_reports: bool,
    eastmoney_reports: bool,
    broker_ok: bool,
    reports: Json,
    broker_picks: Json,
    md: String,
    today: &str,
) -> (r: ToolOutcome)
    ensures
        !r.is_error,
        r.model_output@ == md@ + closing_text(
            missing_dimensions(*rc, tushare_reports, eastmoney_reports, broker_ok),
            answered_sources(today@, *rc, tushare_reports, eastmoney_reports, broker_ok),
        ),
        r.display_payload matches Json::Object(m) && str_at(m@, 0, "kind"@, "research_sentiment"@) && str_at(
            m@,
            1,
            "symbol"@,
            dotted@,
        ) && json_at(m@, 2, "forecasts"@, forecasts) && json_at(m@, 3, "rating_mix"@, rating_mix) && u64_at(
            m@,
            4,
            "rc_count"@,
            rc_count,
        ) && json_at(m@, 5, "reports"@, reports) && json_at(m@, 6, "broker_picks"@, broker_picks) && array_at(
            m@,
            7,
            "empty_dimensions"@,
            missing_dimensions(*rc, tushare_reports, eastmoney_reports, broker_ok),
        ) && array_at(
            m@,
            8,
            "sources"@,
            answered_sources(today@, *rc, tushare_reports, eastmoney_reports, broker_ok),
        ) && m@.len() == 9,
        r.debug_payload matches Json::Object(d) && d@.len() == 3 && str_at(d@, 0, "symbol_input"@, raw@) && str_at(
            d@,
            1,
            "symbol_normalized"@,
            dotted@,
        ) && bool_at(d@, 2, "throttle_allowed"@, !(*rc is Throttled)),
{
    let c = sentiment_sources(today, rc, tushare_reports, eastmoney_reports, broker_ok);
    let allowed = match rc {
        ConsensusOutcome::Throttled => false,
        _ => true,
    };
    sentiment_reply(dotted, raw, forecasts, rating_mix, rc_count, reports, broker_picks, allowed, md, &c)
}

/// A consensus call made less than 60 seconds after the last one that
/// went out is held back without a call, and the reply says so as the
/// missing dimension `report_rc:throttled`, never as an error.
pub proof fn lemma_throttled_consensus_is_a_gap(
    t: u64,
    now: u64,
    tushare_reports: bool,
    eastmoney_reports: bool,
    broker_ok: bool,
)
    requires
        now < t + REPORT_RC_INTERVAL_SECS * NANOS_PER_SEC,
    ensures
        !throttle_allows(Some(t), now),
        missing_dimensions(ConsensusOutcome::Throttled, tushare_reports, eastmoney_reports, broker_ok)[0]
            == "report_rc:throttled"@,
        missing_dimensions(ConsensusOutcome::Throttled, tushare_reports, eastmoney_reports, broker_ok).contains(
            "report_rc:throttled"@,
        ),
{
    lemma_throttle_refuses_within_window(t, now);
    let d = missing_dimensions(ConsensusOutcome::Throttled, tushare_reports, eastmoney_reports, broker_ok);
    assert(d[0] == "report_rc:throttled"@);
}

} // verus!
