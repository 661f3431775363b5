//! `recent_actions`: the event stream of one stock: announcements of two
//! sources merged by title within the day window, events newest first,
//! and the reply listing them.
use vstd::prelude::*;

use crate::coverage::{
    array_at, array_member, bool_at, bool_member, coverage_reply, coverage_tail, json_at,
    lemma_head, member, str_at, text_member, u64_at, u64_member,
};
use crate::tools::ToolOutcome;
use crate::coverage::Coverage;

use crate::tools::{card_of, str_arg_or, summary_snippet, snippet, ToolUi, ResultArtifact};
use crate::tool_args::str_or;
use crate::json::{arg_u64, get_u64, Json};

use crate::date_order::{
    insert_pos_by, lemma_insert_pos_bounds, lemma_sort_len, lemma_sort_multiset, lemma_sort_newest_first, newest_first_by,
    sort_desc_by, str_lt,
};
use crate::text::{decimal, fmt_u64, join, join_strings, owned, push_str, views};
use crate::tool_args::is_one_of;

verus! {

/// Most events one reply lists.
pub const MAX_EVENTS: usize = 80;

// ---------------------------------------------------------------------
// Dates
// ---------------------------------------------------------------------
/// The calendar date `NaiveDate::parse_from_str(s, "%Y-%m-%d")` reads in
/// a text, as (year, month, day), if it reads one.
pub uninterp spec fn ymd_date(s: Seq<char>) -> Option<(i32, u32, u32)>;

/// `chrono::NaiveDate::parse_from_str(s, "%Y-%m-%d")`, as (year, month,
/// day); the result is `ymd_date` of the text. Which texts parse, and to
/// which date, is chrono's and is not restated here.
#[verifier::external_body]
fn parse_ymd(s: &str) -> (r: Option<(i32, u32, u32)>)
    ensures
        r == ymd_date(s@),
{
    chrono::NaiveDate::parse_from_str(s, "%Y-%m-%d").ok().map(
        |d| (chrono::Datelike::year(&d), chrono::Datelike::month(&d), chrono::Datelike::day(&d)),
    )
}

/// Calendar order of (year, month, day) triples.
pub open spec fn date_le(a: (i32, u32, u32), b: (i32, u32, u32)) -> bool {
    a.0 < b.0 || (a.0 == b.0 && (a.1 < b.1 || (a.1 == b.1 && a.2 <= b.2)))
}

fn date_le_exec(a: (i32, u32, u32), b: (i32, u32, u32)) -> (r: bool)
    ensures
        r == date_le(a, b),
{
    a.0 < b.0 || (a.0 == b.0 && (a.1 < b.1 || (a.1 == b.1 && a.2 <= b.2)))
}

/// Whether an event dated `d` falls in `[start, today]`; a date that does
/// not parse is kept.
pub open spec fn in_window(d: Seq<char>, start: (i32, u32, u32), today: (i32, u32, u32)) -> bool {
    match ymd_date(d) {
        Some(x) => date_le(start, x) && date_le(x, today),
        None => true,
    }
}

/// Whether an event dated `d` falls in the window.
pub fn date_in_window(d: &str, start: (i32, u32, u32), today: (i32, u32, u32)) -> (r: bool)
    ensures
        r == in_window(d@, start, today),
{
    match parse_ymd(d) {
        Some(x) => date_le_exec(start, x) && date_le_exec(x, today),
        None => true,
    }
}

// ---------------------------------------------------------------------
// Events
// ---------------------------------------------------------------------
/// One event of the stream.
pub struct EventItem {
    pub date: String,
    pub kind: String,
    pub title: String,
    pub abstract_text: Option<String>,
    pub url: Option<String>,
}

/// An event as texts.
pub type EventView = (Seq<char>, Seq<char>, Seq<char>, Option<Seq<char>>, Option<Seq<char>>);

/// The text of an optional string.
pub open spec fn opt_text(o: Option<String>) -> Option<Seq<char>> {
    match o {
        Some(s) => Some(s@),
        None => None,
    }
}

impl EventItem {
    pub open spec fn view(&self) -> EventView {
        (self.date@, self.kind@, self.title@, opt_text(self.abstract_text), opt_text(self.url))
    }
}

/// Views of events.
pub open spec fn event_views(s: Seq<EventItem>) -> Seq<EventView> {
    s.map_values(|e: EventItem| e.view())
}

/// The date of an event.
pub open spec fn event_date() -> spec_fn(EventView) -> Seq<char> {
    |e: EventView| e.0
}

/// The events of a reply: newest first (events of one date in the order
/// they came), at most eighty.
pub open spec fn ordered_events(s: Seq<EventView>) -> Seq<EventView> {
    let sorted = sort_desc_by(s, event_date());
    if sorted.len() > MAX_EVENTS {
        sorted.take(MAX_EVENTS as int)
    } else {
        sorted
    }
}

/// The reply lists at most eighty events, newest first, each one of the
/// events given; with eighty or fewer it lists them all.
pub proof fn lemma_ordered_events(s: Seq<EventView>)
    ensures
        ordered_events(s).len() <= MAX_EVENTS,
        newest_first_by(ordered_events(s), event_date()),
        forall|i: int| 0 <= i < ordered_events(s).len() ==> s.contains(#[trigger] ordered_events(s)[i]),
        s.len() <= MAX_EVENTS ==> ordered_events(s).to_multiset() == s.to_multiset(),
{
    let sorted = sort_desc_by(s, event_date());
    lemma_sort_len(s, event_date());
    lemma_sort_newest_first(s, event_date());
    lemma_sort_multiset(s, event_date());
    let o = ordered_events(s);
    assert forall|i: int, j: int| 0 <= i < j < o.len() implies !crate::date_order::seq_lt(
        #[trigger] (event_date())(o[i]),
        #[trigger] (event_date())(o[j]),
    ) by {
        assert(o[i] == sorted[i] && o[j] == sorted[j]);
        assert(!crate::date_order::seq_lt((event_date())(sorted[i]), (event_date())(sorted[j])));
    }
    assert forall|i: int| 0 <= i < o.len() implies s.contains(#[trigger] o[i]) by {
        assert(o[i] == sorted[i]);
        assert(sorted.contains(sorted[i]));
        vstd::seq_lib::to_multiset_contains(sorted, sorted[i]);
        vstd::seq_lib::to_multiset_contains(s, sorted[i]);
    }
}

fn find_event_pos(sorted: &Vec<EventItem>, date: &str) -> (p: usize)
    ensures
        p == insert_pos_by(event_views(sorted@), event_date(), date@),
{
    let ghost s = event_views(sorted@);
    let mut i: usize = 0;
    assert(s.skip(0) =~= s);
    while i < sorted.len()
        invariant
            i <= sorted.len(),
            s == event_views(sorted@),
            insert_pos_by(s, event_date(), date@) == i + insert_pos_by(s.skip(i as int), event_date(), date@),
        decreases sorted.len() - i,
    {
        assert(s.skip(i as int)[0] == s[i as int]);
        assert(s.skip(i as int).drop_first() =~= s.skip(i + 1));
        if str_lt(sorted[i].date.as_str(), date) {
            return i;
        }
        i = i + 1;
    }
    assert(s.skip(sorted.len() as int) =~= Seq::<EventView>::empty());
    i
}

/// Orders the events of a reply: newest first, at most eighty.
pub fn order_events(events: Vec<EventItem>) -> (r: Vec<EventItem>)
    ensures
        event_views(r@) == ordered_events(event_views(events@)),
{
    let ghost all = event_views(events@);
    let mut rest = events;
    let count = rest.len();
    assert(all.len() == count);
    let mut sorted: Vec<EventItem> = Vec::new();
    let mut taken: usize = 0;
    assert(all.take(0) =~= Seq::<EventView>::empty());
    assert(event_views(sorted@) =~= sort_desc_by(all.take(0), event_date()));
    while rest.len() > 0
        invariant
            taken <= all.len(),
            all.len() <= usize::MAX,
            event_views(rest@) == all.skip(taken as int),
            event_views(sorted@) == sort_desc_by(all.take(taken as int), event_date()),
        decreases rest.len(),
    {
        let ghost before_rest = event_views(rest@);
        let e = rest.remove(0);
        assert(event_views(rest@) =~= before_rest.drop_first());
        assert(all.skip(taken as int)[0] == e.view());
        assert(all.skip(taken as int).drop_first() =~= all.skip(taken + 1));
        assert(all.take(taken + 1).drop_last() =~= all.take(taken as int));
        assert(all.take(taken + 1).last() == e.view());
        let p = find_event_pos(&sorted, e.date.as_str());
        proof {
            lemma_insert_pos_bounds(event_views(sorted@), event_date(), e.view().0);
        }
        let ghost before = event_views(sorted@);
        let ghost ev = e.view();
        sorted.insert(p, e);
        assert(event_views(sorted@) =~= before.insert(p as int, ev));
        taken = taken + 1;
    }
    assert(all.skip(taken as int).len() == 0);
    assert(all.take(taken as int) =~= all);
    let ghost full = event_views(sorted@);
    sorted.truncate(MAX_EVENTS);
    assert(event_views(sorted@) =~= ordered_events(all));
    sorted
}

// ---------------------------------------------------------------------
// Announcements
// ---------------------------------------------------------------------
/// One announcement as a source lists it.
pub struct AnnouncementRow {
    pub date: String,
    pub title: String,
    pub category: Option<String>,
    pub url: Option<String>,
    pub pdf_url: Option<String>,
}

/// The event of an announcement: the second source links its PDF when it
/// has one.
pub open spec fn announcement_event(r: AnnouncementRow, second_source: bool) -> EventView {
    (
        r.date@,
        "announcement"@,
        r.title@,
        opt_text(r.category),
        if second_source && r.pdf_url is Some {
            opt_text(r.pdf_url)
        } else {
            opt_text(r.url)
        },
    )
}

/// Whether some event has title `t`.
pub open spec fn has_title(events: Seq<EventView>, t: Seq<char>) -> bool {
    exists|i: int| 0 <= i < events.len() && (#[trigger] events[i]).2 == t
}

/// The announcement events of rows in order (each tagged with whether it
/// comes from the second source): rows outside the window and rows whose
/// title an earlier event has are skipped.
pub open spec fn announcement_events(
    rows: Seq<(AnnouncementRow, bool)>,
    start: (i32, u32, u32),
    today: (i32, u32, u32),
) -> Seq<EventView>
    decreases rows.len(),
{
    if rows.len() == 0 {
        Seq::empty()
    } else {
        let prev = announcement_events(rows.drop_last(), start, today);
        let (r, second) = rows.last();
        if in_window(r.date@, start, today) && !has_title(prev, r.title@) {
            prev.push(announcement_event(r, second))
        } else {
            prev
        }
    }
}

/// The rows of the first source, then those of the second, tagged.
pub open spec fn tagged(first: Seq<AnnouncementRow>, second: Seq<AnnouncementRow>) -> Seq<(AnnouncementRow, bool)> {
    first.map_values(|r: AnnouncementRow| (r, false)) + second.map_values(|r: AnnouncementRow| (r, true))
}

fn copy_opt(o: &Option<String>) -> (r: Option<String>)
    ensures
        opt_text(r) == opt_text(*o),
{
    match o {
        Some(s) => Some(owned(s.as_str())),
        None => None,
    }
}

fn event_of(r: &AnnouncementRow, second: bool) -> (e: EventItem)
    ensures
        e.view() == announcement_event(*r, second),
{
    let url = if second && r.pdf_url.is_some() {
        copy_opt(&r.pdf_url)
    } else {
        copy_opt(&r.url)
    };
    EventItem {
        date: owned(r.date.as_str()),
        kind: owned("announcement"),
        title: owned(r.title.as_str()),
        abstract_text: copy_opt(&r.category),
        url,
    }
}

/// Adds the events of `rows` to `events`, keeping `titles` the titles of
/// the events.
fn add_announcements(
    events: &mut Vec<EventItem>,
    titles: &mut Vec<String>,
    rows: &Vec<AnnouncementRow>,
    second: bool,
    start: (i32, u32, u32),
    today: (i32, u32, u32),
    Ghost(done): Ghost<Seq<(AnnouncementRow, bool)>>,
)
    requires
        event_views(old(events)@) == announcement_events(done, start, today),
        views(old(titles)@) == event_views(old(events)@).map_values(|e: EventView| e.2),
    ensures
        event_views(final(events)@) == announcement_events(
            done + rows@.map_values(|r: AnnouncementRow| (r, second)),
            start,
            today,
        ),
        views(final(titles)@) == event_views(final(events)@).map_values(|e: EventView| e.2),
{
    let ghost tag = rows@.map_values(|r: AnnouncementRow| (r, second));
    let mut i: usize = 0;
    assert(done + tag.take(0) =~= done);
    while i < rows.len()
        invariant
            i <= rows.len(),
            tag == rows@.map_values(|r: AnnouncementRow| (r, second)),
            event_views(events@) == announcement_events(done + tag.take(i as int), start, today),
            views(titles@) == event_views(events@).map_values(|e: EventView| e.2),
        decreases rows.len() - i,
    {
        let ghost prefix = done + tag.take(i as int);
        assert((done + tag.take(i + 1)).drop_last() =~= prefix);
        assert((done + tag.take(i + 1)).last() == (rows@[i as int], second));
        let ghost prev = event_views(events@);
        let in_win = date_in_window(rows[i].date.as_str(), start, today);
        let seen = is_one_of(rows[i].title.as_str(), titles);
        proof {
            let ts = prev.map_values(|e: EventView| e.2);
            if seen {
                let k = choose|k: int| 0 <= k < ts.len() && ts[k] == rows@[i as int].title@;
                assert(prev[k].2 == rows@[i as int].title@);
                assert(has_title(prev, rows@[i as int].title@));
            } else if has_title(prev, rows@[i as int].title@) {
                let k = choose|k: int| 0 <= k < prev.len() && (#[trigger] prev[k]).2 == rows@[i as int].title@;
                assert(ts[k] == rows@[i as int].title@);
            }
        }
        if in_win && !seen {
            let e = event_of(&rows[i], second);
            let ghost ev = e.view();
            let t = owned(rows[i].title.as_str());
            let ghost before_titles = views(titles@);
            events.push(e);
            titles.push(t);
            assert(event_views(events@) =~= prev.push(ev));
            assert(views(titles@) =~= before_titles.push(ev.2));
            assert(prev.push(ev).map_values(|e: EventView| e.2) =~= prev.map_values(|e: EventView| e.2).push(ev.2));
        }
        i = i + 1;
    }
    assert(tag.take(rows.len() as int) =~= tag);
}

/// The announcement events of both sources: the first source's rows,
/// then the second's, outside the window skipped, one event per title.
pub fn merge_announcements(
    first: &Vec<AnnouncementRow>,
    second: &Vec<AnnouncementRow>,
    start: (i32, u32, u32),
    today: (i32, u32, u32),
) -> (r: Vec<EventItem>)
    ensures
        event_views(r@) == announcement_events(tagged(first@, second@), start, today),
{
    let mut events: Vec<EventItem> = Vec::new();
    let mut titles: Vec<String> = Vec::new();
    let ghost empty = Seq::<(AnnouncementRow, bool)>::empty();
    assert(event_views(events@) =~= announcement_events(empty, start, today));
    assert(views(titles@) =~= event_views(events@).map_values(|e: EventView| e.2));
    add_announcements(&mut events, &mut titles, first, false, start, today, Ghost(empty));
    let ghost after_first = empty + first@.map_values(|r: AnnouncementRow| (r, false));
    add_announcements(&mut events, &mut titles, second, true, start, today, Ghost(after_first));
    assert(after_first + second@.map_values(|r: AnnouncementRow| (r, true)) =~= tagged(first@, second@));
    events
}

proof fn lemma_announcement_titles(rows: Seq<(AnnouncementRow, bool)>, start: (i32, u32, u32), today: (i32, u32, u32))
    ensures
        forall|i: int, j: int|
            0 <= i < j < announcement_events(rows, start, today).len() ==> (#[trigger] announcement_events(
                rows,
                start,
                today,
            )[i]).2 != (#[trigger] announcement_events(rows, start, today)[j]).2,
        forall|i: int|
            0 <= i < announcement_events(rows, start, today).len() ==> in_window(
                (#[trigger] announcement_events(rows, start, today)[i]).0,
                start,
                today,
            ),
    decreases rows.len(),
{
    if rows.len() > 0 {
        lemma_announcement_titles(rows.drop_last(), start, today);
        let prev = announcement_events(rows.drop_last(), start, today);
        let cur = announcement_events(rows, start, today);
        let (r, second) = rows.last();
        if in_window(r.date@, start, today) && !has_title(prev, r.title@) {
            assert forall|i: int, j: int| 0 <= i < j < cur.len() implies (#[trigger] cur[i]).2 != (#[trigger] cur[j]).2 by {
                if j == prev.len() {
                    assert(cur[i] == prev[i]);
                    if prev[i].2 == r.title@ {
                        assert(has_title(prev, r.title@));
                    }
                } else {
                    assert(cur[i] == prev[i] && cur[j] == prev[j]);
                }
            }
            assert forall|i: int| 0 <= i < cur.len() implies in_window((#[trigger] cur[i]).0, start, today) by {
                if i < prev.len() {
                    assert(cur[i] == prev[i]);
                }
            }
        }
    }
}

/// The merged announcements have distinct titles and fall in the window.
pub proof fn lemma_merged_announcements(
    first: Seq<AnnouncementRow>,
    second: Seq<AnnouncementRow>,
    start: (i32, u32, u32),
    today: (i32, u32, u32),
)
    ensures
        ({
            let ev = announcement_events(tagged(first, second), start, today);
            &&& forall|i: int, j: int| 0 <= i < j < ev.len() ==> (#[trigger] ev[i]).2 != (#[trigger] ev[j]).2
            &&& forall|i: int| 0 <= i < ev.len() ==> in_window((#[trigger] ev[i]).0, start, today)
        }),
{
    lemma_announcement_titles(tagged(first, second), start, today);
}

// ---------------------------------------------------------------------
// The reply
// ---------------------------------------------------------------------
/// One line of the stream: `- [date] **kind** — title — url`.
pub open spec fn event_line(e: EventView) -> Seq<char> {
    "- ["@ + e.0 + "] **"@ + e.1 + "** — "@ + e.2 + match e.4 {
        Some(u) => " — "@ + u,
        None => Seq::empty(),
    } + "\n"@
}

/// The lines of a stream.
pub open spec fn event_lines(s: Seq<EventView>) -> Seq<char>
    decreases s.len(),
{
    if s.len() == 0 {
        Seq::empty()
    } else {
        event_lines(s.drop_last()) + event_line(s.last())
    }
}

/// The reply: a heading with the count, the lines, the kinds that came
/// back empty and the sources with the day.
pub open spec fn stream_text(
    symbol: Seq<char>,
    days: u64,
    events: Seq<EventView>,
    empty: Seq<Seq<char>>,
    sources: Seq<Seq<char>>,
    today: Seq<char>,
) -> Seq<char> {
    "## "@ + symbol + " 近 "@ + decimal(days as nat) + " 天事件流(共 "@ + decimal(events.len()) + " 条)\n\n"@
        + event_lines(events) + (if empty.len() == 0 {
        Seq::empty()
    } else {
        "\n_无数据类型: "@ + join(empty, ", "@) + "_\n"@
    }) + (if sources.len() == 0 {
        Seq::empty()
    } else {
        "\n数据来源: "@ + join(sources, "; "@) + " @ "@ + today + "\n"@
    })
}

/// The reply of a `recent_actions` call.
pub fn stream_reply(
    symbol: &str,
    days: u64,
    events: &Vec<EventItem>,
    empty: &Vec<String>,
    sources: &Vec<String>,
    today: &str,
) -> (r: String)
    ensures
        r@ == stream_text(symbol@, days, event_views(events@), views(empty@), views(sources@), today@),
{
    let ghost ev = event_views(events@);
    let mut r = owned("## ");
    push_str(&mut r, symbol);
    push_str(&mut r, " 近 ");
    push_str(&mut r, fmt_u64(days).as_str());
    push_str(&mut r, " 天事件流(共 ");
    push_str(&mut r, fmt_u64(events.len() as u64).as_str());
    push_str(&mut r, " 条)\n\n");
    let ghost head = r@;
    let mut i: usize = 0;
    assert(ev.take(0) =~= Seq::<EventView>::empty());
    while i < events.len()
        invariant
            i <= events.len(),
            ev == event_views(events@),
            r@ == head + event_lines(ev.take(i as int)),
        decreases events.len() - i,
    {
        assert(ev.take(i + 1).drop_last() =~= ev.take(i as int));
        assert(ev[i as int] == events@[i as int].view());
        let ghost before = r@;
        push_str(&mut r, "- [");
        push_str(&mut r, events[i].date.as_str());
        push_str(&mut r, "] **");
        push_str(&mut r, events[i].kind.as_str());
        push_str(&mut r, "** — ");
        push_str(&mut r, events[i].title.as_str());
        let ghost mid = r@;
        match &events[i].url {
            Some(u) => {
                push_str(&mut r, " — ");
                push_str(&mut r, u.as_str());
            },
            None => {},
        }
        let ghost with_url = r@;
        push_str(&mut r, "\n");
        proof {
            match ev[i as int].4 {
                Some(u) => assert(with_url == mid + (" — "@ + u)),
                None => assert(with_url == mid + Seq::<char>::empty()),
            }
        }
        i = i + 1;
    }
    assert(ev.take(events.len() as int) =~= ev);
    let ghost body = r@;
    if empty.len() > 0 {
        push_str(&mut r, "\n_无数据类型: ");
        push_str(&mut r, join_strings(empty, ", ").as_str());
        push_str(&mut r, "_\n");
    }
    let ghost with_empty = r@;
    if sources.len() > 0 {
        push_str(&mut r, "\n数据来源: ");
        push_str(&mut r, join_strings(sources, "; ").as_str());
        push_str(&mut r, " @ ");
        push_str(&mut r, today);
        push_str(&mut r, "\n");
    }
    proof {
        reveal_strlit("");
        if views(empty@).len() == 0 {
            assert(with_empty == body + Seq::<char>::empty());
        }
        if views(sources@).len() == 0 {
            assert(r@ == with_empty + Seq::<char>::empty());
        }
    }
    assert(r@ =~= stream_text(symbol@, days, ev, views(empty@), views(sources@), today@));
    r
}


/// The card of the tool: its display name and card kind.
pub fn ui() -> (u: ToolUi)
    ensures
        u.display_name@ == "近期事件流"@,
        card_of(u.result) == Some("recent_actions"@),
{
    ToolUi { display_name: "近期事件流", result: ResultArtifact::Card("recent_actions") }
}

/// The card summary of a call: its symbol, as a snippet, and its day count (thirty by default).
pub open spec fn ui_summary_of(args: Json) -> Seq<char> {
    "事件 · "@ + snippet(str_or(args, "symbol"@, ""@)) + " · "@ + decimal(match arg_u64(args, "days"@) {
        Some(d) => d as nat,
        None => 30,
    }) + "天"@
}

/// `ui_summary_of` the call's arguments.
pub fn ui_summary(args: &Json) -> (r: String)
    ensures
        r@ == ui_summary_of(*args),
{
    let s = str_arg_or(args, "symbol", "");
    let days: u64 = match get_u64(args, "days") {
        Some(d) => d,
        None => 30,
    };
    let mut out = owned("事件 · ");
    push_str(&mut out, summary_snippet(s).as_str());
    push_str(&mut out, " · ");
    push_str(&mut out, fmt_u64(days).as_str());
    push_str(&mut out, "天");
    out
}


/// The reply of a call: the event stream `md` (with its own closing
/// lines), and the payload `{"kind": "recent_actions", "symbol", "days",
/// "filter", "events", "empty_dimensions", "sources"}`; the debug view
/// names the symbol as given and as normalised, the days and the filter.
pub fn actions_reply(dotted: &str, raw: &str, days: u64, filters: &Vec<String>, events: Json, md: String, c: &Coverage) -> (r:
    ToolOutcome)
    ensures
        !r.is_error,
        r.model_output == md,
        r.display_payload matches Json::Object(m) && str_at(m@, 0, "kind"@, "recent_actions"@) && str_at(
            m@,
            1,
            "symbol"@,
            dotted@,
        ) && u64_at(m@, 2, "days"@, days) && array_at(m@, 3, "filter"@, views(filters@)) && json_at(
            m@,
            4,
            "events"@,
            events,
        ) && coverage_tail(m@, 5, *c),
        r.debug_payload matches Json::Object(d) && d@.len() == 4 && str_at(d@, 0, "symbol_input"@, raw@) && str_at(
            d@,
            1,
            "symbol_normalized"@,
            dotted@,
        ) && u64_at(d@, 2, "days"@, days) && array_at(d@, 3, "filter"@, views(filters@)),
{
    let mut head: Vec<(String, Json)> = Vec::new();
    head.push(text_member("kind", "recent_actions"));
    head.push(text_member("symbol", dotted));
    head.push(u64_member("days", days));
    head.push(array_member("filter", filters));
    head.push(member("events", events));
    let mut dm: Vec<(String, Json)> = Vec::new();
    dm.push(text_member("symbol_input", raw));
    dm.push(text_member("symbol_normalized", dotted));
    dm.push(u64_member("days", days));
    dm.push(array_member("filter", filters));
    let ghost h = head@;
    let r = coverage_reply(md, head, c, Json::Object(dm));
    proof {
        lemma_head(r.display_payload->Object_0@, h);
    }
    r
}


/// `date_le` is the calendar order: an earlier year always comes first
/// whatever the month and day, and the order is total, antisymmetric and
/// transitive.
pub proof fn lemma_date_le_is_calendar_order(a: (i32, u32, u32), b: (i32, u32, u32), c: (i32, u32, u32))
    ensures
        a.0 < b.0 ==> date_le(a, b) && !date_le(b, a),
        a.0 == b.0 && a.1 < b.1 ==> date_le(a, b) && !date_le(b, a),
        date_le(a, b) || date_le(b, a),
        date_le(a, b) && date_le(b, a) ==> a == b,
        date_le(a, b) && date_le(b, c) ==> date_le(a, c),
{
}

/// A parsed event date from a year before the window's start, or a year
/// after today, falls outside the window.
pub proof fn lemma_other_years_outside_window(d: Seq<char>, start: (i32, u32, u32), today: (i32, u32, u32))
    requires
        ymd_date(d) matches Some(x) && (x.0 < start.0 || x.0 > today.0),
    ensures
        !in_window(d, start, today),
{
}

} // verus!
