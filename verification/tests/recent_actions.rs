use gateway::recent_actions::{
    date_in_window, merge_announcements, order_events, stream_reply, AnnouncementRow, EventItem,
};

fn ev(date: &str, kind: &str, title: &str) -> EventItem {
    EventItem { date: date.into(), kind: kind.into(), title: title.into(), abstract_text: None, url: None }
}

fn ann(date: &str, title: &str, url: Option<&str>, pdf: Option<&str>) -> AnnouncementRow {
    AnnouncementRow {
        date: date.into(),
        title: title.into(),
        category: Some("其它".into()),
        url: url.map(str::to_string),
        pdf_url: pdf.map(str::to_string),
    }
}

const START: (i32, u32, u32) = (2026, 5, 1);
const TODAY: (i32, u32, u32) = (2026, 5, 31);

#[test]
fn window_reads_calendar_dates() {
    assert!(date_in_window("2026-05-01", START, TODAY));
    assert!(date_in_window("2026-05-31", START, TODAY));
    assert!(!date_in_window("2026-04-30", START, TODAY));
    assert!(!date_in_window("2026-06-01", START, TODAY));
    assert!(date_in_window("2026-5-9", START, TODAY));
    assert!(date_in_window("not a date", START, TODAY));
}

#[test]
fn announcements_merge_by_title_within_window() {
    let first = vec![ann("2026-05-10", "A", Some("u1"), None), ann("2026-04-01", "Old", None, None)];
    let second = vec![ann("2026-05-11", "A", None, Some("p2")), ann("2026-05-12", "B", Some("u3"), Some("p3"))];
    let events = merge_announcements(&first, &second, START, TODAY);
    let titles: Vec<&str> = events.iter().map(|e| e.title.as_str()).collect();
    assert_eq!(titles, vec!["A", "B"]);
    assert_eq!(events[0].url.as_deref(), Some("u1"));
    assert_eq!(events[1].url.as_deref(), Some("p3"));
    assert_eq!(events[1].kind, "announcement");
}

#[test]
fn events_come_newest_first_and_capped() {
    let events = vec![ev("2026-05-01", "a", "x"), ev("2026-05-03", "b", "y"), ev("2026-05-01", "c", "z")];
    let ordered = order_events(events);
    let kinds: Vec<&str> = ordered.iter().map(|e| e.kind.as_str()).collect();
    assert_eq!(kinds, vec!["b", "a", "c"]);
    let many: Vec<EventItem> = (0..100).map(|i| ev(&format!("2026-05-{:02}", i % 28 + 1), "k", "t")).collect();
    let ordered = order_events(many);
    assert_eq!(ordered.len(), 80);
    assert!(ordered.windows(2).all(|w| w[0].date >= w[1].date));
}

#[test]
fn stream_reply_layout() {
    let mut e = ev("2026-05-03", "dividend", "分红");
    e.url = Some("http://x".into());
    let r = stream_reply(
        "600519.SH",
        30,
        &vec![e],
        &vec!["pledge".to_string()],
        &vec!["Tushare dividend".to_string()],
        "2026-05-31",
    );
    assert_eq!(
        r,
        "## 600519.SH 近 30 天事件流(共 1 条)\n\n- [2026-05-03] **dividend** — 分红 — http://x\n\n_无数据类型: pledge_\n\n数据来源: Tushare dividend @ 2026-05-31\n"
    );
}
