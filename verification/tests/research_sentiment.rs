use gateway::coverage::{closing_lines, Coverage};
use gateway::date_order::str_lt;
use gateway::json::Json;
use gateway::research_sentiment;
use gateway::research_sentiment::{
    merge_reports, picks_for, picks_section, rating_line, report_line, reports_section, sentiment_sources,
    BrokerPick, ConsensusOutcome, RatingMix, ReportThrottle, ResearchReportItem,
};

fn item(date: &str, title: &str, org: Option<&str>) -> ResearchReportItem {
    ResearchReportItem {
        date: date.to_string(),
        title: title.to_string(),
        org_name: org.map(str::to_string),
        author: None,
        pdf_url: None,
    }
}

#[test]
fn throttle_first_call_succeeds_second_skips_within_window() {
    let mut throttle = ReportThrottle::new();
    assert!(throttle.try_acquire_report_rc(5_000_000_000));
    assert!(!throttle.try_acquire_report_rc(5_000_000_001));
}

#[test]
fn throttle_allows_again_after_sixty_seconds() {
    let mut throttle = ReportThrottle::new();
    assert!(throttle.try_acquire_report_rc(0));
    assert!(!throttle.try_acquire_report_rc(59_999_999_999));
    assert_eq!(throttle.last, Some(0));
    assert!(throttle.try_acquire_report_rc(60_000_000_000));
    assert_eq!(throttle.last, Some(60_000_000_000));
}

#[test]
fn merge_keeps_first_of_each_key_newest_first() {
    let t = vec![item("2026-05-01", "A", Some("t")), item("2026-05-03", "B", Some("t"))];
    let e = vec![item("2026-05-03", "B", Some("e")), item("2026-04-30", "C", Some("e"))];
    let merged = merge_reports(&t, &e);
    let keys: Vec<(String, String, Option<String>)> =
        merged.iter().map(|r| (r.date.clone(), r.title.clone(), r.org_name.clone())).collect();
    assert_eq!(
        keys,
        vec![
            ("2026-05-03".to_string(), "B".to_string(), Some("e".to_string())),
            ("2026-05-01".to_string(), "A".to_string(), Some("t".to_string())),
            ("2026-04-30".to_string(), "C".to_string(), Some("e".to_string())),
        ]
    );
}

#[test]
fn merge_keeps_order_within_a_date() {
    let t = vec![item("2026-05-01", "X", None), item("2026-05-01", "Y", None)];
    let merged = merge_reports(&t, &[]);
    assert_eq!(merged[0].title, "X");
    assert_eq!(merged[1].title, "Y");
}

#[test]
fn dates_compare_lexicographically() {
    assert!(str_lt("2026-04-30", "2026-05-01"));
    assert!(!str_lt("2026-05-01", "2026-05-01"));
    assert!(str_lt("2026", "2026-01"));
}

#[test]
fn report_line_and_section() {
    let mut r = item("2026-05-03", "深度", Some("华鑫证券"));
    r.pdf_url = Some("https://p/x.pdf".to_string());
    assert_eq!(report_line(&r), "- [2026-05-03] **深度** — 华鑫证券 (-) PDF: https://p/x.pdf\n");
    assert_eq!(reports_section(&Vec::new()), "");
    let many: Vec<ResearchReportItem> = (0..20).map(|i| item("2026-05-01", &format!("T{i}"), None)).collect();
    let s = reports_section(&many);
    assert!(s.starts_with("\n### 近 30 天研报列表\n\n"));
    assert!(s.contains("T14"));
    assert!(!s.contains("T15"));
}

#[test]
fn rating_line_lists_the_mix() {
    let m = RatingMix { buy: 5, overweight: 3, hold: 1, underweight: 0, sell: 0 };
    assert_eq!(
        rating_line(9, &m),
        "\n### 评级分布(本轮 9 条) — 买入 5 / 增持 3 / 中性 1 / 减持 0 / 卖出 0\n"
    );
}

#[test]
fn picks_filter_by_code() {
    let picks = vec![
        BrokerPick { broker: "甲".into(), name: "茅台".into(), ts_code: "600519.SH".into() },
        BrokerPick { broker: "乙".into(), name: "平安".into(), ts_code: "601318.SH".into() },
    ];
    let mine = picks_for(picks, "600519.SH");
    assert_eq!(mine.len(), 1);
    assert_eq!(picks_section("202605", &mine), "\n### 本月券商金股 (202605) — 1 家券商\n\n- 甲 推荐 茅台 (600519.SH)\n");
    assert_eq!(picks_section("202605", &Vec::new()), "");
}

#[test]
fn sources_and_dimensions_by_outcome() {
    let s = sentiment_sources("2026-05-29", &ConsensusOutcome::Throttled, true, false, true);
    assert_eq!(s.empty_dimensions, vec!["report_rc:throttled".to_string(), "eastmoney_reports".to_string()]);
    assert_eq!(
        s.sources,
        vec!["Tushare research_report @ 2026-05-29".to_string(), "Tushare broker_recommend @ 2026-05-29".to_string()]
    );
    assert_eq!(
        closing_lines(&s),
        "\n_缺失维度: report_rc:throttled, eastmoney_reports_\n\n数据来源: Tushare research_report @ 2026-05-29; Tushare broker_recommend @ 2026-05-29\n"
    );
    let f = sentiment_sources("d", &ConsensusOutcome::Failed("quota".into()), false, false, false);
    assert_eq!(f.empty_dimensions[0], "report_rc:quota");
    assert!(f.sources.is_empty());
}

#[test]
fn throttled_consensus_is_a_gap_not_an_error() {
    let mut throttle = ReportThrottle::new();
    assert!(research_sentiment::consensus_plan(&mut throttle, 1_000).is_none());
    let second = research_sentiment::consensus_plan(&mut throttle, 1_000 + 59_000_000_000);
    assert!(matches!(second, Some(ConsensusOutcome::Throttled)));
    let rc = second.unwrap();
    let r = research_sentiment::research_reply(
        "600519.SH", "600519", &rc, Json::Array(vec![]), Json::Null, 0, true, false, true,
        Json::Array(vec![]), Json::Array(vec![]), "## 600519.SH 卖方研报概览\n".to_string(), "2024-06-03",
    );
    assert!(!r.is_error);
    assert!(matches!(r.debug_payload.get("throttle_allowed"), Some(Json::Bool(false))));
    match r.display_payload.get("empty_dimensions") {
        Some(Json::Array(a)) => {
            let dims: Vec<&str> = a.iter().filter_map(|x| x.as_str()).collect();
            assert_eq!(dims, vec!["report_rc:throttled", "eastmoney_reports"]);
        }
        _ => panic!("no dimensions"),
    }
    assert!(r.model_output.contains("_缺失维度: report_rc:throttled, eastmoney_reports_"));
    assert!(research_sentiment::consensus_plan(&mut throttle, 1_000 + 60_000_000_000).is_none());
}
