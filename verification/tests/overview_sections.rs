use gateway::coverage::Coverage;
use gateway::json::Json;
use gateway::stock_overview::{
    announcements_section, company_line, controller_line, disclosure_section, focus_heading,
    record_corp_action, record_quote, record_statement, region_line,
};

fn obj(members: Vec<(&str, Json)>) -> Json {
    Json::Object(members.into_iter().map(|(k, v)| (k.to_string(), v)).collect())
}

fn s(x: &str) -> Json {
    Json::String(x.to_string())
}

#[test]
fn headings_follow_the_focus() {
    assert_eq!(focus_heading("overview", "600519.SH", "贵州茅台"), "## 贵州茅台 (600519.SH)\n\n");
    assert_eq!(focus_heading("valuation", "600519.SH", ""), "## 600519.SH 估值\n\n");
    assert_eq!(focus_heading("corp_action", "600519.SH", ""), "## 600519.SH 业绩 / 披露日历\n\n");
    assert_eq!(focus_heading("technical", "000001.SZ", ""), "## 000001.SZ 技术指标(原始数值)\n\n");
    assert_eq!(focus_heading("unknown", "000001.SZ", "x"), "");
}

#[test]
fn announcements_show_at_most_five() {
    assert_eq!(announcements_section(&Vec::new()), "");
    let anns: Vec<(String, String)> =
        (1..=7).map(|i| (format!("2024010{i}"), format!("公告{i}"))).collect();
    let out = announcements_section(&anns);
    assert!(out.starts_with("**最近 5 公告:**\n\n- [20240101] 公告1\n"));
    assert!(out.ends_with("- [20240105] 公告5\n"));
    assert!(!out.contains("公告6"));
}

#[test]
fn company_and_region_lines() {
    assert_eq!(region_line(Some("白酒"), None), "**行业 / 地域:** 白酒 / -\n\n");
    assert_eq!(
        company_line("贵州茅台酒股份有限公司", None, Some("30000"), None),
        "**公司:** 贵州茅台酒股份有限公司 | 主营:- | 员工 30000 人\n\n"
    );
    let intro = "酒".repeat(200);
    let line = company_line("X", Some("白酒"), None, Some(&intro));
    assert_eq!(line, format!("**公司:** X | 主营:白酒\n\n> {}\n\n", "酒".repeat(150)));
    assert_eq!(company_line("X", Some("白酒"), None, Some("")), "**公司:** X | 主营:白酒\n\n");
    assert_eq!(controller_line("某某集团"), "**实控人 / 控股股东:** 某某集团\n\n");
}

#[test]
fn disclosure_rows_fill_gaps_with_dashes() {
    assert_eq!(disclosure_section(&Vec::new()), "");
    let rows = vec![obj(vec![("end_date", s("20241231")), ("pre_date", s("20250328"))])];
    assert_eq!(
        disclosure_section(&rows),
        "\n### 下次披露(近 5 条)\n\n| 报告期 | 预计日 | 实际日 |\n|---|---|---|\n| 20241231 | 20250328 | - |\n"
    );
}

#[test]
fn overview_sources_and_missing_dimensions() {
    let mut c = Coverage::new();
    record_quote(&mut c, true, true, "2024-06-03");
    record_quote(&mut c, false, false, "2024-06-03");
    record_corp_action(&mut c, 3, 0, 1, "2024-06-03");
    record_statement(&mut c, "balance", 0, "2024-06-03");
    record_statement(&mut c, "income", 4, "2024-06-03");
    assert_eq!(
        c.sources,
        vec![
            "Tushare daily (EOD fallback) @ 2024-06-03",
            "Tushare forecast @ 2024-06-03",
            "Tushare disclosure_date @ 2024-06-03",
            "Tushare income @ 2024-06-03",
        ]
    );
    assert_eq!(c.empty_dimensions, vec!["quote", "express", "financial_balance"]);
}
