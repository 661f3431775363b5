use gateway::get_a_share_research_sources::{
    compact_text, eastmoney_date, eastmoney_publish_date, eastmoney_report_line, eastmoney_stock_code,
    select_eastmoney_industry_code, source_types, EastmoneyBoardRow, EastmoneyReportRow, EastmoneyReportScope, Section,
};
use gateway::get_a_share_research_sources::push_section_result as push_research_section;
use gateway::json::{json_u64, Json};

fn empty_object() -> Json {
    Json::Object(Vec::new())
}

#[test]
fn defaults_source_types_by_ts_code_presence() {
    let args = empty_object();
    assert_eq!(
        source_types(&args, false),
        vec!["announcements".to_string(), "research_reports".to_string()]
    );
    assert_eq!(
        source_types(&args, true),
        vec![
            "announcements".to_string(),
            "research_reports".to_string(),
            "business_events".to_string()
        ]
    );
}

#[test]
fn renders_empty_section_as_valid_empty() {
    let out = Section::new("公告", "anns_d", Vec::new(), 0).render();
    assert!(out.contains("有效空结果"));
    assert!(out.contains("交易所公告"));
    assert!(!out.contains("Tushare coverage"));
}

#[test]
fn renders_unavailable_section_as_access_gap() {
    let out = Section::unavailable("互动问答", "irm_qa_sh", "rate limited").render();
    assert!(out.contains("来源不可用"));
    assert!(out.contains("覆盖/访问缺口"));
    assert!(!out.contains("No rows returned"));
}

#[test]
fn compact_text_truncates_on_character_count() {
    let text = compact_text("abcdef", 3);
    assert_eq!(text, "abc…");
}

#[test]
fn eastmoney_helpers_normalize_inputs() {
    assert_eq!(eastmoney_stock_code("600519.SH"), "600519");
    assert_eq!(eastmoney_date("20260524"), "2026-05-24");
    assert_eq!(eastmoney_publish_date("2026-05-05 00:00:00.000"), "2026-05-05");
}

#[test]
fn eastmoney_report_line_exposes_source_links() {
    let row = EastmoneyReportRow {
        title: Some("公司事件点评报告".to_string()),
        stock_name: Some("贵州茅台".to_string()),
        stock_code: Some("600519".to_string()),
        org_name: Some("华鑫证券有限责任公司".to_string()),
        org_s_name: Some("华鑫证券".to_string()),
        publish_date: Some("2026-05-05 00:00:00.000".to_string()),
        info_code: Some("AP202605051821970230".to_string()),
        researcher: Some("孙山山".to_string()),
        em_rating_name: Some("买入".to_string()),
        s_rating_name: None,
        industry_name: None,
        indv_indu_name: Some("白酒Ⅱ".to_string()),
        attach_pages: Some(json_u64(5)),
    };

    let line = eastmoney_report_line(&row, EastmoneyReportScope::Stock).unwrap();
    assert!(line.contains("标的:贵州茅台(600519)"));
    assert!(line.contains("评级:买入"));
    assert!(line.contains("详情页 https://data.eastmoney.com/report/info/AP202605051821970230.html"));
    assert!(line.contains("PDF https://pdf.dfcfw.com/pdf/H3_AP202605051821970230_1.pdf"));
}

#[test]
fn select_eastmoney_industry_code_prefers_exact_then_level_2() {
    let rows = vec![
        EastmoneyBoardRow {
            board_code: Some("1575".to_string()),
            board_name: Some("白酒Ⅲ".to_string()),
            board_level: Some("3".to_string()),
        },
        EastmoneyBoardRow {
            board_code: Some("1277".to_string()),
            board_name: Some("白酒Ⅱ".to_string()),
            board_level: Some("2".to_string()),
        },
        EastmoneyBoardRow {
            board_code: Some("1033".to_string()),
            board_name: Some("电池".to_string()),
            board_level: Some("2".to_string()),
        },
    ];

    assert_eq!(select_eastmoney_industry_code(&rows, "电池").as_deref(), Some("1033"));
    assert_eq!(select_eastmoney_industry_code(&rows, "白酒").as_deref(), Some("1277"));
}

#[test]
fn source_types_follow_an_explicit_list() {
    let args = Json::Object(vec![(
        "source_types".to_string(),
        Json::Array(vec![Json::String("ir_qa".to_string())]),
    )]);
    assert_eq!(source_types(&args, true), vec!["ir_qa".to_string()]);
}

#[test]
fn research_sections_mark_failed_sources_unavailable() {
    let mut sections: Vec<Section> = Vec::new();
    let ok = Section::new("公告", "anns_d", vec!["- a".to_string()], 1);
    assert!(push_research_section(&mut sections, "公告", "anns_d", Ok(ok), false).is_ok());
    assert!(push_research_section(&mut sections, "研报", "report_rc", Err("quota   exceeded".to_string()), false).is_ok());
    assert_eq!(sections.len(), 2);
    assert_eq!(sections[1].title, "研报");
    assert_eq!(sections[1].unavailable.as_deref(), Some("quota exceeded"));
    assert!(push_research_section(&mut sections, "互动", "irm_qa_sh", Err("x".to_string()), true).is_err());
    assert_eq!(sections.len(), 2);
}
