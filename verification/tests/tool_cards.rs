use gateway::json::{json_u64, Json};
use gateway::tools::ResultArtifact;
use gateway::vendor_chain::VendorTool;
use gateway::{
    chart_data, corpus_search, echo, industry_landscape, macro_indicators, market_overview, market_pulse,
    read_pdf, recent_actions, research_sentiment, stock_overview,
};

fn obj(members: Vec<(&str, Json)>) -> Json {
    Json::Object(members.into_iter().map(|(k, v)| (k.to_string(), v)).collect())
}

fn s(x: &str) -> Json {
    Json::String(x.to_string())
}

#[test]
fn cards_name_their_kind() {
    let u = stock_overview::ui();
    assert_eq!(u.display_name, "个股全景");
    assert_eq!(u.result, ResultArtifact::Card("stock_overview"));
    assert_eq!(read_pdf::ui().result, ResultArtifact::Card("pdf_reader"));
    assert_eq!(market_pulse::ui().display_name, "实时多股");
    assert_eq!(chart_data::ui().display_name, "K 线数据");
    assert_eq!(corpus_search::ui().display_name, "知识库搜索");
    assert_eq!(macro_indicators::ui().result, ResultArtifact::Card("macro_indicators"));
    assert_eq!(industry_landscape::ui().display_name, "行业全景");
    assert_eq!(market_overview::ui().display_name, "大盘全景");
    assert_eq!(recent_actions::ui().display_name, "近期事件流");
    assert_eq!(research_sentiment::ui().display_name, "卖方研报");
}

#[test]
fn summaries_fall_back_to_defaults() {
    let none = obj(vec![]);
    assert_eq!(stock_overview::ui_summary(&none), "个股 ·  · overview");
    assert_eq!(macro_indicators::ui_summary(&none), "宏观 · inflation");
    assert_eq!(market_overview::ui_summary(&none), "大盘 · snapshot");
    assert_eq!(industry_landscape::ui_summary(&none), "行业 ·  · leaders");
    assert_eq!(recent_actions::ui_summary(&none), "事件 ·  · 30天");
    assert_eq!(chart_data::ui_summary(&none), "K 线 ·  · 3m");
    assert_eq!(market_pulse::ui_summary(&none), "实时 · 0 只");
    assert_eq!(corpus_search::ui_summary(&none), "知识库搜索 · ");
    assert_eq!(research_sentiment::ui_summary(&none), "研报 · ");
}

#[test]
fn summaries_show_the_arguments() {
    let args = obj(vec![("symbol", s("600519.SH")), ("focus", s("holders")), ("days", json_u64(7))]);
    assert_eq!(stock_overview::ui_summary(&args), "个股 · 600519.SH · holders");
    assert_eq!(recent_actions::ui_summary(&args), "事件 · 600519.SH · 7天");
    let q = obj(vec![("query", s("  白酒   行业\n景气度 "))]);
    assert_eq!(corpus_search::ui_summary(&q), "知识库搜索 · 白酒 行业 景气度");
    let long = obj(vec![("target", s(&"a".repeat(50)))]);
    assert_eq!(industry_landscape::ui_summary(&long), format!("行业 · {}… · leaders", "a".repeat(40)));
    let syms = obj(vec![("symbols", Json::Array(vec![s("600519.SH"), s("000001.SZ")]))]);
    assert_eq!(market_pulse::ui_summary(&syms), "实时 · 2 只");
}

#[test]
fn pdf_summary_shows_the_host() {
    let args = obj(vec![("url", s("https://static.example.com/reports/a.pdf"))]);
    assert_eq!(read_pdf::ui_summary(&args), "PDF · static.example.com");
    let bad = obj(vec![("url", s("not a url"))]);
    assert_eq!(read_pdf::ui_summary(&bad), "PDF · not a url");
}

#[test]
fn vendor_tool_cards_and_summaries() {
    assert_eq!(VendorTool::TopHolders.ui().display_name, "十大股东");
    assert_eq!(VendorTool::MarketQuote.ui().result, ResultArtifact::Card("market_quote"));
    let none = obj(vec![]);
    assert_eq!(VendorTool::Announcements.ui_summary(&none), "公告 ·  · 30d");
    assert_eq!(VendorTool::BusinessBreakdown.ui_summary(&none), "主营构成 ·  · product");
    assert_eq!(VendorTool::IndustryPeers.ui_summary(&none), "行业对比 ·  · valuation");
    assert_eq!(VendorTool::TopHolders.ui_summary(&none), "十大股东 ·  · total");
    let args = obj(vec![("symbol", s("000001.SZ")), ("days", json_u64(7)), ("kind", s("float"))]);
    assert_eq!(VendorTool::Announcements.ui_summary(&args), "公告 · 000001.SZ · 7d");
    assert_eq!(VendorTool::TopHolders.ui_summary(&args), "十大股东 · 000001.SZ · float");
    assert_eq!(VendorTool::Concepts.ui_summary(&args), "概念题材 · 000001.SZ");
    assert_eq!(echo::ui().result, ResultArtifact::Card("text"));
    assert_eq!(echo::ui_summary(&obj(vec![("text", s("hello\n  world"))])), "回显 · hello world");
}

#[test]
fn card_registry_covers_the_library_tools() {
    for n in [
        "corpus_search",
        "macro_indicators",
        "industry_landscape",
        "market_overview",
        "stock_overview",
        "recent_actions",
        "market_pulse",
        "research_sentiment",
        "chart_data",
        "read_pdf",
    ] {
        assert!(gateway::tools::ui(n).is_some(), "missing card for {n}");
    }
    assert!(gateway::tools::ui("nope").is_none());
    assert_eq!(gateway::tools::ui("read_pdf").unwrap().result, ResultArtifact::Card("pdf_reader"));
    assert_eq!(gateway::tools::ui("stock_overview").unwrap().display_name, "个股全景");
}
