use gateway::get_a_share_ownership_and_leverage::{render_rows, sections};
use gateway::json::Json;
use gateway::table::Table;

#[test]
fn default_sections_cover_all_domains() {
    let s = sections(&Json::Object(Vec::new()));
    assert!(s.contains(&"holders".to_string()));
    assert!(s.contains(&"connect".to_string()));
}

#[test]
fn render_rows_distinguishes_empty() {
    let mut out = String::new();
    let table = Table {
        fields: vec!["x".into()],
        rows: Vec::new(),
    };
    render_rows(&mut out, &table, 5, &["x"]);
    assert!(out.contains("有效空结果"));
}
