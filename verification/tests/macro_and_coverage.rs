use gateway::coverage::{closing_lines, Coverage};
use gateway::macro_indicators::{calendar_section, policy_section, MacroEventItem, PolicyItem};

#[test]
fn coverage_records_each_source_once() {
    let mut c = Coverage::new();
    c.record(true, "Tushare cn_cpi", "2026-05-29", "cpi".to_string());
    c.record(false, "Tushare cn_ppi", "2026-05-29", "ppi:quota".to_string());
    assert_eq!(c.sources, vec!["Tushare cn_cpi @ 2026-05-29".to_string()]);
    assert_eq!(c.empty_dimensions, vec!["ppi:quota".to_string()]);
    assert_eq!(closing_lines(&c), "\n_缺失维度: ppi:quota_\n\n数据来源: Tushare cn_cpi @ 2026-05-29\n");
    assert_eq!(closing_lines(&Coverage::new()), "");
}

#[test]
fn policy_section_lists_or_notes_empty() {
    assert_eq!(policy_section(&Vec::new()), "## 国务院政策文件库(近 30 天)\n\n窗口内未拉到政策条目。\n");
    let p = vec![PolicyItem {
        publish_date: "2026-05-20".into(),
        publish_org: None,
        title: "通知".into(),
        policy_id: Some("国发〔2026〕1号".into()),
    }];
    let s = policy_section(&p);
    assert!(s.contains("国务院政策文件库"));
    assert!(s.ends_with("共 1 条,按发布日倒序:\n\n- **2026-05-20** · - · 通知 (国发〔2026〕1号)\n"));
}

#[test]
fn calendar_section_lists_or_notes_empty() {
    assert!(calendar_section(&Vec::new()).contains("窗口内未拉到日历项"));
    let e = vec![MacroEventItem {
        publish_date: "2026-06-09".into(),
        title: "CPI".into(),
        issuing_org: Some("国家统计局".into()),
        period: None,
        data_api: Some("cn_cpi".into()),
    }];
    let s = calendar_section(&e);
    assert!(s.contains("发布日历"));
    assert!(s.ends_with("| 2026-06-09 | CPI | 国家统计局 | - | cn_cpi |\n"));
}
