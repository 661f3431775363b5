use gateway::get_capital_flow::{eastmoney_secid, push_section_result as push_flow_section};

#[test]
fn get_capital_flow_eastmoney_secid_maps_a_share_suffixes() {
    assert_eq!(eastmoney_secid("600519.SH").unwrap(), "1.600519");
    assert_eq!(eastmoney_secid("000001.SZ").unwrap(), "0.000001");
    assert_eq!(eastmoney_secid("430047.BJ").unwrap(), "0.430047");
}

#[test]
fn flow_sections_keep_going_past_failed_sources() {
    let mut out = String::from("# 资金流\n");
    assert!(push_flow_section(&mut out, "大盘", "eastmoney_push2", Ok("## 大盘\n- x".to_string()), false).is_ok());
    assert_eq!(out, "# 资金流\n## 大盘\n- x\n");
    assert!(push_flow_section(&mut out, "北向", "tushare", Err("HTTP 500".to_string()), false).is_ok());
    assert!(out.contains("## 北向 · "));
    assert!(out.contains("来源不可用：HTTP 500"));
    let before = out.clone();
    let r = push_flow_section(&mut out, "板块", "tushare", Err("request Aborted".to_string()), false);
    assert_eq!(r, Err("request Aborted".to_string()));
    assert_eq!(out, before);
    let r = push_flow_section(&mut out, "板块", "tushare", Err("timeout".to_string()), true);
    assert_eq!(r, Err("timeout".to_string()));
    assert_eq!(out, before);
}
