//! China macro context: growth, inflation, liquidity, rates, PMI and the
//! release calendar, each as the latest rows of one structured series.
use vstd::prelude::*;

use crate::get_a_share_research_sources::wants;
use crate::json::{arg_array, arg_u64, get_array, get_u64, str_items, str_items_exec, value_text, value_text_exec, Json};
use crate::table::{first_n_rows, Table};
use crate::text::{decimal, fmt_u64, join, join_strings, owned, push_str, str_eq, views};

verus! {

/// Rows per series when the call names no limit.
pub const DEFAULT_LIMIT: usize = 4;

/// Most rows per series.
pub const MAX_LIMIT: usize = 12;

/// Human labels of the series fields; a field without one shows as is.
pub open spec fn label_table() -> Seq<(Seq<char>, Seq<char>)> {
    seq![
        ("quarter"@, "季度"@),
        ("month"@, "月份"@),
        ("date"@, "日期"@),
        ("gdp"@, "GDP"@),
        ("yoy"@, "同比"@),
        ("pi"@, "第一产业"@),
        ("si"@, "第二产业"@),
        ("ti"@, "第三产业"@),
        ("nt_val"@, "全国CPI"@),
        ("nt_yoy"@, "全国CPI同比"@),
        ("town_val"@, "城市CPI"@),
        ("town_yoy"@, "城市CPI同比"@),
        ("cnt_val"@, "农村CPI"@),
        ("cnt_yoy"@, "农村CPI同比"@),
        ("ppi_yoy"@, "PPI同比"@),
        ("ppi_mp_yoy"@, "生产资料同比"@),
        ("ppi_ppi_yoy"@, "生活资料同比"@),
        ("m2"@, "M2"@),
        ("m2_yoy"@, "M2同比"@),
        ("m1"@, "M1"@),
        ("m1_yoy"@, "M1同比"@),
        ("m0"@, "M0"@),
        ("m0_yoy"@, "M0同比"@),
        ("inc_month"@, "当月新增"@),
        ("inc_cum"@, "累计新增"@),
        ("stk_end"@, "期末存量"@),
        ("1y"@, "1年"@),
        ("5y"@, "5年"@),
        ("on"@, "隔夜"@),
        ("1w"@, "1周"@),
        ("1m"@, "1月"@),
        ("3m"@, "3月"@),
        ("6m"@, "6月"@),
        ("pmi010000"@, "制造业PMI"@),
        ("pmi010100"@, "生产"@),
        ("pmi010200"@, "新订单"@),
        ("pmi010300"@, "新出口订单"@),
        ("pmi010400"@, "在手订单"@),
        ("indicator"@, "指标"@),
        ("period"@, "周期"@),
        ("forecast"@, "预测"@),
        ("actual"@, "实际"@),
        ("previous"@, "前值"@),
        ("importance"@, "重要性"@)
    ]
}

/// The label table, as literals.
fn label_table_exec() -> (v: Vec<(&'static str, &'static str)>)
    ensures
        v@.map_values(|p: (&'static str, &'static str)| (p.0@, p.1@)) == label_table(),
{
    let mut v: Vec<(&'static str, &'static str)> = Vec::new();
    v.push(("quarter", "季度"));
    v.push(("month", "月份"));
    v.push(("date", "日期"));
    v.push(("gdp", "GDP"));
    v.push(("yoy", "同比"));
    v.push(("pi", "第一产业"));
    v.push(("si", "第二产业"));
    v.push(("ti", "第三产业"));
    v.push(("nt_val", "全国CPI"));
    v.push(("nt_yoy", "全国CPI同比"));
    v.push(("town_val", "城市CPI"));
    v.push(("town_yoy", "城市CPI同比"));
    v.push(("cnt_val", "农村CPI"));
    v.push(("cnt_yoy", "农村CPI同比"));
    v.push(("ppi_yoy", "PPI同比"));
    v.push(("ppi_mp_yoy", "生产资料同比"));
    v.push(("ppi_ppi_yoy", "生活资料同比"));
    v.push(("m2", "M2"));
    v.push(("m2_yoy", "M2同比"));
    v.push(("m1", "M1"));
    v.push(("m1_yoy", "M1同比"));
    v.push(("m0", "M0"));
    v.push(("m0_yoy", "M0同比"));
    v.push(("inc_month", "当月新增"));
    v.push(("inc_cum", "累计新增"));
    v.push(("stk_end", "期末存量"));
    v.push(("1y", "1年"));
    v.push(("5y", "5年"));
    v.push(("on", "隔夜"));
    v.push(("1w", "1周"));
    v.push(("1m", "1月"));
    v.push(("3m", "3月"));
    v.push(("6m", "6月"));
    v.push(("pmi010000", "制造业PMI"));
    v.push(("pmi010100", "生产"));
    v.push(("pmi010200", "新订单"));
    v.push(("pmi010300", "新出口订单"));
    v.push(("pmi010400", "在手订单"));
    v.push(("indicator", "指标"));
    v.push(("period", "周期"));
    v.push(("forecast", "预测"));
    v.push(("actual", "实际"));
    v.push(("previous", "前值"));
    v.push(("importance", "重要性"));
    assert(v@.map_values(|p: (&'static str, &'static str)| (p.0@, p.1@)) =~= label_table());
    v
}

/// The label of the first entry, at `start` or later, for `field`.
pub open spec fn find_label(t: Seq<(Seq<char>, Seq<char>)>, field: Seq<char>, start: int) -> Option<Seq<char>>
    decreases t.len() - start,
{
    if start < 0 || start >= t.len() {
        None
    } else if t[start].0 == field {
        Some(t[start].1)
    } else {
        find_label(t, field, start + 1)
    }
}

/// The label of a series field: its entry in the label table, or the
/// field name itself.
pub open spec fn field_label(field: Seq<char>) -> Seq<char> {
    match find_label(label_table(), field, 0) {
        Some(l) => l,
        None => field,
    }
}

/// `field_label` of a field.
pub fn macro_field_label<'a>(field: &'a str) -> (r: &'a str)
    ensures
        r@ == field_label(field@),
{
    let t = label_table_exec();
    let ghost tv = t@.map_values(|p: (&'static str, &'static str)| (p.0@, p.1@));
    let mut i: usize = 0;
    while i < t.len()
        invariant
            i <= t.len(),
            tv == t@.map_values(|p: (&'static str, &'static str)| (p.0@, p.1@)),
            tv == label_table(),
            find_label(tv, field@, 0) == find_label(tv, field@, i as int),
        decreases t.len() - i,
    {
        let (name, label) = t[i];
        assert(tv[i as int] == (name@, label@));
        if str_eq(name, field) {
            return label;
        }
        i = i + 1;
    }
    field
}

/// Label of a macro series api.
pub open spec fn source_label(api: Seq<char>) -> Seq<char> {
    if api == "cn_gdp"@ {
        "GDP/产业增加值"@
    } else if api == "cn_cpi"@ {
        "居民价格指数"@
    } else if api == "cn_ppi"@ {
        "工业品价格指数"@
    } else if api == "cn_m"@ {
        "货币供应"@
    } else if api == "sf_month"@ {
        "社会融资"@
    } else if api == "shibor_lpr"@ {
        "LPR"@
    } else if api == "shibor"@ {
        "Shibor"@
    } else if api == "cn_pmi"@ {
        "采购经理指数"@
    } else if api == "cn_schedule"@ {
        "宏观日程"@
    } else {
        "宏观数据"@
    }
}

/// `source_label` of an api.
pub fn macro_source_label(api_name: &str) -> (r: &'static str)
    ensures
        r@ == source_label(api_name@),
{
    if str_eq(api_name, "cn_gdp") {
        "GDP/产业增加值"
    } else if str_eq(api_name, "cn_cpi") {
        "居民价格指数"
    } else if str_eq(api_name, "cn_ppi") {
        "工业品价格指数"
    } else if str_eq(api_name, "cn_m") {
        "货币供应"
    } else if str_eq(api_name, "sf_month") {
        "社会融资"
    } else if str_eq(api_name, "shibor_lpr") {
        "LPR"
    } else if str_eq(api_name, "shibor") {
        "Shibor"
    } else if str_eq(api_name, "cn_pmi") {
        "采购经理指数"
    } else if str_eq(api_name, "cn_schedule") {
        "宏观日程"
    } else {
        "宏观数据"
    }
}

/// The topics a call asks for when it names none: all of them.
pub open spec fn default_topics() -> Seq<Seq<char>> {
    seq!["growth"@, "inflation"@, "liquidity"@, "rates"@, "pmi"@, "calendar"@]
}

/// The topics a call asks for.
pub open spec fn topics_spec(args: Json) -> Seq<Seq<char>> {
    match arg_array(args, "topics"@) {
        Some(items) => if str_items(items).len() > 0 {
            str_items(items)
        } else {
            default_topics()
        },
        None => default_topics(),
    }
}

/// `topics_spec` of the call arguments.
pub fn topics(args: &Json) -> (r: Vec<String>)
    ensures
        views(r@) == topics_spec(*args),
{
    match get_array(args, "topics") {
        Some(items) => {
            let v = str_items_exec(items);
            if v.len() > 0 {
                return v;
            }
        },
        None => {},
    }
    let mut d: Vec<String> = Vec::new();
    d.push(owned("growth"));
    d.push(owned("inflation"));
    d.push(owned("liquidity"));
    d.push(owned("rates"));
    d.push(owned("pmi"));
    d.push(owned("calendar"));
    assert(views(d@) =~= default_topics());
    d
}

/// Rows per series: the call's `limit` kept within `1..=12`, else four.
pub open spec fn limit_spec(args: Json) -> usize {
    match arg_u64(args, "limit"@) {
        Some(n) => if n < 1 {
            1
        } else if n > MAX_LIMIT {
            MAX_LIMIT
        } else {
            n as usize
        },
        None => DEFAULT_LIMIT,
    }
}

/// `limit_spec` of the call arguments.
pub fn limit(args: &Json) -> (r: usize)
    ensures
        r == limit_spec(*args),
{
    match get_u64(args, "limit") {
        Some(n) => if n < 1 {
            1
        } else if n > 12 {
            MAX_LIMIT
        } else {
            n as usize
        },
        None => DEFAULT_LIMIT,
    }
}

/// One structured macro series: heading, api and the fields it returns.
pub struct MacroSeries {
    pub title: &'static str,
    pub api: &'static str,
    pub fields: &'static str,
}

/// The series the topics ask for, in a fixed order.
pub open spec fn series_spec(topics: Seq<Seq<char>>) -> Seq<(Seq<char>, Seq<char>, Seq<char>)> {
    (if topics.contains("growth"@) { seq![("GDP"@, "cn_gdp"@, "quarter,gdp,yoy,pi,si,ti"@)] } else { Seq::empty() })
        +     (if topics.contains("inflation"@) { seq![("CPI"@, "cn_cpi"@, "month,nt_val,nt_yoy,town_val,town_yoy,cnt_val,cnt_yoy"@), ("PPI"@, "cn_ppi"@, "month,ppi_yoy,ppi_mp_yoy,ppi_ppi_yoy"@)] } else { Seq::empty() })
        +     (if topics.contains("liquidity"@) { seq![("M2 / 社融候选"@, "cn_m"@, "month,m2,m2_yoy,m1,m1_yoy,m0,m0_yoy"@), ("社融"@, "sf_month"@, "month,inc_month,inc_cum,stk_end"@)] } else { Seq::empty() })
        +     (if topics.contains("rates"@) { seq![("LPR"@, "shibor_lpr"@, "date,1y,5y"@), ("Shibor"@, "shibor"@, "date,on,1w,1m,3m,6m,1y"@)] } else { Seq::empty() })
        +     (if topics.contains("pmi"@) { seq![("PMI"@, "cn_pmi"@, "month,pmi010000,pmi010100,pmi010200,pmi010300,pmi010400"@)] } else { Seq::empty() })
        +     (if topics.contains("calendar"@) { seq![("宏观日程"@, "cn_schedule"@, "date,indicator,period,forecast,actual,previous,importance"@)] } else { Seq::empty() })
}

/// The series the topics ask for, in a fixed order.
pub fn macro_series(topics: &Vec<String>) -> (v: Vec<MacroSeries>)
    ensures
        v@.map_values(|s: MacroSeries| (s.title@, s.api@, s.fields@)) == series_spec(views(topics@)),
{
    let mut v: Vec<MacroSeries> = Vec::new();
    if wants(topics, "growth") {
        v.push(MacroSeries { title: "GDP", api: "cn_gdp", fields: "quarter,gdp,yoy,pi,si,ti" });
    }
    if wants(topics, "inflation") {
        v.push(MacroSeries { title: "CPI", api: "cn_cpi", fields: "month,nt_val,nt_yoy,town_val,town_yoy,cnt_val,cnt_yoy" });
        v.push(MacroSeries { title: "PPI", api: "cn_ppi", fields: "month,ppi_yoy,ppi_mp_yoy,ppi_ppi_yoy" });
    }
    if wants(topics, "liquidity") {
        v.push(MacroSeries { title: "M2 / 社融候选", api: "cn_m", fields: "month,m2,m2_yoy,m1,m1_yoy,m0,m0_yoy" });
        v.push(MacroSeries { title: "社融", api: "sf_month", fields: "month,inc_month,inc_cum,stk_end" });
    }
    if wants(topics, "rates") {
        v.push(MacroSeries { title: "LPR", api: "shibor_lpr", fields: "date,1y,5y" });
        v.push(MacroSeries { title: "Shibor", api: "shibor", fields: "date,on,1w,1m,3m,6m,1y" });
    }
    if wants(topics, "pmi") {
        v.push(MacroSeries { title: "PMI", api: "cn_pmi", fields: "month,pmi010000,pmi010100,pmi010200,pmi010300,pmi010400" });
    }
    if wants(topics, "calendar") {
        v.push(MacroSeries { title: "宏观日程", api: "cn_schedule", fields: "date,indicator,period,forecast,actual,previous,importance" });
    }
    assert(v@.map_values(|s: MacroSeries| (s.title@, s.api@, s.fields@)) =~= series_spec(views(topics@)));
    v
}

// ---------------------------------------------------------------------
// Rendering
// ---------------------------------------------------------------------
/// The `label=value` pieces of a row, for the fields whose cell exists
/// and is not empty, in field order.
pub open spec fn summary_parts(fields: Seq<String>, row: Seq<Json>) -> Seq<Seq<char>>
    decreases fields.len(),
{
    if fields.len() == 0 {
        Seq::empty()
    } else {
        let i = fields.len() - 1;
        summary_parts(fields.drop_last(), row) + if i < row.len() && value_text(row[i]).len() > 0 {
            seq![field_label(fields[i]@) + "="@ + value_text(row[i])]
        } else {
            Seq::empty()
        }
    }
}

/// The one-line summary of a row.
pub open spec fn row_summary_text(fields: Seq<String>, row: Seq<Json>) -> Seq<char> {
    join(summary_parts(fields, row), " · "@)
}

impl Table {
    /// The one-line summary of a row.
    pub fn row_summary(&self, row: &[Json]) -> (r: String)
        ensures
            r@ == row_summary_text(self.fields@, row@),
    {
        let mut parts: Vec<String> = Vec::new();
        let mut i: usize = 0;
        while i < self.fields.len()
            invariant
                i <= self.fields.len(),
                views(parts@) == summary_parts(self.fields@.take(i as int), row@),
            decreases self.fields.len() - i,
        {
            assert(self.fields@.take(i + 1).drop_last() =~= self.fields@.take(i as int));
            let ghost before = views(parts@);
            if i < row.len() {
                let value = value_text_exec(&row[i]);
                if !value.as_str().is_empty() {
                    let mut part = owned(macro_field_label(self.fields[i].as_str()));
                    push_str(&mut part, "=");
                    push_str(&mut part, value.as_str());
                    let ghost pv = part@;
                    parts.push(part);
                    assert(views(parts@) =~= before.push(pv));
                }
            }
            assert(views(parts@) =~= summary_parts(self.fields@.take(i + 1), row@));
            i = i + 1;
        }
        assert(self.fields@.take(self.fields.len() as int) =~= self.fields@);
        join_strings(&parts, " · ")
    }
}

/// The summary lines of rows, in order.
pub open spec fn summary_lines(fields: Seq<String>, rows: Seq<Vec<Json>>) -> Seq<char>
    decreases rows.len(),
{
    if rows.len() == 0 {
        Seq::empty()
    } else {
        summary_lines(fields, rows.drop_last()) + "- "@ + row_summary_text(fields, rows.last()@) + "\n"@
    }
}

/// The section of one series: its heading and its latest `limit` rows.
pub open spec fn latest_section_text(title: Seq<char>, api: Seq<char>, table: Table, limit: usize) -> Seq<char> {
    "### "@ + title + " · "@ + source_label(api) + " · "@ + decimal(table.rows@.len() as nat) + "条\n"@
        + if table.rows@.len() == 0 {
        "- 当前宏观来源没有返回记录；不要从缺口本身推断宏观信号。\n"@
    } else {
        summary_lines(table.fields@, first_n_rows(table.rows@, limit as int))
    }
}

/// The section of one series.
pub fn latest_section(title: &str, api: &str, table: &Table, limit: usize) -> (r: String)
    ensures
        r@ == latest_section_text(title@, api@, *table, limit),
{
    let mut out = owned("### ");
    push_str(&mut out, title);
    push_str(&mut out, " · ");
    push_str(&mut out, macro_source_label(api));
    push_str(&mut out, " · ");
    push_str(&mut out, fmt_u64(table.rows.len() as u64).as_str());
    push_str(&mut out, "条\n");
    if table.rows.len() == 0 {
        push_str(&mut out, "- 当前宏观来源没有返回记录；不要从缺口本身推断宏观信号。\n");
        return out;
    }
    let n = if limit < table.rows.len() {
        limit
    } else {
        table.rows.len()
    };
    assert(first_n_rows(table.rows@, limit as int) =~= table.rows@.take(n as int));
    let ghost head = out@;
    let mut i: usize = 0;
    while i < n
        invariant
            i <= n,
            n <= table.rows@.len(),
            out@ == head + summary_lines(table.fields@, table.rows@.take(i as int)),
        decreases n - i,
    {
        assert(table.rows@.take(i + 1).drop_last() =~= table.rows@.take(i as int));
        push_str(&mut out, "- ");
        push_str(&mut out, table.row_summary(table.rows[i].as_slice()).as_str());
        push_str(&mut out, "\n");
        i = i + 1;
    }
    out
}

/// Every section followed by a newline.
pub open spec fn joined_sections(sections: Seq<Seq<char>>) -> Seq<char>
    decreases sections.len(),
{
    if sections.len() == 0 {
        Seq::empty()
    } else {
        joined_sections(sections.drop_last()) + sections.last() + "\n"@
    }
}

/// The whole reply.
pub open spec fn macro_report_text(sections: Seq<Seq<char>>) -> Seq<char> {
    "## 中国宏观上下文\n\n"@ + joined_sections(sections)
        + "_Caveat: 宏观数据必须通过需求、价格、利率、信用或政策传导链连接到标的，不应直接替代公司与行业事实。_"@
}

/// The whole reply.
pub fn render_macro_report(sections: &Vec<String>) -> (r: String)
    ensures
        r@ == macro_report_text(views(sections@)),
{
    let mut out = owned("## 中国宏观上下文\n\n");
    let ghost head = out@;
    let ghost vs = views(sections@);
    let mut i: usize = 0;
    while i < sections.len()
        invariant
            i <= sections.len(),
            vs == views(sections@),
            out@ == head + joined_sections(vs.take(i as int)),
        decreases sections.len() - i,
    {
        assert(vs.take(i + 1).drop_last() =~= vs.take(i as int));
        push_str(&mut out, sections[i].as_str());
        push_str(&mut out, "\n");
        i = i + 1;
    }
    assert(vs.take(sections.len() as int) =~= vs);
    push_str(
        &mut out,
        "_Caveat: 宏观数据必须通过需求、价格、利率、信用或政策传导链连接到标的，不应直接替代公司与行业事实。_",
    );
    out
}

} // verus!
