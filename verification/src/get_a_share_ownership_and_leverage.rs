//! A-share ownership and leverage context: holder counts, top holders,
//! share pledges, margin balances and Stock Connect turnover.
use vstd::prelude::*;

use crate::get_a_share_research_sources::{opt_view, upper_arg, upper_arg_exec};
use crate::get_china_macro_context::find_label;
use crate::json::{arg_array, arg_str, arg_u64, get_array, get_str, get_u64, str_items, str_items_exec, Json};
use crate::table::{cell_text, first_n_rows, Table};
use crate::text::{join, join_strings, owned, push_str, str_eq, views};

verus! {

/// Rows a section lists when the call names no limit.
pub const DEFAULT_LIMIT: usize = 5;

/// Most rows a section lists.
pub const MAX_LIMIT: usize = 20;

/// Human labels of the ownership fields; a field without one shows as is.
pub open spec fn label_table() -> Seq<(Seq<char>, Seq<char>)> {
    seq![
        ("ann_date"@, "公告日"@),
        ("end_date"@, "报告期"@),
        ("holder_num"@, "股东户数"@),
        ("holder_name"@, "股东"@),
        ("hold_amount"@, "持股数"@),
        ("hold_ratio"@, "持股比例"@),
        ("pledge_count"@, "质押笔数"@),
        ("total_share"@, "质押总股数"@),
        ("pledge_ratio"@, "质押比例"@),
        ("trade_date"@, "交易日"@),
        ("rzye"@, "融资余额"@),
        ("rzmre"@, "融资买入"@),
        ("rzche"@, "融资偿还"@),
        ("rqye"@, "融券余额"@),
        ("rzrqye"@, "两融余额"@),
        ("rank"@, "排名"@),
        ("amount"@, "成交额"@),
        ("net_amount"@, "净买入"@),
        ("buy"@, "买入"@),
        ("sell"@, "卖出"@)
    ]
}

/// The label table, as literals.
fn label_table_exec() -> (v: Vec<(&'static str, &'static str)>)
    ensures
        v@.map_values(|p: (&'static str, &'static str)| (p.0@, p.1@)) == label_table(),
{
    let mut v: Vec<(&'static str, &'static str)> = Vec::new();
    v.push(("ann_date", "公告日"));
    v.push(("end_date", "报告期"));
    v.push(("holder_num", "股东户数"));
    v.push(("holder_name", "股东"));
    v.push(("hold_amount", "持股数"));
    v.push(("hold_ratio", "持股比例"));
    v.push(("pledge_count", "质押笔数"));
    v.push(("total_share", "质押总股数"));
    v.push(("pledge_ratio", "质押比例"));
    v.push(("trade_date", "交易日"));
    v.push(("rzye", "融资余额"));
    v.push(("rzmre", "融资买入"));
    v.push(("rzche", "融资偿还"));
    v.push(("rqye", "融券余额"));
    v.push(("rzrqye", "两融余额"));
    v.push(("rank", "排名"));
    v.push(("amount", "成交额"));
    v.push(("net_amount", "净买入"));
    v.push(("buy", "买入"));
    v.push(("sell", "卖出"));
    assert(v@.map_values(|p: (&'static str, &'static str)| (p.0@, p.1@)) =~= label_table());
    v
}

/// The label of an ownership field: its entry in the label table, or the
/// field name itself.
pub open spec fn field_label(field: Seq<char>) -> Seq<char> {
    match find_label(label_table(), field, 0) {
        Some(l) => l,
        None => field,
    }
}

/// `field_label` of a field.
pub fn ownership_field_label<'a>(field: &'a str) -> (r: &'a str)
    ensures
        r@ == field_label(field@),
{
    let t = label_table_exec();
    let ghost tv = t@.map_values(|p: (&'static str, &'static str)| (p.0@, p.1@));
    let mut i: usize = 0;
    while i < t.len()
        invariant
            i <= t.len(),
            tv == t@.map_values(|p: (&'static str, &'static str)| (p.0@, p.1@)),
            tv == label_table(),
            find_label(tv, field@, 0) == find_label(tv, field@, i as int),
        decreases t.len() - i,
    {
        let (name, label) = t[i];
        assert(tv[i as int] == (name@, label@));
        if str_eq(name, field) {
            return label;
        }
        i = i + 1;
    }
    field
}

/// The sections a call asks for when it names none: all four.
pub open spec fn default_sections() -> Seq<Seq<char>> {
    seq!["holders"@, "pledge"@, "margin"@, "connect"@]
}

/// The sections a call asks for.
pub open spec fn sections_spec(args: Json) -> Seq<Seq<char>> {
    match arg_array(args, "sections"@) {
        Some(items) => if str_items(items).len() > 0 {
            str_items(items)
        } else {
            default_sections()
        },
        None => default_sections(),
    }
}

/// `sections_spec` of the call arguments.
pub fn sections(args: &Json) -> (r: Vec<String>)
    ensures
        views(r@) == sections_spec(*args),
{
    match get_array(args, "sections") {
        Some(items) => {
            let v = str_items_exec(items);
            if v.len() > 0 {
                return v;
            }
        },
        None => {},
    }
    let mut d: Vec<String> = Vec::new();
    d.push(owned("holders"));
    d.push(owned("pledge"));
    d.push(owned("margin"));
    d.push(owned("connect"));
    assert(views(d@) =~= default_sections());
    d
}

/// Rows per section: the call's `limit` kept within `1..=20`, else five.
pub open spec fn limit_spec(args: Json) -> usize {
    match arg_u64(args, "limit"@) {
        Some(n) => if n < 1 {
            1
        } else if n > MAX_LIMIT {
            MAX_LIMIT
        } else {
            n as usize
        },
        None => DEFAULT_LIMIT,
    }
}

/// The arguments of an ownership call.
pub struct OwnershipArgs {
    pub ts_code: String,
    pub sections: Vec<String>,
    pub limit: usize,
}

/// Reads an ownership call; the code is required.
pub fn parse_ownership_args(args: &Json) -> (r: Result<OwnershipArgs, String>)
    ensures
        match upper_arg(arg_str(*args, "ts_code"@)) {
            None => r matches Err(e) && e@ == "ts_code is required"@,
            Some(code) => r matches Ok(a) && a.ts_code@ == code && views(a.sections@) == sections_spec(
                *args,
            ) && a.limit == limit_spec(*args),
        },
{
    let ts_code = match upper_arg_exec(get_str(args, "ts_code")) {
        Some(c) => c,
        None => return Err(owned("ts_code is required")),
    };
    let secs = sections(args);
    let limit: usize = match get_u64(args, "limit") {
        Some(n) => if n < 1 {
            1
        } else if n > 20 {
            MAX_LIMIT
        } else {
            n as usize
        },
        None => DEFAULT_LIMIT,
    };
    Ok(OwnershipArgs { ts_code, sections: secs, limit })
}

/// The `label=value` pieces of a row for the named fields that it fills.
pub open spec fn row_parts(t: Table, row: Seq<Json>, fields: Seq<Seq<char>>) -> Seq<Seq<char>>
    decreases fields.len(),
{
    if fields.len() == 0 {
        Seq::empty()
    } else {
        let f = fields.last();
        let value = cell_text(t.fields@, row, f);
        row_parts(t, row, fields.drop_last()) + if value.len() == 0 {
            Seq::empty()
        } else {
            seq![field_label(f) + "="@ + value]
        }
    }
}

/// The lines of rows, each its pieces joined by ` · `.
pub open spec fn rows_lines(t: Table, rows: Seq<Vec<Json>>, fields: Seq<Seq<char>>) -> Seq<char>
    decreases rows.len(),
{
    if rows.len() == 0 {
        Seq::empty()
    } else {
        rows_lines(t, rows.drop_last(), fields) + "- "@ + join(row_parts(t, rows.last()@, fields), " · "@)
            + "\n"@
    }
}

/// The lines a table adds: a valid-empty line without rows, else one
/// line per row of the first `limit`.
pub open spec fn rendered_rows(t: Table, limit: usize, fields: Seq<Seq<char>>) -> Seq<char> {
    if t.rows@.len() == 0 {
        "- 当前来源没有返回记录；这是有效空结果或部分来源缺口，不代表事实不存在。\n"@
    } else {
        rows_lines(t, first_n_rows(t.rows@, limit as int), fields)
    }
}

/// The pieces of one row.
fn row_summary(t: &Table, row: &[Json], fields: &[&str]) -> (r: String)
    ensures
        r@ == join(row_parts(*t, row@, fields@.map_values(|f: &str| f@)), " · "@),
{
    let ghost fs = fields@.map_values(|f: &str| f@);
    let mut parts: Vec<String> = Vec::new();
    let mut i: usize = 0;
    while i < fields.len()
        invariant
            i <= fields.len(),
            fs == fields@.map_values(|f: &str| f@),
            views(parts@) == row_parts(*t, row@, fs.take(i as int)),
        decreases fields.len() - i,
    {
        assert(fs.take(i + 1).drop_last() =~= fs.take(i as int));
        assert(fs.take(i + 1).last() == fields@[i as int]@);
        let ghost before = views(parts@);
        let value = t.text(row, fields[i]);
        if !value.as_str().is_empty() {
            let mut part = owned(ownership_field_label(fields[i]));
            push_str(&mut part, "=");
            push_str(&mut part, value.as_str());
            let ghost pv = part@;
            parts.push(part);
            assert(views(parts@) =~= before.push(pv));
        }
        i = i + 1;
    }
    assert(fs.take(fields.len() as int) =~= fs);
    join_strings(&parts, " · ")
}

/// Appends the lines of a table: the named fields of its first `limit`
/// rows, or a valid-empty line.
pub fn render_rows(out: &mut String, table: &Table, limit: usize, fields: &[&str])
    ensures
        final(out)@ == old(out)@ + rendered_rows(*table, limit, fields@.map_values(|f: &str| f@)),
{
    let ghost fs = fields@.map_values(|f: &str| f@);
    if table.rows.len() == 0 {
        push_str(out, "- 当前来源没有返回记录；这是有效空结果或部分来源缺口，不代表事实不存在。\n");
        return;
    }
    let n = if limit < table.rows.len() {
        limit
    } else {
        table.rows.len()
    };
    assert(first_n_rows(table.rows@, limit as int) =~= table.rows@.take(n as int));
    let ghost head = out@;
    let mut i: usize = 0;
    while i < n
        invariant
            i <= n,
            n <= table.rows@.len(),
            fs == fields@.map_values(|f: &str| f@),
            out@ == head + rows_lines(*table, table.rows@.take(i as int), fs),
        decreases n - i,
    {
        assert(table.rows@.take(i + 1).drop_last() =~= table.rows@.take(i as int));
        let summary = row_summary(table, table.rows[i].as_slice(), fields);
        push_str(out, "- ");
        push_str(out, summary.as_str());
        push_str(out, "\n");
        i = i + 1;
    }
}

/// The heading of the reply.
pub fn ownership_heading(ts_code: &str) -> (r: String)
    ensures
        r@ == "## "@ + ts_code@ + " · 筹码与杠杆上下文\n\n"@,
{
    let mut out = owned("## ");
    push_str(&mut out, ts_code);
    push_str(&mut out, " · 筹码与杠杆上下文\n\n");
    out
}

/// The note shown when the Stock Connect ranking source failed.
pub const CONNECT_UNAVAILABLE: &'static str = "- 沪深港通成交榜来源暂不可用；互联互通分析只保留为边界提示。\n";

/// The caveat that opens the Stock Connect section.
pub const CONNECT_NOTE: &'static str = "\n### 沪深港通披露口径\n- 沪深港通成交榜可作为活跃度/拥挤度线索，但不等同于持续持仓净流入。\n";

/// The closing caveat of the reply.
pub const OWNERSHIP_CAVEAT: &'static str = "\n_Caveat: 筹码、融资和互联互通数据是风险/拥挤度证据，不是独立买卖信号。_";

} // verus!
