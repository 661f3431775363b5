//! A-share capital-flow evidence: which sections a call asks for, the
//! public intraday flow table, and the sections shown for sources that
//! could not be reached.
use vstd::prelude::*;

use crate::get_a_share_industry_context::{clean_dash, debug_opt_i64, message_text, opt_json};
use crate::get_a_share_market_snapshot::{
    compact, compact_text, eastmoney_epoch_text, epoch_text, secid_from_code, secid_of,
    value_text_opt,
};
use crate::get_a_share_research_sources::{opt_view, upper_arg};
use crate::json::{arg_i64, arg_str, arg_u64, get_i64, get_str, get_u64, Json};
use crate::table::opt_text;
use crate::tools::{is_abort, is_abort_error};
use crate::text::{
    ends_with, fmt_i64, owned, push_char, push_str, str_eq, table_line, table_row, to_upper,
    trim, trim_str, upper_case, views,
};

verus! {

/// Trading days a call covers when it names none.
pub const DEFAULT_DAYS: i64 = 10;

/// Most trading days a call covers.
pub const MAX_DAYS: i64 = 30;

/// Rows per ranking when a call names no limit.
pub const DEFAULT_BLOCK_LIMIT: usize = 5;

/// Most rows per ranking.
pub const MAX_BLOCK_LIMIT: usize = 10;

/// The public flow id of a code, after trimming and upper-casing it; an
/// error for a code without an A-share suffix.
pub fn eastmoney_secid(ts_code: &str) -> (r: Result<String, String>)
    ensures
        match r {
            Ok(s) => secid_of(upper_case(trim(ts_code@))) == Some(s@),
            Err(e) => secid_of(upper_case(trim(ts_code@))) is None
                && e@ == "Eastmoney realtime flow expects A-share ts_code with .SH, .SZ, or .BJ suffix"@,
        },
{
    let t = trim_str(ts_code);
    let code = to_upper(t.as_str());
    match secid_from_code(code.as_str()) {
        Some(s) => Ok(s),
        None => Err(
            owned("Eastmoney realtime flow expects A-share ts_code with .SH, .SZ, or .BJ suffix"),
        ),
    }
}

/// Label of a public flow source.
pub open spec fn flow_source_label(source: Seq<char>) -> Seq<char> {
    if source == "eastmoney_push2"@ {
        "公开实时快照"@
    } else if source == "eastmoney_push2delay"@ {
        "公开延迟快照"@
    } else {
        "公开盘中快照"@
    }
}

/// `flow_source_label` of a source.
pub fn eastmoney_flow_source_label(source: &str) -> (r: &'static str)
    ensures
        r@ == flow_source_label(source@),
{
    if str_eq(source, "eastmoney_push2") {
        "公开实时快照"
    } else if str_eq(source, "eastmoney_push2delay") {
        "公开延迟快照"
    } else {
        "公开盘中快照"
    }
}

/// Label of a capital-flow section's source.
pub open spec fn section_source_label(source: Seq<char>) -> Seq<char> {
    if source == "tushare_moneyflow"@ {
        "日频资金流"@
    } else if source == "eastmoney_realtime_flow"@ {
        "盘中资金流"@
    } else if source == "eastmoney_market_block_flow"@ {
        "市场/板块资金流"@
    } else if source == "tushare_hsgt_top10"@ {
        "北向成交活跃股"@
    } else {
        "资金流来源"@
    }
}

/// `section_source_label` of a source.
pub fn capital_flow_source_label(source: &str) -> (r: &'static str)
    ensures
        r@ == section_source_label(source@),
{
    if str_eq(source, "tushare_moneyflow") {
        "日频资金流"
    } else if str_eq(source, "eastmoney_realtime_flow") {
        "盘中资金流"
    } else if str_eq(source, "eastmoney_market_block_flow") {
        "市场/板块资金流"
    } else if str_eq(source, "tushare_hsgt_top10") {
        "北向成交活跃股"
    } else {
        "资金流来源"
    }
}

/// The section shown for a source that failed with message `err`.
pub open spec fn unavailable_text(title: Seq<char>, source: Seq<char>, err: Seq<char>) -> Seq<char> {
    "## "@ + title + " · "@ + section_source_label(source) + " · 来源不可用\n\n- 来源不可用："@
        + compact(err, 180) + "。这代表覆盖/访问缺口，不是有效空结果。\n\n"@
}

/// `unavailable_text` of a failed source.
pub fn unavailable_section(title: &str, source: &str, err: &str) -> (r: String)
    ensures
        r@ == unavailable_text(title@, source@, err@),
{
    let mut out = owned("## ");
    push_str(&mut out, title);
    push_str(&mut out, " · ");
    push_str(&mut out, capital_flow_source_label(source));
    push_str(&mut out, " · 来源不可用\n\n- 来源不可用：");
    push_str(&mut out, compact_text(err, 180).as_str());
    push_str(&mut out, "。这代表覆盖/访问缺口，不是有效空结果。\n\n");
    out
}

/// `out` with a section appended, and a newline after it unless the
/// result already ends with one.
pub open spec fn with_section(out: Seq<char>, section: Seq<char>) -> Seq<char> {
    let joined = out + section;
    if ends_with(joined, seq!['\n']) {
        joined
    } else {
        joined.push('\n')
    }
}

/// Appends a fetched section, ending it with a newline.
pub fn append_section(out: &mut String, section: &str)
    ensures
        final(out)@ == with_section(old(out)@, section@),
{
    push_str(out, section);
    let v = crate::text::chars_of(out.as_str());
    proof {
        let j = v@;
        if j.len() > 0 {
            let t = j.subrange(j.len() - 1, j.len() as int);
            assert(t[0] == j[j.len() - 1]);
            assert(t =~= seq![j[j.len() - 1]]);
            if j[j.len() - 1] != '\n' {
                assert(t[0] != seq!['\n'][0]);
            }
        }
    }
    if !(v.len() > 0 && v[v.len() - 1] == '\n') {
        push_char(out, '\n');
    }
}

/// Appends the section of a source that failed with message `err`.
pub fn append_unavailable(out: &mut String, title: &str, source: &str, err: &str)
    ensures
        final(out)@ == old(out)@ + unavailable_text(title@, source@, err@),
{
    push_str(out, unavailable_section(title, source, err).as_str());
}

/// Appends the outcome of one source: its section when it answered, the
/// unavailable section when it failed, unless the failure is an abort,
/// which ends the call with that failure and appends nothing.
pub fn push_section_result(
    out: &mut String,
    title: &str,
    source: &str,
    result: Result<String, String>,
    cancelled: bool,
) -> (r: Result<(), String>)
    ensures
        match result {
            Ok(section) => r is Ok && final(out)@ == with_section(old(out)@, section@),
            Err(e) => if is_abort(cancelled, e@) {
                r matches Err(m) && m@ == e@ && final(out)@ == old(out)@
            } else {
                r is Ok && final(out)@ == old(out)@ + unavailable_text(title@, source@, e@)
            },
        },
{
    match result {
        Ok(section) => {
            append_section(out, section.as_str());
            Ok(())
        },
        Err(e) => {
            if is_abort_error(cancelled, e.as_str()) {
                Err(e)
            } else {
                append_unavailable(out, title, source, e.as_str());
                Ok(())
            }
        },
    }
}

// ---------------------------------------------------------------------
// What a call asks for
// ---------------------------------------------------------------------
/// The trading days a call covers: its `days` kept within `1..=30`,
/// else ten.
pub open spec fn days_spec(args: Json) -> i64 {
    match arg_i64(args, "days"@) {
        Some(n) => if n < 1 {
            1
        } else if n > MAX_DAYS {
            MAX_DAYS
        } else {
            n
        },
        None => DEFAULT_DAYS,
    }
}

/// Rows per ranking: the call's `limit` kept within `1..=10`, else five.
pub open spec fn block_limit_spec(args: Json) -> usize {
    match arg_u64(args, "limit"@) {
        Some(n) => if n < 1 {
            1
        } else if n > MAX_BLOCK_LIMIT {
            MAX_BLOCK_LIMIT
        } else {
            n as usize
        },
        None => DEFAULT_BLOCK_LIMIT,
    }
}

/// The code of a call, trimmed and upper-cased (kept even when blank).
pub open spec fn code_spec(args: Json) -> Option<Seq<char>> {
    match arg_str(args, "ts_code"@) {
        Some(s) => Some(upper_case(trim(s))),
        None => None,
    }
}

/// What a capital-flow call fetches.
#[allow(inconsistent_fields)]
pub enum FlowPlan {
    StockFlow { ts_code: String, days: i64 },
    RealtimeStockFlow { ts_code: String },
    MarketBlockFlow { limit: usize },
    MarketFlow { days: i64 },
    /// A board ranking: `kind` is the board kind the source files it
    /// under, `title` the heading.
    BoardFlow { kind: &'static str, title: &'static str, limit: usize },
    Northbound,
    /// Stock history and snapshot when there is a code, then the market
    /// snapshot and the northbound list.
    Both { ts_code: Option<String>, days: i64, limit: usize },
}

/// The plan a call stands for, or the error it is refused with.
pub open spec fn flow_plan_ok(args: Json, plan: FlowPlan) -> bool {
    let data_type = match arg_str(args, "data_type"@) {
        Some(t) => t,
        None => "both"@,
    };
    let code = code_spec(args);
    let days = days_spec(args);
    let limit = block_limit_spec(args);
    if data_type == "stock_flow"@ {
        plan matches FlowPlan::StockFlow { ts_code, days: d } && code == Some(ts_code@) && d == days
    } else if data_type == "realtime_stock_flow"@ {
        plan matches FlowPlan::RealtimeStockFlow { ts_code } && code == Some(ts_code@)
    } else if data_type == "market_block_flow"@ {
        plan matches FlowPlan::MarketBlockFlow { limit: l } && l == limit
    } else if data_type == "market_flow"@ {
        plan matches FlowPlan::MarketFlow { days: d } && d == days
    } else if data_type == "industry_flow"@ {
        plan matches FlowPlan::BoardFlow { kind, title, limit: l } && kind@ == "行业"@ && title@
            == "行业板块"@ && l == limit
    } else if data_type == "concept_flow"@ {
        plan matches FlowPlan::BoardFlow { kind, title, limit: l } && kind@ == "概念"@ && title@
            == "概念板块"@ && l == limit
    } else if data_type == "northbound"@ {
        plan is Northbound
    } else if data_type == "both"@ {
        plan matches FlowPlan::Both { ts_code, days: d, limit: l } && opt_view(ts_code) == code && d
            == days && l == limit
    } else {
        false
    }
}

/// The error a call is refused with.
pub open spec fn flow_plan_error(args: Json) -> Seq<char> {
    let data_type = match arg_str(args, "data_type"@) {
        Some(t) => t,
        None => "both"@,
    };
    if data_type == "stock_flow"@ {
        "'ts_code' is required for stock_flow data_type"@
    } else if data_type == "realtime_stock_flow"@ {
        "'ts_code' is required for realtime_stock_flow data_type"@
    } else {
        "unsupported data_type: "@ + data_type
    }
}

/// Reads a capital-flow call: its data type (default `both`), code,
/// days and ranking limit.
pub fn flow_plan(args: &Json) -> (r: Result<FlowPlan, String>)
    ensures
        match r {
            Ok(plan) => flow_plan_ok(*args, plan),
            Err(e) => e@ == flow_plan_error(*args) && forall|p: FlowPlan| !flow_plan_ok(*args, p),
        },
{
    let data_type = match get_str(args, "data_type") {
        Some(t) => t,
        None => "both",
    };
    let ts_code = match get_str(args, "ts_code") {
        Some(s) => {
            let t = trim_str(s);
            Some(to_upper(t.as_str()))
        },
        None => None,
    };
    let days: i64 = match get_i64(args, "days") {
        Some(n) => if n < 1 {
            1
        } else if n > MAX_DAYS {
            MAX_DAYS
        } else {
            n
        },
        None => DEFAULT_DAYS,
    };
    let limit: usize = match get_u64(args, "limit") {
        Some(n) => if n < 1 {
            1
        } else if n > 10 {
            MAX_BLOCK_LIMIT
        } else {
            n as usize
        },
        None => DEFAULT_BLOCK_LIMIT,
    };
    if str_eq(data_type, "stock_flow") {
        match ts_code {
            Some(code) => Ok(FlowPlan::StockFlow { ts_code: code, days }),
            None => Err(owned("'ts_code' is required for stock_flow data_type")),
        }
    } else if str_eq(data_type, "realtime_stock_flow") {
        match ts_code {
            Some(code) => Ok(FlowPlan::RealtimeStockFlow { ts_code: code }),
            None => Err(owned("'ts_code' is required for realtime_stock_flow data_type")),
        }
    } else if str_eq(data_type, "market_block_flow") {
        Ok(FlowPlan::MarketBlockFlow { limit })
    } else if str_eq(data_type, "market_flow") {
        Ok(FlowPlan::MarketFlow { days })
    } else if str_eq(data_type, "industry_flow") {
        Ok(FlowPlan::BoardFlow { kind: "行业", title: "行业板块", limit })
    } else if str_eq(data_type, "concept_flow") {
        Ok(FlowPlan::BoardFlow { kind: "概念", title: "概念板块", limit })
    } else if str_eq(data_type, "northbound") {
        Ok(FlowPlan::Northbound)
    } else if str_eq(data_type, "both") {
        Ok(FlowPlan::Both { ts_code, days, limit })
    } else {
        let mut e = owned("unsupported data_type: ");
        push_str(&mut e, data_type);
        Err(e)
    }
}

// ---------------------------------------------------------------------
// Stock flow
// ---------------------------------------------------------------------
/// How a stock is named in headings: `name（code）`, or the code alone.
pub open spec fn stock_label_text(name: Option<Seq<char>>, ts_code: Seq<char>) -> Seq<char> {
    match name {
        Some(n) => n + "（"@ + ts_code + "）"@,
        None => ts_code,
    }
}

/// `stock_label_text` of a name and code.
pub fn stock_label(name: Option<&str>, ts_code: &str) -> (r: String)
    ensures
        r@ == stock_label_text(
            match name {
                Some(n) => Some(n@),
                None => None,
            },
            ts_code@,
        ),
{
    match name {
        Some(n) => {
            let mut out = owned(n);
            push_str(&mut out, "（");
            push_str(&mut out, ts_code);
            push_str(&mut out, "）");
            out
        },
        None => owned(ts_code),
    }
}

/// The daily-flow section when the source returned no rows.
pub fn empty_stock_flow(label: &str) -> (r: String)
    ensures
        r@ == "## "@ + label@
            + " · 日频资金流向\n\n- 当前日频资金流来源没有返回记录。这是所选来源和参数下的有效空结果，不代表资金流为零；使用前需核验代码与来源覆盖。\n"@,
{
    let mut out = owned("## ");
    push_str(&mut out, label);
    push_str(
        &mut out,
        " · 日频资金流向\n\n- 当前日频资金流来源没有返回记录。这是所选来源和参数下的有效空结果，不代表资金流为零；使用前需核验代码与来源覆盖。\n",
    );
    out
}

// ---------------------------------------------------------------------
// Public intraday flow
// ---------------------------------------------------------------------
/// One row of the public intraday flow list.
pub struct EastmoneyFlowRow {
    pub code: Option<Json>,
    pub name: Option<Json>,
    pub update_time: Option<Json>,
    pub last: Option<Json>,
    pub pct: Option<Json>,
    pub turnover: Option<Json>,
    pub main_net: Option<Json>,
    pub main_ratio: Option<Json>,
    pub super_large_net: Option<Json>,
    pub super_large_ratio: Option<Json>,
    pub large_net: Option<Json>,
    pub large_ratio: Option<Json>,
    pub medium_net: Option<Json>,
    pub medium_ratio: Option<Json>,
    pub small_net: Option<Json>,
    pub small_ratio: Option<Json>,
}

/// The cells of one intraday flow row.
pub open spec fn flow_cells(r: EastmoneyFlowRow) -> Seq<Seq<char>> {
    seq![
        opt_text(r.code),
        opt_text(r.name),
        epoch_text(r.update_time),
        opt_text(r.last),
        opt_text(r.pct),
        opt_text(r.turnover),
        opt_text(r.main_net),
        opt_text(r.main_ratio),
        opt_text(r.super_large_net),
        opt_text(r.super_large_ratio),
        opt_text(r.large_net),
        opt_text(r.large_ratio),
        opt_text(r.medium_net),
        opt_text(r.medium_ratio),
        opt_text(r.small_net),
        opt_text(r.small_ratio),
    ]
}

/// The table lines of intraday flow rows, in order.
pub open spec fn flow_lines(rows: Seq<EastmoneyFlowRow>) -> Seq<char>
    decreases rows.len(),
{
    if rows.len() == 0 {
        Seq::empty()
    } else {
        flow_lines(rows.drop_last()) + table_row(flow_cells(rows.last()))
    }
}

/// The intraday flow section of a code from the source `source`.
pub open spec fn realtime_flow_text(ts_code: Seq<char>, source: Seq<char>, rows: Seq<EastmoneyFlowRow>) -> Seq<char> {
    "## "@ + ts_code + " · 盘中资金流向 · "@ + flow_source_label(source) + "\n\n"@
        + "| 代码 | 名称 | 更新时间 | 最新价 | 涨跌幅% | 成交额(元) | 主力净流入(元) | 主力净占比% | 超大单净流入(元) | 超大单净占比% | 大单净流入(元) | 大单净占比% | 中单净流入(元) | 中单净占比% | 小单净流入(元) | 小单净占比% |\n"@
        + "|---|---|---|---:|---:|---:|---:|---:|---:|---:|---:|---:|---:|---:|---:|---:|\n"@ + (if rows.len()
        == 0 {
        "| - | - | - | - | - | - | - | - | - | - | - | - | - | - | - | - |\n"@
            + "\n_当前盘中资金流来源没有返回记录；这是有效空结果，不代表资金流为零。_\n"@
    } else {
        flow_lines(rows)
    })
        + "\n_来源: 东方财富公开盘中资金流；单位为元/百分比。它补充当前交易时段观察，不替代日频历史口径，也不要与万元字段直接相加。_\n"@
}

/// The table line of one intraday flow row.
#[verifier::spinoff_prover]
#[verifier::rlimit(40)]
pub fn flow_line(r: &EastmoneyFlowRow) -> (out: String)
    ensures
        out@ == table_row(flow_cells(*r)),
{
    let c0 = value_text_opt(r.code.as_ref());
    let c1 = value_text_opt(r.name.as_ref());
    let c2 = eastmoney_epoch_text(r.update_time.as_ref());
    let c3 = value_text_opt(r.last.as_ref());
    let c4 = value_text_opt(r.pct.as_ref());
    let c5 = value_text_opt(r.turnover.as_ref());
    let c6 = value_text_opt(r.main_net.as_ref());
    let c7 = value_text_opt(r.main_ratio.as_ref());
    let c8 = value_text_opt(r.super_large_net.as_ref());
    let c9 = value_text_opt(r.super_large_ratio.as_ref());
    let c10 = value_text_opt(r.large_net.as_ref());
    let c11 = value_text_opt(r.large_ratio.as_ref());
    let c12 = value_text_opt(r.medium_net.as_ref());
    let c13 = value_text_opt(r.medium_ratio.as_ref());
    let c14 = value_text_opt(r.small_net.as_ref());
    let c15 = value_text_opt(r.small_ratio.as_ref());
    let ghost want = seq![c0@, c1@, c2@, c3@, c4@, c5@, c6@, c7@, c8@, c9@, c10@, c11@, c12@, c13@, c14@, c15@];
    assert(want =~= flow_cells(*r));
    let mut cells: Vec<String> = Vec::new();
    cells.push(c0);
    cells.push(c1);
    cells.push(c2);
    cells.push(c3);
    cells.push(c4);
    cells.push(c5);
    cells.push(c6);
    cells.push(c7);
    cells.push(c8);
    cells.push(c9);
    cells.push(c10);
    cells.push(c11);
    cells.push(c12);
    cells.push(c13);
    cells.push(c14);
    cells.push(c15);
    assert(views(cells@) =~= want);
    table_line(&cells)
}

/// The intraday flow section of a code from the source `source`.
pub fn render_realtime_flow(ts_code: &str, source: &str, rows: &Vec<EastmoneyFlowRow>) -> (r: String)
    ensures
        r@ == realtime_flow_text(ts_code@, source@, rows@),
{
    let mut out = owned("## ");
    push_str(&mut out, ts_code);
    push_str(&mut out, " · 盘中资金流向 · ");
    push_str(&mut out, eastmoney_flow_source_label(source));
    push_str(&mut out, "\n\n");
    push_str(
        &mut out,
        "| 代码 | 名称 | 更新时间 | 最新价 | 涨跌幅% | 成交额(元) | 主力净流入(元) | 主力净占比% | 超大单净流入(元) | 超大单净占比% | 大单净流入(元) | 大单净占比% | 中单净流入(元) | 中单净占比% | 小单净流入(元) | 小单净占比% |\n",
    );
    push_str(&mut out, "|---|---|---|---:|---:|---:|---:|---:|---:|---:|---:|---:|---:|---:|---:|---:|\n");
    if rows.len() == 0 {
        push_str(&mut out, "| - | - | - | - | - | - | - | - | - | - | - | - | - | - | - | - |\n");
        push_str(&mut out, "\n_当前盘中资金流来源没有返回记录；这是有效空结果，不代表资金流为零。_\n");
    } else {
        let ghost head = out@;
        let mut i: usize = 0;
        while i < rows.len()
            invariant
                i <= rows.len(),
                out@ == head + flow_lines(rows@.take(i as int)),
            decreases rows.len() - i,
        {
            assert(rows@.take(i + 1).drop_last() =~= rows@.take(i as int));
            push_str(&mut out, flow_line(&rows[i]).as_str());
            i = i + 1;
        }
        assert(rows@.take(rows.len() as int) =~= rows@);
    }
    push_str(
        &mut out,
        "\n_来源: 东方财富公开盘中资金流；单位为元/百分比。它补充当前交易时段观察，不替代日频历史口径，也不要与万元字段直接相加。_\n",
    );
    out
}

/// The error a public flow reply stands for unless its `rc` is zero.
pub fn flow_rc_error(rc: Option<i64>, message: &Option<String>, msg: &Option<String>) -> (r: Option<
    String,
>)
    ensures
        match rc {
            Some(0) => r is None,
            _ => r matches Some(e) && e@ == "Eastmoney flow returned rc="@ + debug_opt_i64(rc) + ": "@
                + match (if clean_dash(opt_view(*message)) is Some {
                clean_dash(opt_view(*message))
            } else {
                clean_dash(opt_view(*msg))
            }) {
                Some(m) => m,
                None => "unknown error"@,
            },
        },
{
    if rc == Some(0i64) {
        return None;
    }
    let mut out = owned("Eastmoney flow returned rc=");
    match rc {
        Some(n) => {
            push_str(&mut out, "Some(");
            push_str(&mut out, fmt_i64(n).as_str());
            push_str(&mut out, ")");
        },
        None => push_str(&mut out, "None"),
    }
    push_str(&mut out, ": ");
    match message_text(message, msg) {
        Some(m) => push_str(&mut out, m.as_str()),
        None => push_str(&mut out, "unknown error"),
    }
    Some(out)
}


/// A board ranking is headed by its own board kind: the title is the
/// kind followed by `板块`, and the industry and concept rankings rank
/// different kinds of board: `industry_flow` ranks `行业` boards,
/// `concept_flow` ranks `概念` boards.
pub proof fn lemma_board_plans_rank_their_kind(a: Json, pa: FlowPlan, b: Json, pb: FlowPlan)
    requires
        flow_plan_ok(a, pa),
        flow_plan_ok(b, pb),
        arg_str(a, "data_type"@) == Some("industry_flow"@),
        arg_str(b, "data_type"@) == Some("concept_flow"@),
    ensures
        pa matches FlowPlan::BoardFlow { kind, title, .. } && kind@ == "行业"@ && title@ == kind@ + "板块"@,
        pb matches FlowPlan::BoardFlow { kind, title, .. } && kind@ == "概念"@ && title@ == kind@ + "板块"@,
        pa->kind@ != pb->kind@,
{
    reveal_strlit("industry_flow");
    reveal_strlit("concept_flow");
    reveal_strlit("stock_flow");
    reveal_strlit("realtime_stock_flow");
    reveal_strlit("market_block_flow");
    reveal_strlit("market_flow");
    reveal_strlit("行业");
    reveal_strlit("概念");
    reveal_strlit("板块");
    reveal_strlit("行业板块");
    reveal_strlit("概念板块");
    assert(("行业板块"@) =~= "行业"@ + "板块"@);
    assert(("概念板块"@) =~= "概念"@ + "板块"@);
    assert(("行业"@)[0] != ("概念"@)[0]);
    assert(("industry_flow"@)[0] != ("stock_flow"@)[0]);
    assert(("industry_flow"@)[0] != ("realtime_stock_flow"@)[0]);
    assert(("industry_flow"@)[0] != ("market_block_flow"@)[0]);
    assert(("industry_flow"@)[0] != ("market_flow"@)[0]);
    assert(("concept_flow"@)[0] != ("stock_flow"@)[0]);
    assert(("concept_flow"@)[0] != ("realtime_stock_flow"@)[0]);
    assert(("concept_flow"@)[0] != ("market_block_flow"@)[0]);
    assert(("concept_flow"@)[0] != ("market_flow"@)[0]);
    assert(("concept_flow"@)[0] != ("industry_flow"@)[0]);
}

} // verus!
