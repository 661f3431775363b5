//! Market overview: the cross-links appended after each focus.
use vstd::prelude::*;

use crate::coverage::{closing_lines, closing_text, gap_reply, Coverage};
use crate::json::str_items;
use crate::text::views;
use crate::tools::ToolOutcome;

use crate::tools::{card_of, str_arg_or, ToolUi, ResultArtifact};
use crate::tool_args::str_or;
use crate::json::Json;

use crate::text::{owned, push_str, str_eq};

verus! {

/// The cross-link block after a focus: the full menu after `snapshot`,
/// a short complement after the other known focuses, nothing otherwise.
pub open spec fn focus_hint(focus: Seq<char>) -> Seq<char> {
    if focus == "snapshot"@ {
        "\n---\n**其他视角**(用同一工具不同 focus):\n- 主力资金 / 北向当日:`market_overview(focus=\"capital_flow\")`\n- 行业 top/bot 5:`market_overview(focus=\"hot_industries\")`\n- 涨停 / 跌停 / 连板:`market_overview(focus=\"extreme_movers\")`\n- 北向资金(2024-08-19 起逐日个股停披露,仅当日合计 + 季频持股):`market_overview(focus=\"north_money\")`\n"@
    } else if focus == "capital_flow"@ {
        "\n---\n**互为补充**:`focus=\"hot_industries\"` 看资金落在哪些行业; `focus=\"north_money\"` 看北向当日明细; `focus=\"snapshot\"` 回到指数 + 涨跌家数。\n"@
    } else if focus == "hot_industries"@ {
        "\n---\n**互为补充**:行业资金背后看大盘资金面用 `focus=\"capital_flow\"`; 看具体行业内龙头股用 `industry_landscape(target=\"<行业名>\")`。\n"@
    } else if focus == "extreme_movers"@ {
        "\n---\n**互为补充**:`focus=\"hot_industries\"` 看涨停板背后的行业资金; `focus=\"snapshot\"` 看大盘整体气氛。\n"@
    } else if focus == "north_money"@ {
        "\n---\n**互为补充**:`focus=\"capital_flow\"` 看大盘整体资金面; 个股北向只剩季频(港交所 2024-08-19 起停披露逐日),工具不会伪造。\n"@
    } else {
        ""@
    }
}

/// `focus_hint` of a focus.
pub fn focus_hint_for(focus: &str) -> (r: &'static str)
    ensures
        r@ == focus_hint(focus@),
{
    if str_eq(focus, "snapshot") {
        "\n---\n**其他视角**(用同一工具不同 focus):\n- 主力资金 / 北向当日:`market_overview(focus=\"capital_flow\")`\n- 行业 top/bot 5:`market_overview(focus=\"hot_industries\")`\n- 涨停 / 跌停 / 连板:`market_overview(focus=\"extreme_movers\")`\n- 北向资金(2024-08-19 起逐日个股停披露,仅当日合计 + 季频持股):`market_overview(focus=\"north_money\")`\n"
    } else if str_eq(focus, "capital_flow") {
        "\n---\n**互为补充**:`focus=\"hot_industries\"` 看资金落在哪些行业; `focus=\"north_money\"` 看北向当日明细; `focus=\"snapshot\"` 回到指数 + 涨跌家数。\n"
    } else if str_eq(focus, "hot_industries") {
        "\n---\n**互为补充**:行业资金背后看大盘资金面用 `focus=\"capital_flow\"`; 看具体行业内龙头股用 `industry_landscape(target=\"<行业名>\")`。\n"
    } else if str_eq(focus, "extreme_movers") {
        "\n---\n**互为补充**:`focus=\"hot_industries\"` 看涨停板背后的行业资金; `focus=\"snapshot\"` 看大盘整体气氛。\n"
    } else if str_eq(focus, "north_money") {
        "\n---\n**互为补充**:`focus=\"capital_flow\"` 看大盘整体资金面; 个股北向只剩季频(港交所 2024-08-19 起停披露逐日),工具不会伪造。\n"
    } else {
        ""
    }
}


/// The card of the tool: its display name and card kind.
pub fn ui() -> (u: ToolUi)
    ensures
        u.display_name@ == "大盘全景"@,
        card_of(u.result) == Some("market_overview"@),
{
    ToolUi { display_name: "大盘全景", result: ResultArtifact::Card("market_overview") }
}

/// The card summary of a call: its focus.
pub open spec fn ui_summary_of(args: Json) -> Seq<char> {
    "大盘 · "@ + str_or(args, "focus"@, "snapshot"@)
}

/// `ui_summary_of` the call's arguments.
pub fn ui_summary(args: &Json) -> (r: String)
    ensures
        r@ == ui_summary_of(*args),
{
    let f = str_arg_or(args, "focus", "snapshot");
    let mut out = owned("大盘 · ");
    push_str(&mut out, f);
    out
}


/// The reply of a call: the focus's markdown, the closing lines and the
/// pointer to the other focuses; the payload `{"kind":
/// "market_overview", "focus", "data", "empty_dimensions", "sources"}`.
pub fn overview_reply(focus: &str, md: String, data: Json, c: &Coverage) -> (r: ToolOutcome)
    ensures
        r.model_output@ == md@ + closing_text(views(c.empty_dimensions@), views(c.sources@)) + focus_hint(focus@),
        !r.is_error,
        r.display_payload.get_spec("kind"@) matches Some(Json::String(k)) && k@ == "market_overview"@,
        r.display_payload.get_spec("focus"@) matches Some(Json::String(f)) && f@ == focus@,
        r.display_payload.get_spec("empty_dimensions"@) matches Some(Json::Array(a)) && str_items(a@) == views(
            c.empty_dimensions@,
        ),
        r.display_payload.get_spec("sources"@) matches Some(Json::Array(s)) && str_items(s@) == views(c.sources@),
        r.display_payload.get_spec("data"@) == Some(data),
        r.debug_payload.get_spec("focus"@) matches Some(Json::String(f)) && f@ == focus@,
{
    let mut text = md;
    let closing = closing_lines(c);
    push_str(&mut text, closing.as_str());
    push_str(&mut text, focus_hint_for(focus));
    gap_reply("market_overview", focus, text, data, c)
}

} // verus!
