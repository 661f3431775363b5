//! Argument checks of the data tools: required symbols, choices among
//! fixed values, day windows and filter lists.
use vstd::prelude::*;

use crate::json::{arg_array, arg_str, arg_u64, get_array, get_str, get_u64, str_items, str_items_exec, Json};
use crate::text::{decimal, fmt_u64, join, join_strings, owned, push_str, str_eq, views};

verus! {

// ---------------------------------------------------------------------
// Generic checks
// ---------------------------------------------------------------------
/// Whether `choices` holds `s`.
pub fn is_one_of(s: &str, choices: &Vec<String>) -> (r: bool)
    ensures
        r == views(choices@).contains(s@),
{
    let ghost vs = views(choices@);
    let mut i: usize = 0;
    while i < choices.len()
        invariant
            i <= choices.len(),
            vs == views(choices@),
            forall|j: int| 0 <= j < i ==> vs[j] != s@,
        decreases choices.len() - i,
    {
        if str_eq(choices[i].as_str(), s) {
            assert(vs[i as int] == s@);
            return true;
        }
        i = i + 1;
    }
    false
}

/// The text argument `key`, or `default`.
pub open spec fn str_or(args: Json, key: Seq<char>, default: Seq<char>) -> Seq<char> {
    match arg_str(args, key) {
        Some(s) => s,
        None => default,
    }
}

/// `{tool}: invalid {noun} '{value}' (try a/b/c){tail}`.
pub open spec fn choice_error(tool: Seq<char>, noun: Seq<char>, value: Seq<char>, choices: Seq<Seq<char>>, tail: Seq<char>) -> Seq<char> {
    tool + ": invalid "@ + noun + " '"@ + value + "' (try "@ + join(choices, "/"@) + ")"@ + tail
}

/// The outcome of a choice among fixed values.
pub open spec fn choice_ok(args: Json, key: Seq<char>, default: Seq<char>, choices: Seq<Seq<char>>, tool: Seq<char>, noun: Seq<char>, tail: Seq<char>, r: Result<String, String>) -> bool {
    let v = str_or(args, key, default);
    if choices.contains(v) {
        r matches Ok(s) && s@ == v
    } else {
        r matches Err(e) && e@ == choice_error(tool, noun, v, choices, tail)
    }
}

/// The text argument `key` (else `default`) when it is one of `choices`.
pub fn choice_arg(args: &Json, key: &str, default: &str, choices: &Vec<String>, tool: &str, noun: &str, tail: &str) -> (r: Result<String, String>)
    ensures
        choice_ok(*args, key@, default@, views(choices@), tool@, noun@, tail@, r),
{
    let v = match get_str(args, key) {
        Some(s) => s,
        None => default,
    };
    if is_one_of(v, choices) {
        return Ok(owned(v));
    }
    let mut e = owned(tool);
    push_str(&mut e, ": invalid ");
    push_str(&mut e, noun);
    push_str(&mut e, " '");
    push_str(&mut e, v);
    push_str(&mut e, "' (try ");
    push_str(&mut e, join_strings(choices, "/").as_str());
    push_str(&mut e, ")");
    push_str(&mut e, tail);
    Err(e)
}

/// The required text argument `key`, else the error `missing`.
pub fn required_str(args: &Json, key: &str, missing: &str) -> (r: Result<String, String>)
    ensures
        match arg_str(*args, key@) {
            Some(s) => r matches Ok(t) && t@ == s,
            None => r matches Err(e) && e@ == missing@,
        },
{
    match get_str(args, key) {
        Some(s) => Ok(owned(s)),
        None => Err(owned(missing)),
    }
}

fn push_owned(v: &mut Vec<String>, s: &str)
    ensures
        views(final(v)@) == views(old(v)@).push(s@),
{
    let ghost before = views(v@);
    v.push(owned(s));
    assert(views(v@) =~= before.push(s@));
}

fn strings2(a: &str, b: &str) -> (v: Vec<String>)
    ensures
        views(v@) == seq![a@, b@],
{
    let mut v: Vec<String> = Vec::new();
    assert(views(v@) =~= Seq::<Seq<char>>::empty());
    push_owned(&mut v, a);
    push_owned(&mut v, b);
    assert(views(v@) =~= seq![a@, b@]);
    v
}

fn strings3(a: &str, b: &str, c: &str) -> (v: Vec<String>)
    ensures
        views(v@) == seq![a@, b@, c@],
{
    let mut v = strings2(a, b);
    push_owned(&mut v, c);
    assert(views(v@) =~= seq![a@, b@, c@]);
    v
}

fn strings4(a: &str, b: &str, c: &str, d: &str) -> (v: Vec<String>)
    ensures
        views(v@) == seq![a@, b@, c@, d@],
{
    let mut v = strings3(a, b, c);
    push_owned(&mut v, d);
    assert(views(v@) =~= seq![a@, b@, c@, d@]);
    v
}

fn strings5(a: &str, b: &str, c: &str, d: &str, e: &str) -> (v: Vec<String>)
    ensures
        views(v@) == seq![a@, b@, c@, d@, e@],
{
    let mut v = strings4(a, b, c, d);
    push_owned(&mut v, e);
    assert(views(v@) =~= seq![a@, b@, c@, d@, e@]);
    v
}

fn push_all(v: &mut Vec<String>, w: Vec<String>)
    ensures
        views(final(v)@) == views(old(v)@) + views(w@),
{
    let ghost start = views(v@);
    let mut i: usize = 0;
    while i < w.len()
        invariant
            i <= w.len(),
            views(v@) == start + views(w@).take(i as int),
        decreases w.len() - i,
    {
        let ghost before = views(v@);
        v.push(owned(w[i].as_str()));
        assert(views(w@).take(i + 1) =~= views(w@).take(i as int).push(w@[i as int]@));
        assert(views(v@) =~= before.push(w@[i as int]@));
        i = i + 1;
    }
    assert(views(w@).take(w.len() as int) =~= views(w@));
}

// ---------------------------------------------------------------------
// Focus choices
// ---------------------------------------------------------------------
/// The focuses of `macro_indicators`.
pub open spec fn macro_focuses() -> Seq<Seq<char>> {
    seq!["inflation"@, "growth"@, "money"@, "policy"@, "calendar"@, "intl_rates"@]
}

/// The focus of a `macro_indicators` call, `inflation` by default.
pub fn macro_indicators_focus(args: &Json) -> (r: Result<String, String>)
    ensures
        choice_ok(*args, "focus"@, "inflation"@, macro_focuses(), "macro_indicators"@, "focus"@, ""@, r),
{
    let mut c = strings5("inflation", "growth", "money", "policy", "calendar");
    push_owned(&mut c, "intl_rates");
    assert(views(c@) =~= macro_focuses());
    choice_arg(args, "focus", "inflation", &c, "macro_indicators", "focus", "")
}

/// The focuses of `stock_overview`.
pub open spec fn stock_focuses() -> Seq<Seq<char>> {
    seq!["overview"@, "valuation"@, "business"@, "holders"@, "financial"@, "technical"@, "corp_action"@]
}

/// The arguments of a `stock_overview` call after its symbol.
pub fn stock_overview_focus(args: &Json) -> (r: Result<String, String>)
    ensures
        choice_ok(*args, "focus"@, "overview"@, stock_focuses(), "stock_overview"@, "focus"@, ""@, r),
{
    let mut c = strings5("overview", "valuation", "business", "holders", "financial");
    push_all(&mut c, strings2("technical", "corp_action"));
    assert(views(c@) =~= stock_focuses());
    choice_arg(args, "focus", "overview", &c, "stock_overview", "focus", "")
}

/// The focuses of `industry_landscape`.
pub open spec fn landscape_focuses() -> Seq<Seq<char>> {
    seq!["leaders"@, "valuation"@, "capital_flow"@, "concepts"@, "index"@]
}

/// The target and focus of an `industry_landscape` call.
pub fn industry_landscape_args(args: &Json) -> (r: Result<(String, String), String>)
    ensures
        match arg_str(*args, "target"@) {
            None => r matches Err(e) && e@ == "industry_landscape: missing 'target' (symbol or industry name)."@,
            Some(t) => {
                let v = str_or(*args, "focus"@, "leaders"@);
                if landscape_focuses().contains(v) {
                    r matches Ok(p) && p.0@ == t && p.1@ == v
                } else {
                    r matches Err(e) && e@ == choice_error(
                        "industry_landscape"@,
                        "focus"@,
                        v,
                        landscape_focuses(),
                        ""@,
                    )
                }
            },
        },
{
    let target = match required_str(args, "target", "industry_landscape: missing 'target' (symbol or industry name).") {
        Ok(t) => t,
        Err(e) => return Err(e),
    };
    let c = strings5("leaders", "valuation", "capital_flow", "concepts", "index");
    assert(views(c@) =~= landscape_focuses());
    match choice_arg(args, "focus", "leaders", &c, "industry_landscape", "focus", "") {
        Ok(f) => Ok((target, f)),
        Err(e) => Err(e),
    }
}

/// The focuses of `market_overview`.
pub open spec fn overview_focuses() -> Seq<Seq<char>> {
    seq!["snapshot"@, "capital_flow"@, "hot_industries"@, "extreme_movers"@, "north_money"@]
}

/// The focus of a `market_overview` call, `snapshot` by default.
pub fn market_overview_focus(args: &Json) -> (r: Result<String, String>)
    ensures
        choice_ok(*args, "focus"@, "snapshot"@, overview_focuses(), "market_overview"@, "focus"@, ""@, r),
{
    let c = strings5("snapshot", "capital_flow", "hot_industries", "extreme_movers", "north_money");
    assert(views(c@) =~= overview_focuses());
    choice_arg(args, "focus", "snapshot", &c, "market_overview", "focus", "")
}

// ---------------------------------------------------------------------
// Chart data
// ---------------------------------------------------------------------
/// The ranges of `chart_data`.
pub open spec fn chart_ranges() -> Seq<Seq<char>> {
    seq!["1d"@, "5d"@, "1m"@, "3m"@, "6m"@, "1y"@, "3y"@, "5y"@]
}

/// The kinds of `chart_data`.
pub open spec fn chart_kinds() -> Seq<Seq<char>> {
    seq!["candles"@, "with_volume"@, "with_ma"@, "with_indicators"@]
}

/// The bar size and bar count a range asks for.
pub open spec fn range_bars(range: Seq<char>) -> (Seq<char>, u64) {
    if range == "1d"@ {
        ("daily"@, 1)
    } else if range == "5d"@ {
        ("daily"@, 5)
    } else if range == "1m"@ {
        ("daily"@, 22)
    } else if range == "3m"@ {
        ("daily"@, 66)
    } else if range == "6m"@ {
        ("daily"@, 132)
    } else if range == "1y"@ {
        ("daily"@, 252)
    } else if range == "3y"@ {
        ("weekly"@, 156)
    } else if range == "5y"@ {
        ("monthly"@, 60)
    } else {
        ("daily"@, 60)
    }
}

/// The arguments of a `chart_data` call after its symbol.
pub struct ChartArgs {
    pub range: String,
    pub kind: String,
    /// `daily`, `weekly` or `monthly`.
    pub granularity: String,
    pub want_count: u64,
}

/// Reads the range (`3m` by default) and kind (`candles` by default) of
/// a `chart_data` call, and the bars the range asks for.
pub fn chart_data_args(args: &Json) -> (r: Result<ChartArgs, String>)
    ensures
        ({
            let range = str_or(*args, "range"@, "3m"@);
            let kind = str_or(*args, "kind"@, "candles"@);
            if !chart_ranges().contains(range) {
                r matches Err(e) && e@ == choice_error("chart_data"@, "range"@, range, chart_ranges(), ""@)
            } else if !chart_kinds().contains(kind) {
                r matches Err(e) && e@ == choice_error("chart_data"@, "kind"@, kind, chart_kinds(), ""@)
            } else {
                r matches Ok(a) && a.range@ == range && a.kind@ == kind && a.granularity@ == range_bars(
                    range,
                ).0 && a.want_count == range_bars(range).1
            }
        }),
{
    let mut ranges = strings4("1d", "5d", "1m", "3m");
    push_all(&mut ranges, strings4("6m", "1y", "3y", "5y"));
    assert(views(ranges@) =~= chart_ranges());
    let range = match choice_arg(args, "range", "3m", &ranges, "chart_data", "range", "") {
        Ok(r) => r,
        Err(e) => return Err(e),
    };
    let kinds = strings4("candles", "with_volume", "with_ma", "with_indicators");
    assert(views(kinds@) =~= chart_kinds());
    let kind = match choice_arg(args, "kind", "candles", &kinds, "chart_data", "kind", "") {
        Ok(k) => k,
        Err(e) => return Err(e),
    };
    let r = range.as_str();
    let (granularity, want_count): (&str, u64) = if str_eq(r, "1d") {
        ("daily", 1)
    } else if str_eq(r, "5d") {
        ("daily", 5)
    } else if str_eq(r, "1m") {
        ("daily", 22)
    } else if str_eq(r, "3m") {
        ("daily", 66)
    } else if str_eq(r, "6m") {
        ("daily", 132)
    } else if str_eq(r, "1y") {
        ("daily", 252)
    } else if str_eq(r, "3y") {
        ("weekly", 156)
    } else if str_eq(r, "5y") {
        ("monthly", 60)
    } else {
        ("daily", 60)
    };
    Ok(ChartArgs { range: owned(r), kind, granularity: owned(granularity), want_count })
}

// ---------------------------------------------------------------------
// Vendor tools
// ---------------------------------------------------------------------
/// The dimensions of `get_business_breakdown`.
pub open spec fn breakdown_dims() -> Seq<Seq<char>> {
    seq!["product"@, "industry"@, "region"@]
}

/// The dimension (`product` by default) and period (empty by default)
/// of a `get_business_breakdown` call.
pub fn business_breakdown_args(args: &Json) -> (r: Result<(String, String), String>)
    ensures
        ({
            let dim = str_or(*args, "dim"@, "product"@);
            if breakdown_dims().contains(dim) {
                r matches Ok(p) && p.0@ == dim && p.1@ == str_or(*args, "period"@, ""@)
            } else {
                r matches Err(e) && e@ == choice_error("get_business_breakdown"@, "dim"@, dim, breakdown_dims(), "."@)
            }
        }),
{
    let c = strings3("product", "industry", "region");
    match choice_arg(args, "dim", "product", &c, "get_business_breakdown", "dim", ".") {
        Ok(d) => {
            let period = match get_str(args, "period") {
                Some(p) => owned(p),
                None => owned(""),
            };
            proof {
                reveal_strlit("");
            }
            Ok((d, period))
        },
        Err(e) => Err(e),
    }
}

/// The dimensions of `get_industry_peers`.
pub open spec fn peer_dims() -> Seq<Seq<char>> {
    seq!["valuation"@, "growth"@, "profitability"@]
}

/// The dimension of a `get_industry_peers` call, `valuation` by default.
pub fn industry_peers_dimension(args: &Json) -> (r: Result<String, String>)
    ensures
        choice_ok(*args, "dimension"@, "valuation"@, peer_dims(), "get_industry_peers"@, "dimension"@, "."@, r),
{
    let c = strings3("valuation", "growth", "profitability");
    choice_arg(args, "dimension", "valuation", &c, "get_industry_peers", "dimension", ".")
}

/// The holder kinds of `get_top_holders`.
pub open spec fn holder_kinds() -> Seq<Seq<char>> {
    seq!["total"@, "float"@]
}

/// The holder kind of a `get_top_holders` call, `total` by default.
pub fn top_holders_kind(args: &Json) -> (r: Result<String, String>)
    ensures
        choice_ok(*args, "kind"@, "total"@, holder_kinds(), "get_top_holders"@, "kind"@, "."@, r),
{
    let c = strings2("total", "float");
    choice_arg(args, "kind", "total", &c, "get_top_holders", "kind", ".")
}

// ---------------------------------------------------------------------
// Day windows and filters
// ---------------------------------------------------------------------
/// Days looked back when a call names none.
pub const DEFAULT_DAYS: u64 = 30;

/// Most days a call may look back.
pub const MAX_DAYS: u64 = 365;

/// The `days` a call names, or thirty.
pub open spec fn days_spec(args: Json) -> u64 {
    match arg_u64(args, "days"@) {
        Some(n) => n,
        None => DEFAULT_DAYS,
    }
}

/// `{tool}: days must be in 1..=365 (got {days}){tail}`.
pub open spec fn days_error(tool: Seq<char>, days: u64, tail: Seq<char>) -> Seq<char> {
    tool + ": days must be in 1..="@ + decimal(MAX_DAYS as nat) + " (got "@ + decimal(days as nat) + ")"@ + tail
}

/// The day window of a call when it lies in `1..=365`.
pub fn days_arg(args: &Json, tool: &str, tail: &str) -> (r: Result<u64, String>)
    ensures
        1 <= days_spec(*args) <= MAX_DAYS ==> r == Ok::<u64, String>(days_spec(*args)),
        !(1 <= days_spec(*args) <= MAX_DAYS) ==> (r matches Err(e) && e@ == days_error(tool@, days_spec(*args), tail@)),
{
    let days: u64 = match get_u64(args, "days") {
        Some(n) => n,
        None => DEFAULT_DAYS,
    };
    if days == 0 || days > MAX_DAYS {
        let mut e = owned(tool);
        push_str(&mut e, ": days must be in 1..=");
        push_str(&mut e, fmt_u64(MAX_DAYS).as_str());
        push_str(&mut e, " (got ");
        push_str(&mut e, fmt_u64(days).as_str());
        push_str(&mut e, ")");
        push_str(&mut e, tail);
        return Err(e);
    }
    Ok(days)
}

/// The announcement types a call may filter by.
pub open spec fn announcement_types() -> Seq<Seq<char>> {
    seq!["重大事项"@, "增减持"@, "分红配股"@, "解禁"@, "回购"@, "财报"@, "高管/治理"@, "监管"@, "其它"@]
}

/// The day window and optional type of a `get_announcements` call.
pub fn announcements_args(args: &Json) -> (r: Result<(u64, Option<String>), String>)
    ensures
        ({
            let days = days_spec(*args);
            if !(1 <= days <= MAX_DAYS) {
                r matches Err(e) && e@ == days_error("get_announcements"@, days, "."@)
            } else {
                match arg_str(*args, "type"@) {
                    None => r matches Ok(p) && p.0 == days && p.1 is None,
                    Some(c) => if announcement_types().contains(c) {
                        r matches Ok(p) && p.0 == days && (p.1 matches Some(t) && t@ == c)
                    } else {
                        r matches Err(e) && e@ == "get_announcements: invalid type '"@ + c
                            + "' (see schema enum for valid values)."@
                    },
                }
            }
        }),
{
    let days = match days_arg(args, "get_announcements", ".") {
        Ok(d) => d,
        Err(e) => return Err(e),
    };
    match get_str(args, "type") {
        None => Ok((days, None)),
        Some(c) => {
            let mut types = strings5("重大事项", "增减持", "分红配股", "解禁", "回购");
            push_all(&mut types, strings4("财报", "高管/治理", "监管", "其它"));
            assert(views(types@) =~= announcement_types());
            if is_one_of(c, &types) {
                Ok((days, Some(owned(c))))
            } else {
                let mut e = owned("get_announcements: invalid type '");
                push_str(&mut e, c);
                push_str(&mut e, "' (see schema enum for valid values).");
                Err(e)
            }
        },
    }
}

/// The action kinds `recent_actions` can filter by.
pub open spec fn action_filters() -> Seq<Seq<char>> {
    seq![
        "announcement"@,
        "insider_trade"@,
        "dividend"@,
        "share_unlock"@,
        "block_trade"@,
        "top_list"@,
        "pledge"@,
        "repurchase"@,
        "institution_visit"@,
    ]
}

/// The texts of the `filter` array of a call, none when it has none.
pub open spec fn filters_spec(args: Json) -> Seq<Seq<char>> {
    match arg_array(args, "filter"@) {
        Some(items) => str_items(items),
        None => Seq::empty(),
    }
}

/// The day window and filters of a `recent_actions` call.
pub struct ActionArgs {
    pub days: u64,
    pub filters: Vec<String>,
}

/// Reads the day window, then the filters, of a `recent_actions` call:
/// the first filter that names no action kind is refused.
pub fn recent_actions_args(args: &Json) -> (r: Result<ActionArgs, String>)
    ensures
        ({
            let days = days_spec(*args);
            let fs = filters_spec(*args);
            if !(1 <= days <= MAX_DAYS) {
                r matches Err(e) && e@ == days_error("recent_actions"@, days, ""@)
            } else if exists|i: int| 0 <= i < fs.len() && !action_filters().contains(#[trigger] fs[i]) {
                exists|i: int|
                    0 <= i < fs.len() && !action_filters().contains(#[trigger] fs[i]) && (forall|j: int|
                        0 <= j < i ==> action_filters().contains(#[trigger] fs[j])) && (r matches Err(e) && e@
                        == "recent_actions: invalid filter '"@ + fs[i] + "' (try "@ + join(action_filters(), "/"@)
                        + ")"@)
            } else {
                r matches Ok(a) && a.days == days && views(a.filters@) == fs
            }
        }),
{
    let days = match days_arg(args, "recent_actions", "") {
        Ok(d) => d,
        Err(e) => {
            proof {
                reveal_strlit("");
            }
            return Err(e);
        },
    };
    let filters: Vec<String> = match get_array(args, "filter") {
        Some(items) => str_items_exec(items),
        None => Vec::new(),
    };
    let ghost fs = views(filters@);
    assert(fs == filters_spec(*args)) by {
        if arg_array(*args, "filter"@) is None {
            assert(fs =~= Seq::<Seq<char>>::empty());
        }
    }
    let mut all = strings5("announcement", "insider_trade", "dividend", "share_unlock", "block_trade");
    push_all(&mut all, strings4("top_list", "pledge", "repurchase", "institution_visit"));
    assert(views(all@) =~= action_filters());
    let mut i: usize = 0;
    while i < filters.len()
        invariant
            i <= filters.len(),
            fs == views(filters@),
            fs == filters_spec(*args),
            days == days_spec(*args),
            1 <= days <= MAX_DAYS,
            views(all@) == action_filters(),
            forall|j: int| 0 <= j < i ==> action_filters().contains(#[trigger] fs[j]),
        decreases filters.len() - i,
    {
        if !is_one_of(filters[i].as_str(), &all) {
            let mut e = owned("recent_actions: invalid filter '");
            push_str(&mut e, filters[i].as_str());
            push_str(&mut e, "' (try ");
            push_str(&mut e, join_strings(&all, "/").as_str());
            push_str(&mut e, ")");
            assert(!action_filters().contains(fs[i as int]));
            return Err(e);
        }
        i = i + 1;
    }
    Ok(ActionArgs { days, filters })
}

/// Whether a `recent_actions` call wants the action kind `kind`: every
/// kind when it names no filter.
pub open spec fn wants_action(filters: Seq<Seq<char>>, kind: Seq<char>) -> bool {
    filters.len() == 0 || filters.contains(kind)
}

/// Whether the call wants the action kind `kind`.
pub fn wants(filters: &Vec<String>, kind: &str) -> (r: bool)
    ensures
        r == wants_action(views(filters@), kind@),
{
    filters.len() == 0 || is_one_of(kind, filters)
}

// ---------------------------------------------------------------------
// Symbol lists
// ---------------------------------------------------------------------
/// Most symbols one `market_pulse` call may name.
pub const MAX_SYMBOLS: usize = 10;

/// The text of each item, or empty for an item that is not text.
pub open spec fn item_texts(items: Seq<Json>) -> Seq<Seq<char>> {
    items.map_values(|j: Json| match j.str_spec() {
        Some(s) => s,
        None => Seq::empty(),
    })
}

/// The raw symbols of a `market_pulse` call: one to ten of them.
pub fn market_pulse_symbols(args: &Json) -> (r: Result<Vec<String>, String>)
    ensures
        match arg_array(*args, "symbols"@) {
            None => r matches Err(e) && e@ == "market_pulse: missing 'symbols' (array)."@,
            Some(items) => if items.len() == 0 {
                r matches Err(e) && e@ == "market_pulse: 'symbols' must have ≥ 1 element."@
            } else if items.len() > MAX_SYMBOLS {
                r matches Err(e) && e@ == "market_pulse: too many symbols ("@ + decimal(items.len())
                    + ") — cap is "@ + decimal(MAX_SYMBOLS as nat)
            } else {
                r matches Ok(v) && views(v@) == item_texts(items)
            },
        },
{
    let items = match get_array(args, "symbols") {
        Some(a) => a,
        None => return Err(owned("market_pulse: missing 'symbols' (array).")),
    };
    if items.len() == 0 {
        return Err(owned("market_pulse: 'symbols' must have ≥ 1 element."));
    }
    if items.len() > MAX_SYMBOLS {
        let mut e = owned("market_pulse: too many symbols (");
        push_str(&mut e, fmt_u64(items.len() as u64).as_str());
        push_str(&mut e, ") — cap is ");
        push_str(&mut e, fmt_u64(MAX_SYMBOLS as u64).as_str());
        return Err(e);
    }
    let mut out: Vec<String> = Vec::new();
    let mut i: usize = 0;
    while i < items.len()
        invariant
            i <= items.len(),
            views(out@) == item_texts(items@).take(i as int),
        decreases items.len() - i,
    {
        let ghost before = views(out@);
        let t = match items[i].as_str() {
            Some(s) => owned(s),
            None => {
                proof {
                    reveal_strlit("");
                }
                owned("")
            },
        };
        out.push(t);
        assert(item_texts(items@)[i as int] == t@);
        assert(item_texts(items@).take(i + 1) =~= item_texts(items@).take(i as int).push(t@));
        assert(views(out@) =~= before.push(t@));
        i = i + 1;
    }
    assert(item_texts(items@).take(items.len() as int) =~= item_texts(items@));
    Ok(out)
}

} // verus!
