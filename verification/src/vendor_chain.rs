//! The fallback chain of the vendor-backed tools: vendors are asked in
//! order until one answers, a failure cannot be recovered from, or none
//! is left; every answer is logged.
use vstd::prelude::*;

use crate::json::{arg_u64, get_u64, Json};
use crate::text::{decimal, fmt_u64, join, join_strings, owned, push_str, views};
use crate::tool_args::str_or;
use crate::tools::{card_of, snippet, str_arg_or, summary_snippet, ResultArtifact, ToolUi};

verus! {

/// How one vendor answered.
pub enum AttemptResult {
    Answered,
    Refused { message: String, recoverable: bool },
}

/// Where the chain stands.
#[derive(PartialEq, Eq, Structural)]
pub enum ChainStatus {
    /// The vendor at `tried` is to be asked next.
    Running,
    /// The vendor at this index answered.
    Served(usize),
    /// No vendor answered.
    Failed,
}

/// A fallback chain over `vendors` vendors.
pub struct VendorChain {
    pub vendors: usize,
    pub tried: usize,
    /// `(vendor, "ok" or its error message)`, one per vendor asked.
    pub attempts: Vec<(String, String)>,
    pub status: ChainStatus,
}

/// Attempts as text pairs.
pub open spec fn attempt_views(a: Seq<(String, String)>) -> Seq<(Seq<char>, Seq<char>)> {
    a.map_values(|p: (String, String)| (p.0@, p.1@))
}

/// The status after an answer from the vendor at `tried`.
pub open spec fn next_status(vendors: usize, tried: usize, ok: bool, recoverable: bool) -> ChainStatus {
    if ok {
        ChainStatus::Served(tried)
    } else if !recoverable || tried + 1 >= vendors {
        ChainStatus::Failed
    } else {
        ChainStatus::Running
    }
}

/// Whether an answer is a success, and whether a failure may be
/// recovered from.
pub open spec fn result_flags(r: AttemptResult) -> (bool, bool) {
    match r {
        AttemptResult::Answered => (true, true),
        AttemptResult::Refused { recoverable, .. } => (false, recoverable),
    }
}

/// What an answer logs.
pub open spec fn result_log(r: AttemptResult) -> Seq<char> {
    match r {
        AttemptResult::Answered => "ok"@,
        AttemptResult::Refused { message, .. } => message@,
    }
}

impl VendorChain {
    /// One log line per vendor asked, and the chain running only while
    /// a vendor is left.
    pub open spec fn wf(&self) -> bool {
        &&& self.tried <= self.vendors
        &&& self.attempts@.len() == self.tried
        &&& (self.status is Running ==> self.tried < self.vendors)
        &&& (self.status matches ChainStatus::Served(i) ==> i + 1 == self.tried)
    }

    /// A chain over `vendors` vendors, failed at once when there are none.
    pub fn new(vendors: usize) -> (c: Self)
        ensures
            c.wf(),
            c.vendors == vendors,
            c.tried == 0,
            c.attempts@.len() == 0,
            c.status == if vendors == 0 {
                ChainStatus::Failed
            } else {
                ChainStatus::Running
            },
    {
        VendorChain {
            vendors,
            tried: 0,
            attempts: Vec::new(),
            status: if vendors == 0 {
                ChainStatus::Failed
            } else {
                ChainStatus::Running
            },
        }
    }

    /// Logs the answer of the vendor at `tried`, named `vendor`, and
    /// moves on: served on success, failed on a failure that cannot be
    /// recovered from or by the last vendor, else on to the next.
    pub fn record(&mut self, vendor: &str, result: &AttemptResult)
        requires
            old(self).wf(),
            old(self).status is Running,
        ensures
            final(self).wf(),
            final(self).vendors == old(self).vendors,
            final(self).tried == old(self).tried + 1,
            attempt_views(final(self).attempts@) == attempt_views(old(self).attempts@).push(
                (vendor@, result_log(*result)),
            ),
            final(self).status == next_status(
                old(self).vendors,
                old(self).tried,
                result_flags(*result).0,
                result_flags(*result).1,
            ),
    {
        let ghost before = attempt_views(self.attempts@);
        let (log, status) = match result {
            AttemptResult::Answered => (owned("ok"), ChainStatus::Served(self.tried)),
            AttemptResult::Refused { message, recoverable } => {
                let s = if !*recoverable || self.tried + 1 >= self.vendors {
                    ChainStatus::Failed
                } else {
                    ChainStatus::Running
                };
                (owned(message.as_str()), s)
            },
        };
        let ghost entry = (vendor@, log@);
        self.attempts.push((owned(vendor), log));
        assert(attempt_views(self.attempts@) =~= before.push(entry));
        self.tried = self.tried + 1;
        self.status = status;
    }
}

/// The status a chain over `vendors` vendors reaches on the answers
/// `rs` (success, recoverable), and how many vendors it asked; answers
/// after it stopped are not asked for.
pub open spec fn run_chain(vendors: usize, rs: Seq<(bool, bool)>) -> (ChainStatus, nat)
    decreases rs.len(),
{
    if rs.len() == 0 {
        (if vendors == 0 {
            ChainStatus::Failed
        } else {
            ChainStatus::Running
        }, 0)
    } else {
        let (s, n) = run_chain(vendors, rs.drop_last());
        if s is Running {
            (next_status(vendors, n as usize, rs.last().0, rs.last().1), n + 1)
        } else {
            (s, n)
        }
    }
}

proof fn lemma_run_chain_shape(vendors: usize, rs: Seq<(bool, bool)>)
    ensures
        run_chain(vendors, rs).1 <= rs.len(),
        run_chain(vendors, rs).1 <= vendors,
        run_chain(vendors, rs).0 is Running ==> run_chain(vendors, rs).1 == rs.len() && rs.len() < vendors,
        forall|j: int| 0 <= j < run_chain(vendors, rs).1 ==> !(#[trigger] rs[j]).0 || (run_chain(vendors, rs).0 matches ChainStatus::Served(i) && j == i),
        forall|j: int|
            0 <= j < run_chain(vendors, rs).1 && !(run_chain(vendors, rs).0 is Failed && j + 1 == run_chain(vendors, rs).1)
                ==> (#[trigger] rs[j]).0 || rs[j].1,
        run_chain(vendors, rs).0 matches ChainStatus::Served(i) ==> i + 1 == run_chain(vendors, rs).1 && rs[i as int].0,
        run_chain(vendors, rs).0 is Failed && vendors > 0 ==> run_chain(vendors, rs).1 > 0 && !rs[run_chain(vendors, rs).1 - 1].0
            && (!rs[run_chain(vendors, rs).1 - 1].1 || run_chain(vendors, rs).1 == vendors),
    decreases rs.len(),
{
    if rs.len() > 0 {
        let p = rs.drop_last();
        lemma_run_chain_shape(vendors, p);
        let (s, n) = run_chain(vendors, p);
        assert forall|j: int| 0 <= j < p.len() implies p[j] == rs[j] by {}
        if s is Running {
            assert(n == p.len());
            assert(rs[n as int] == rs.last());
        }
    }
}

/// The vendor that serves is the first that answered, every vendor
/// before it failed with a failure that could be recovered from, and the
/// log holds one line per vendor asked.
pub proof fn lemma_served_is_first_success(vendors: usize, rs: Seq<(bool, bool)>, i: usize)
    requires
        run_chain(vendors, rs).0 == ChainStatus::Served(i),
    ensures
        rs[i as int].0,
        forall|j: int| 0 <= j < i ==> !(#[trigger] rs[j]).0 && rs[j].1,
        run_chain(vendors, rs).1 == i + 1,
        i < vendors,
{
    lemma_run_chain_shape(vendors, rs);
}

/// A chain fails only after a failure that cannot be recovered from, or
/// once every vendor failed.
pub proof fn lemma_failed_means_exhausted(vendors: usize, rs: Seq<(bool, bool)>)
    requires
        run_chain(vendors, rs).0 == ChainStatus::Failed,
        vendors > 0,
    ensures
        ({
            let n = run_chain(vendors, rs).1;
            &&& n > 0
            &&& forall|j: int| 0 <= j < n ==> !(#[trigger] rs[j]).0
            &&& forall|j: int| 0 <= j < n - 1 ==> (#[trigger] rs[j]).1
            &&& (!rs[n - 1].1 || n == vendors)
        }),
{
    lemma_run_chain_shape(vendors, rs);
}

// ---------------------------------------------------------------------
// Replies
// ---------------------------------------------------------------------
/// One log line: `vendor: result`.
pub open spec fn attempt_line(a: (Seq<char>, Seq<char>)) -> Seq<char> {
    a.0 + ": "@ + a.1
}

/// The log as one text: its lines joined by `; `.
pub open spec fn attempts_summary_text(a: Seq<(Seq<char>, Seq<char>)>) -> Seq<char> {
    join(a.map_values(|p: (Seq<char>, Seq<char>)| attempt_line(p)), "; "@)
}

/// The log as one text.
pub fn attempts_summary(attempts: &Vec<(String, String)>) -> (r: String)
    ensures
        r@ == attempts_summary_text(attempt_views(attempts@)),
{
    let ghost a = attempt_views(attempts@);
    let ghost lines = a.map_values(|p: (Seq<char>, Seq<char>)| attempt_line(p));
    let mut parts: Vec<String> = Vec::new();
    let mut i: usize = 0;
    while i < attempts.len()
        invariant
            i <= attempts.len(),
            a == attempt_views(attempts@),
            lines == a.map_values(|p: (Seq<char>, Seq<char>)| attempt_line(p)),
            views(parts@) == lines.take(i as int),
        decreases attempts.len() - i,
    {
        let mut line = owned(attempts[i].0.as_str());
        push_str(&mut line, ": ");
        push_str(&mut line, attempts[i].1.as_str());
        let ghost before = views(parts@);
        parts.push(line);
        assert(lines[i as int] == attempt_line(a[i as int]));
        assert(views(parts@) =~= before.push(lines[i as int]));
        assert(lines.take(i + 1) =~= lines.take(i as int).push(lines[i as int]));
        i = i + 1;
    }
    assert(lines.take(attempts.len() as int) =~= lines);
    join_strings(&parts, "; ")
}

/// The vendor-backed tools whose chain can fail.
pub enum VendorTool {
    Announcements,
    BusinessBreakdown,
    CompanyInfo,
    Concepts,
    Consensus,
    IndustryPeers,
    MarketQuote,
    TopHolders,
}

/// Whether a failed chain is an error of the call (rather than a reply
/// that says the data is unavailable).
pub open spec fn failure_is_error(t: VendorTool) -> bool {
    t is CompanyInfo || t is MarketQuote
}

/// The reply of a tool whose every vendor failed, around the log text.
pub open spec fn fallback_text(t: VendorTool, summary: Seq<char>) -> Seq<char> {
    match t {
        VendorTool::Announcements => "get_announcements: 公告数据不可用（"@ + summary
            + "）。请告知用户无法取得近期公告；不要凭想象列具体公告题目。"@,
        VendorTool::BusinessBreakdown => "get_business_breakdown: 主营构成数据不可用（"@ + summary
            + "）。请告知用户工具暂时无法取数；不要凭印象给比例 — 留 data_available=false 即可。"@,
        VendorTool::CompanyInfo => "get_company_info: all data sources failed ("@ + summary
            + "). Company metadata is currently only available via the primary vendor."@,
        VendorTool::Concepts => "get_concepts: 概念分类不可用（"@ + summary
            + "）。请告知用户工具暂时拿不到题材列表；不要凭印象列概念，避免误导用户。"@,
        VendorTool::Consensus => "get_consensus: 一致预期数据不可用（"@ + summary
            + "）。请明确告知用户卖方一致预期暂时拿不到；不要编造目标价或评级数字。"@,
        VendorTool::IndustryPeers => "get_industry_peers: 同行业对比数据不可用（"@ + summary
            + "）。请勿臆造数据；建议告知用户该工具暂时不可用，可改用 get_company_info / get_financials 看绝对值。"@,
        VendorTool::MarketQuote => "market_quote: every data source failed ("@ + summary
            + "). Try again in a moment, or ensure the primary data source is configured (see README's A-share section)."@,
        VendorTool::TopHolders => "get_top_holders: 股东名单不可用（"@ + summary
            + "）。请明确告知用户工具暂时拿不到数据；不要编造股东名字或持股比例。"@,
    }
}

fn wrap(head: &str, summary: &str, tail: &str) -> (r: String)
    ensures
        r@ == head@ + summary@ + tail@,
{
    let mut r = owned(head);
    push_str(&mut r, summary);
    push_str(&mut r, tail);
    r
}

/// The reply of a tool whose every vendor failed.
pub fn fallback_reply(t: &VendorTool, summary: &str) -> (r: String)
    ensures
        r@ == fallback_text(*t, summary@),
{
    match t {
        VendorTool::Announcements => wrap(
            "get_announcements: 公告数据不可用（",
            summary,
            "）。请告知用户无法取得近期公告；不要凭想象列具体公告题目。",
        ),
        VendorTool::BusinessBreakdown => wrap(
            "get_business_breakdown: 主营构成数据不可用（",
            summary,
            "）。请告知用户工具暂时无法取数；不要凭印象给比例 — 留 data_available=false 即可。",
        ),
        VendorTool::CompanyInfo => wrap(
            "get_company_info: all data sources failed (",
            summary,
            "). Company metadata is currently only available via the primary vendor.",
        ),
        VendorTool::Concepts => wrap(
            "get_concepts: 概念分类不可用（",
            summary,
            "）。请告知用户工具暂时拿不到题材列表；不要凭印象列概念，避免误导用户。",
        ),
        VendorTool::Consensus => wrap(
            "get_consensus: 一致预期数据不可用（",
            summary,
            "）。请明确告知用户卖方一致预期暂时拿不到；不要编造目标价或评级数字。",
        ),
        VendorTool::IndustryPeers => wrap(
            "get_industry_peers: 同行业对比数据不可用（",
            summary,
            "）。请勿臆造数据；建议告知用户该工具暂时不可用，可改用 get_company_info / get_financials 看绝对值。",
        ),
        VendorTool::MarketQuote => wrap(
            "market_quote: every data source failed (",
            summary,
            "). Try again in a moment, or ensure the primary data source is configured (see README's A-share section).",
        ),
        VendorTool::TopHolders => wrap(
            "get_top_holders: 股东名单不可用（",
            summary,
            "）。请明确告知用户工具暂时拿不到数据；不要编造股东名字或持股比例。",
        ),
    }
}

/// One announcement: its date and title.
pub struct AnnouncementLine {
    pub date: String,
    pub title: String,
}

/// `date title` of each of the first five, joined by `；`.
pub open spec fn highlights_text(items: Seq<AnnouncementLine>) -> Seq<char> {
    let shown = if items.len() > 5 {
        items.take(5)
    } else {
        items
    };
    join(shown.map_values(|a: AnnouncementLine| a.date@ + " "@ + a.title@), "；"@)
}

/// The reply of a served `get_announcements` call.
pub open spec fn announcements_text(symbol: Seq<char>, days: u64, category: Option<Seq<char>>, items: Seq<AnnouncementLine>) -> Seq<char> {
    symbol + " 近 "@ + decimal(days as nat) + " 天"@ + match category {
        Some(c) => "（类型 = "@ + c + "）"@,
        None => Seq::empty(),
    } + "共 "@ + decimal(items.len()) + " 条公告。前 5 条："@ + highlights_text(items) + "。完整列表见 display_payload.items。"@
}

/// The reply of a served `get_announcements` call.
pub fn announcements_reply(symbol: &str, days: u64, category: &Option<String>, items: &Vec<AnnouncementLine>) -> (r: String)
    ensures
        r@ == announcements_text(
            symbol@,
            days,
            match category {
                Some(c) => Some(c@),
                None => None,
            },
            items@,
        ),
{
    let n: usize = if items.len() > 5 {
        5
    } else {
        items.len()
    };
    let ghost shown = if items@.len() > 5 {
        items@.take(5)
    } else {
        items@
    };
    let ghost texts = shown.map_values(|a: AnnouncementLine| a.date@ + " "@ + a.title@);
    assert(shown =~= items@.take(n as int));
    let mut parts: Vec<String> = Vec::new();
    let mut i: usize = 0;
    while i < n
        invariant
            i <= n <= items.len(),
            shown == items@.take(n as int),
            texts == shown.map_values(|a: AnnouncementLine| a.date@ + " "@ + a.title@),
            views(parts@) == texts.take(i as int),
        decreases n - i,
    {
        let mut line = owned(items[i].date.as_str());
        push_str(&mut line, " ");
        push_str(&mut line, items[i].title.as_str());
        let ghost before = views(parts@);
        parts.push(line);
        assert(texts[i as int] == line@);
        assert(views(parts@) =~= before.push(texts[i as int]));
        assert(texts.take(i + 1) =~= texts.take(i as int).push(texts[i as int]));
        i = i + 1;
    }
    assert(texts.take(n as int) =~= texts);
    let mut r = owned(symbol);
    push_str(&mut r, " 近 ");
    push_str(&mut r, fmt_u64(days).as_str());
    push_str(&mut r, " 天");
    let ghost head = r@;
    match category {
        Some(c) => {
            push_str(&mut r, "（类型 = ");
            push_str(&mut r, c.as_str());
            push_str(&mut r, "）");
        },
        None => {},
    }
    let ghost with_cat = r@;
    push_str(&mut r, "共 ");
    push_str(&mut r, fmt_u64(items.len() as u64).as_str());
    push_str(&mut r, " 条公告。前 5 条：");
    push_str(&mut r, join_strings(&parts, "；").as_str());
    push_str(&mut r, "。完整列表见 display_payload.items。");
    proof {
        match category {
            Some(c) => assert(with_cat == head + ("（类型 = "@ + c@ + "）"@)),
            None => assert(with_cat == head + Seq::<char>::empty()),
        }
    }
    r
}

/// The reply of a served `get_concepts` call: the first six names.
pub open spec fn concepts_text(symbol: Seq<char>, names: Seq<Seq<char>>) -> Seq<char> {
    symbol + " 所属概念 / 题材共 "@ + decimal(names.len()) + " 个，前几个："@ + join(
        if names.len() > 6 {
            names.take(6)
        } else {
            names
        },
        "、"@,
    ) + "。完整列表见 display_payload.concepts。"@
}

/// The reply of a served `get_concepts` call.
pub fn concepts_reply(symbol: &str, names: &Vec<String>) -> (r: String)
    ensures
        r@ == concepts_text(symbol@, views(names@)),
{
    let n: usize = if names.len() > 6 {
        6
    } else {
        names.len()
    };
    let mut shown: Vec<String> = Vec::new();
    let mut i: usize = 0;
    while i < n
        invariant
            i <= n <= names.len(),
            views(shown@) == views(names@).take(i as int),
        decreases n - i,
    {
        let ghost before = views(shown@);
        shown.push(owned(names[i].as_str()));
        assert(views(shown@) =~= before.push(names@[i as int]@));
        assert(views(names@).take(i + 1) =~= views(names@).take(i as int).push(names@[i as int]@));
        i = i + 1;
    }
    assert(views(names@).take(n as int) =~= if views(names@).len() > 6 {
        views(names@).take(6)
    } else {
        views(names@)
    });
    let mut r = owned(symbol);
    push_str(&mut r, " 所属概念 / 题材共 ");
    push_str(&mut r, fmt_u64(names.len() as u64).as_str());
    push_str(&mut r, " 个，前几个：");
    push_str(&mut r, join_strings(&shown, "、").as_str());
    push_str(&mut r, "。完整列表见 display_payload.concepts。");
    r
}


/// The name on a vendor tool's card, which also heads its summary.
pub open spec fn vendor_display_name(t: VendorTool) -> Seq<char> {
    match t {
        VendorTool::Announcements => "公告"@,
        VendorTool::BusinessBreakdown => "主营构成"@,
        VendorTool::CompanyInfo => "公司简介"@,
        VendorTool::Concepts => "概念题材"@,
        VendorTool::Consensus => "一致预期"@,
        VendorTool::IndustryPeers => "行业对比"@,
        VendorTool::MarketQuote => "行情快照"@,
        VendorTool::TopHolders => "十大股东"@,
    }
}

/// The card kind of a vendor tool.
pub open spec fn vendor_card_kind(t: VendorTool) -> Seq<char> {
    match t {
        VendorTool::Announcements => "announcements"@,
        VendorTool::BusinessBreakdown => "business_breakdown"@,
        VendorTool::CompanyInfo => "company_info"@,
        VendorTool::Concepts => "concepts"@,
        VendorTool::Consensus => "consensus"@,
        VendorTool::IndustryPeers => "industry_peers"@,
        VendorTool::MarketQuote => "market_quote"@,
        VendorTool::TopHolders => "top_holders"@,
    }
}

/// The card summary of a call: the card's name and the symbol, as a
/// snippet, then the day count of `get_announcements` (thirty by
/// default), or the breakdown, comparison or holder kind of the three
/// tools that take one.
pub open spec fn vendor_summary_of(t: VendorTool, args: Json) -> Seq<char> {
    let head = vendor_display_name(t) + " · "@ + snippet(str_or(args, "symbol"@, ""@));
    match t {
        VendorTool::Announcements => head + " · "@ + decimal(
            match arg_u64(args, "days"@) {
                Some(d) => d as nat,
                None => 30,
            },
        ) + "d"@,
        VendorTool::BusinessBreakdown => head + " · "@ + str_or(args, "dim"@, "product"@),
        VendorTool::IndustryPeers => head + " · "@ + str_or(args, "dimension"@, "valuation"@),
        VendorTool::TopHolders => head + " · "@ + str_or(args, "kind"@, "total"@),
        _ => head,
    }
}

impl VendorTool {
    /// The card of the tool: its display name and card kind.
    pub fn ui(&self) -> (u: ToolUi)
        ensures
            u.display_name@ == vendor_display_name(*self),
            card_of(u.result) == Some(vendor_card_kind(*self)),
    {
        match self {
            VendorTool::Announcements => ToolUi {
                display_name: "公告",
                result: ResultArtifact::Card("announcements"),
            },
            VendorTool::BusinessBreakdown => ToolUi {
                display_name: "主营构成",
                result: ResultArtifact::Card("business_breakdown"),
            },
            VendorTool::CompanyInfo => ToolUi {
                display_name: "公司简介",
                result: ResultArtifact::Card("company_info"),
            },
            VendorTool::Concepts => ToolUi {
                display_name: "概念题材",
                result: ResultArtifact::Card("concepts"),
            },
            VendorTool::Consensus => ToolUi {
                display_name: "一致预期",
                result: ResultArtifact::Card("consensus"),
            },
            VendorTool::IndustryPeers => ToolUi {
                display_name: "行业对比",
                result: ResultArtifact::Card("industry_peers"),
            },
            VendorTool::MarketQuote => ToolUi {
                display_name: "行情快照",
                result: ResultArtifact::Card("market_quote"),
            },
            VendorTool::TopHolders => ToolUi {
                display_name: "十大股东",
                result: ResultArtifact::Card("top_holders"),
            },
        }
    }

    /// `vendor_summary_of` the call's arguments.
    pub fn ui_summary(&self, args: &Json) -> (r: String)
        ensures
            r@ == vendor_summary_of(*self, *args),
    {
        let u = self.ui();
        let mut out = owned(u.display_name);
        push_str(&mut out, " · ");
        let s = str_arg_or(args, "symbol", "");
        push_str(&mut out, summary_snippet(s).as_str());
        match self {
            VendorTool::Announcements => {
                let d: u64 = match get_u64(args, "days") {
                    Some(d) => d,
                    None => 30,
                };
                push_str(&mut out, " · ");
                push_str(&mut out, fmt_u64(d).as_str());
                push_str(&mut out, "d");
            },
            VendorTool::BusinessBreakdown => {
                push_str(&mut out, " · ");
                push_str(&mut out, str_arg_or(args, "dim", "product"));
            },
            VendorTool::IndustryPeers => {
                push_str(&mut out, " · ");
                push_str(&mut out, str_arg_or(args, "dimension", "valuation"));
            },
            VendorTool::TopHolders => {
                push_str(&mut out, " · ");
                push_str(&mut out, str_arg_or(args, "kind", "total"));
            },
            _ => {},
        }
        out
    }
}

} // verus!
