//! Financial statements: request sizing, period labels, de-duplication
//! of restated rows, field metadata, and provider error messages.
use vstd::prelude::*;

use crate::json::{value_text, value_text_exec, Json};
use crate::table::field_position;
use crate::text::{
    all_digits, chars_of, collapse, collapse_chars, decimal, fmt_u64, owned, push_str, str_eq,
    string_of, truncate, truncate_chars, views,
};

verus! {

/// Rows to request for `periods` periods: three per period, since the
/// source returns restated and duplicate rows.
pub fn tushare_fetch_limit(periods: usize) -> (r: usize)
    requires
        periods * 3 <= usize::MAX,
    ensures
        r == periods * 3,
{
    let tripled = periods * 3;
    if tripled >= periods {
        tripled
    } else {
        periods
    }
}

/// `YYYYMMDD` shown as `YYYY-MM`; anything else unchanged.
pub open spec fn period_text(s: Seq<char>) -> Seq<char> {
    if s.len() == 8 && all_digits(s) {
        s.subrange(0, 4) + seq!['-'] + s.subrange(4, 6)
    } else {
        s
    }
}

/// The report period of a cell.
pub fn ashare_period(v: &Json) -> (r: String)
    ensures
        r@ == period_text(value_text(*v)),
{
    let s = value_text_exec(v);
    let c = chars_of(s.as_str());
    if c.len() == 8 && crate::text::all_digits_exec(c.as_slice()) {
        let mut out: Vec<char> = Vec::new();
        out.push(c[0]);
        out.push(c[1]);
        out.push(c[2]);
        out.push(c[3]);
        out.push('-');
        out.push(c[4]);
        out.push(c[5]);
        assert(out@ =~= c@.subrange(0, 4) + seq!['-'] + c@.subrange(4, 6));
        string_of(out.as_slice())
    } else {
        s
    }
}

/// The key of a row: the text of its cell at `index`, empty when the row
/// is shorter.
pub open spec fn row_key(row: Seq<Json>, index: int) -> Seq<char> {
    if 0 <= index < row.len() {
        value_text(row[index])
    } else {
        Seq::empty()
    }
}

/// The rows whose key is non-empty and not met before (in `seen` or in
/// an earlier row), in order.
pub open spec fn keep_unique(rows: Seq<Vec<Json>>, index: int, seen: Set<Seq<char>>) -> Seq<Vec<Json>>
    decreases rows.len(),
{
    if rows.len() == 0 {
        Seq::empty()
    } else {
        let k = row_key(rows[0]@, index);
        if k.len() > 0 && !seen.contains(k) {
            seq![rows[0]] + keep_unique(rows.drop_first(), index, seen.insert(k))
        } else {
            keep_unique(rows.drop_first(), index, seen)
        }
    }
}

/// The first `n` items of a list.
pub open spec fn first_n<A>(s: Seq<A>, n: int) -> Seq<A> {
    if n >= s.len() {
        s
    } else {
        s.take(n)
    }
}

proof fn lemma_keep_unique_keys(rows: Seq<Vec<Json>>, index: int, seen: Set<Seq<char>>)
    ensures
        forall|i: int|
            0 <= i < keep_unique(rows, index, seen).len() ==> row_key((#[trigger] keep_unique(rows, index, seen)[i])@, index).len()
                > 0 && !seen.contains(row_key(keep_unique(rows, index, seen)[i]@, index)),
        forall|i: int, j: int|
            0 <= i < j < keep_unique(rows, index, seen).len() ==> row_key(
                (#[trigger] keep_unique(rows, index, seen)[i])@,
                index,
            ) != row_key((#[trigger] keep_unique(rows, index, seen)[j])@, index),
        keep_unique(rows, index, seen).len() <= rows.len(),
    decreases rows.len(),
{
    if rows.len() > 0 {
        let k = row_key(rows[0]@, index);
        if k.len() > 0 && !seen.contains(k) {
            let tail = keep_unique(rows.drop_first(), index, seen.insert(k));
            lemma_keep_unique_keys(rows.drop_first(), index, seen.insert(k));
            let all = keep_unique(rows, index, seen);
            assert(all == seq![rows[0]] + tail);
            assert forall|i: int| 0 <= i < all.len() implies row_key((#[trigger] all[i])@, index).len() > 0
                && !seen.contains(row_key(all[i]@, index)) by {
                if i > 0 {
                    assert(all[i] == tail[i - 1]);
                }
            }
            assert forall|i: int, j: int| 0 <= i < j < all.len() implies row_key((#[trigger] all[i])@, index)
                != row_key((#[trigger] all[j])@, index) by {
                assert(all[j] == tail[j - 1]);
                if i > 0 {
                    assert(all[i] == tail[i - 1]);
                }
            }
        } else {
            lemma_keep_unique_keys(rows.drop_first(), index, seen);
        }
    }
}

/// Keeping one row per key leaves at most `limit` rows, each with a
/// non-empty key that no other kept row has.
pub proof fn lemma_unique_rows_distinct(rows: Seq<Vec<Json>>, fields: Seq<String>, field: Seq<char>, limit: int)
    requires
        crate::table::find_field(fields, field, 0) is Some,
        limit >= 0,
    ensures
        ({
            let r = unique_rows_spec(rows, fields, field, limit);
            let index = crate::table::find_field(fields, field, 0)->0;
            &&& r.len() <= limit
            &&& forall|i: int| 0 <= i < r.len() ==> row_key((#[trigger] r[i])@, index).len() > 0
            &&& forall|i: int, j: int|
                0 <= i < j < r.len() ==> row_key((#[trigger] r[i])@, index) != row_key((#[trigger] r[j])@, index)
        }),
{
    let index = crate::table::find_field(fields, field, 0)->0;
    let ku = keep_unique(rows, index, Set::empty());
    lemma_keep_unique_keys(rows, index, Set::empty());
    let r = unique_rows_spec(rows, fields, field, limit);
    assert forall|i: int| 0 <= i < r.len() implies r[i] == ku[i] by {}
}

/// One row per distinct non-empty value of `field`, the first of each,
/// at most `limit`; the first `limit` rows when there is no such field.
pub open spec fn unique_rows_spec(rows: Seq<Vec<Json>>, fields: Seq<String>, field: Seq<char>, limit: int) -> Seq<Vec<Json>> {
    match crate::table::find_field(fields, field, 0) {
        None => first_n(rows, limit),
        Some(index) => first_n(keep_unique(rows, index, Set::empty()), limit),
    }
}

/// `keep_unique` splits over a prefix: what a prefix keeps, then what the
/// rest keeps given the keys the prefix met.
proof fn lemma_keep_unique_step(rows: Seq<Vec<Json>>, index: int, seen: Set<Seq<char>>, i: int)
    requires
        0 <= i < rows.len(),
    ensures
        keep_unique(rows.skip(i), index, seen) == ({
            let k = row_key(rows[i]@, index);
            if k.len() > 0 && !seen.contains(k) {
                seq![rows[i]] + keep_unique(rows.skip(i + 1), index, seen.insert(k))
            } else {
                keep_unique(rows.skip(i + 1), index, seen)
            }
        }),
{
    assert(rows.skip(i).drop_first() =~= rows.skip(i + 1));
    assert(rows.skip(i)[0] == rows[i]);
}

/// Whether `keys` holds `k`.
fn holds_key(keys: &Vec<String>, k: &str) -> (r: bool)
    ensures
        r == views(keys@).contains(k@),
{
    let mut i: usize = 0;
    while i < keys.len()
        invariant
            i <= keys.len(),
            forall|j: int| 0 <= j < i ==> views(keys@)[j] != k@,
        decreases keys.len() - i,
    {
        if str_eq(keys[i].as_str(), k) {
            assert(views(keys@)[i as int] == k@);
            return true;
        }
        i = i + 1;
    }
    false
}

/// One row per distinct non-empty value of `field`, at most `limit`.
pub fn unique_rows_by_field(rows: Vec<Vec<Json>>, fields: &Vec<String>, field: &str, limit: usize) -> (r: Vec<
    Vec<Json>,
>)
    ensures
        r@ == unique_rows_spec(rows@, fields@, field@, limit as int),
{
    let index = field_position(fields, field);
    let ghost all = rows@;
    let mut out: Vec<Vec<Json>> = Vec::new();
    let mut keys: Vec<String> = Vec::new();
    match index {
        None => {
            for row in it: rows
                invariant
                    all == it.seq(),
                    out@ == first_n(it.seq().take(it.index() as int), limit as int),
            {
                let ghost before = out@;
                if out.len() < limit {
                    out.push(row);
                }
                assert(it.seq().take(it.index() + 1).drop_last() =~= it.seq().take(it.index() as int));
                assert(out@ =~= first_n(it.seq().take(it.index() + 1), limit as int));
            }
            out
        },
        Some(ix) => {
            let ghost kept_all = keep_unique(all, ix as int, Set::empty());
            assert(all.skip(0) =~= all);
            assert(views(keys@).to_set() =~= Set::<Seq<char>>::empty());
            assert(out@ + kept_all =~= kept_all);
            for row in it: rows
                invariant
                    all == it.seq(),
                    kept_all == keep_unique(all, ix as int, Set::empty()),
                    out@ + keep_unique(all.skip(it.index() as int), ix as int, views(keys@).to_set()) == kept_all,
                    out@.len() <= views(keys@).len(),
            {
                proof {
                    lemma_keep_unique_step(all, ix as int, views(keys@).to_set(), it.index() as int);
                }
                let key = if ix < row.len() {
                    value_text_exec(&row[ix])
                } else {
                    String::new()
                };
                let ghost before_keys = views(keys@);
                let ghost before_out = out@;
                if !key.as_str().is_empty() && !holds_key(&keys, key.as_str()) {
                    let ghost kv = key@;
                    keys.push(key);
                    out.push(row);
                    assert(views(keys@) =~= before_keys.push(kv));
                    proof {
                        before_keys.lemma_push_to_set_commute(kv);
                    }
                    assert(out@ =~= before_out.push(all[it.index() as int]));
                }
            }
            proof {
                assert(all.skip(all.len() as int) =~= Seq::<Vec<Json>>::empty());
                assert(out@ =~= kept_all);
            }
            let mut r: Vec<Vec<Json>> = Vec::new();
            let n = if limit < out.len() { limit } else { out.len() };
            let ghost kept = out@;
            for row in it2: out
                invariant
                    kept == it2.seq(),
                    n <= kept.len(),
                    r@ == first_n(kept.take(it2.index() as int), n as int),
            {
                if r.len() < n {
                    r.push(row);
                }
                assert(kept.take(it2.index() + 1).drop_last() =~= kept.take(it2.index() as int));
                assert(r@ =~= first_n(kept.take(it2.index() + 1), n as int));
            }
            proof {
                assert(kept.take(kept.len() as int) =~= kept);
                assert(first_n(kept, n as int) =~= first_n(kept, limit as int));
            }
            r
        },
    }
}

/// The field metadata appended after the A-share income statement.
pub open spec fn income_metadata() -> Seq<char> {
    "\n_来源: Tushare Pro (income_vip)_\n"@
        + "_字段口径: total_revenue=营业总收入；revenue=营业收入；operate_profit=营业利润；n_income=净利润；n_income_attr_p=归母净利润；basic_eps=基本每股收益。金额字段来自 Tushare 原始元单位并换算为亿元。公告/交易所/巨潮/公司官网与工具数值冲突时，必须先 reconcile 报告期、合并范围、单位和字段口径，不得把营业收入、营业总收入、净利润、归母净利润直接混用。_"@
}

/// Appends the field metadata of the A-share income statement.
pub fn append_ashare_income_metadata(out: &mut String)
    ensures
        final(out)@ == old(out)@ + income_metadata(),
{
    push_str(out, "\n_来源: Tushare Pro (income_vip)_\n");
    push_str(
        out,
        "_字段口径: total_revenue=营业总收入；revenue=营业收入；operate_profit=营业利润；n_income=净利润；n_income_attr_p=归母净利润；basic_eps=基本每股收益。金额字段来自 Tushare 原始元单位并换算为亿元。公告/交易所/巨潮/公司官网与工具数值冲突时，必须先 reconcile 报告期、合并范围、单位和字段口径，不得把营业收入、营业总收入、净利润、归母净利润直接混用。_",
    );
}

/// The first `max_chars` characters, with `…` when there were more.
pub fn truncate_error_detail(s: &str, max_chars: usize) -> (r: String)
    ensures
        r@ == truncate(s@, max_chars as int, seq!['…']),
{
    let v = chars_of(s);
    let t = truncate_chars(v.as_slice(), max_chars, "…");
    proof {
        reveal_strlit("…");
    }
    string_of(t.as_slice())
}

/// The headline of a provider HTTP failure.
pub open spec fn http_error_base(status: u16) -> Seq<char> {
    if status == 401 || status == 403 {
        "FMP HTTP "@ + decimal(status as nat) + ": provider authentication or endpoint permission denied."@
    } else if status == 402 {
        "FMP HTTP 402: provider access/quota does not allow this financial-statement endpoint."@
    } else if status == 429 {
        "FMP HTTP 429: provider rate limit exceeded. Retry later or lower request frequency."@
    } else {
        "FMP HTTP "@ + decimal(status as nat) + ": provider request failed."@
    }
}

/// The message of a provider HTTP failure: its headline, then the
/// response body on one line, cut to 180 characters.
pub open spec fn http_error_text(status: u16, body: Seq<char>) -> Seq<char> {
    let detail = collapse(body);
    if detail.len() == 0 {
        http_error_base(status)
    } else {
        http_error_base(status) + " Provider response: "@ + truncate(detail, 180, seq!['…'])
    }
}

/// `http_error_text` of a status and body.
pub fn fmp_http_error(status: u16, body: &str) -> (r: String)
    ensures
        r@ == http_error_text(status, body@),
{
    let mut out = if status == 401 || status == 403 {
        let mut b = owned("FMP HTTP ");
        push_str(&mut b, fmt_u64(status as u64).as_str());
        push_str(&mut b, ": provider authentication or endpoint permission denied.");
        b
    } else if status == 402 {
        owned("FMP HTTP 402: provider access/quota does not allow this financial-statement endpoint.")
    } else if status == 429 {
        owned("FMP HTTP 429: provider rate limit exceeded. Retry later or lower request frequency.")
    } else {
        let mut b = owned("FMP HTTP ");
        push_str(&mut b, fmt_u64(status as u64).as_str());
        push_str(&mut b, ": provider request failed.");
        b
    };
    let v = chars_of(body);
    let detail = collapse_chars(v.as_slice());
    if detail.len() > 0 {
        push_str(&mut out, " Provider response: ");
        let d = string_of(detail.as_slice());
        push_str(&mut out, truncate_error_detail(d.as_str(), 180).as_str());
    }
    out
}

// ---------------------------------------------------------------------
// US statements
// ---------------------------------------------------------------------

/// The base address of the US statement provider.
pub const FMP_BASE: &'static str = "https://financialmodelingprep.com/stable";

/// The reply when no key for the US statement provider is configured.
pub const US_SOURCE_NOT_CONFIGURED: &'static str = "[get_financials: US stock financial-data source is not configured. Treat this as a blocked source, not as missing company financials.]";

/// A US statement.
#[derive(PartialEq, Eq, Structural, Clone, Copy)]
pub enum UsStatement {
    Income,
    Balance,
    Cashflow,
    Ratios,
}

/// The provider endpoint of a statement.
pub open spec fn endpoint_of(st: UsStatement) -> Seq<char> {
    match st {
        UsStatement::Income => "income-statement"@,
        UsStatement::Balance => "balance-sheet-statement"@,
        UsStatement::Cashflow => "cash-flow-statement"@,
        UsStatement::Ratios => "ratios"@,
    }
}

/// The title of a statement in a reply heading.
pub open spec fn title_of(st: UsStatement) -> Seq<char> {
    match st {
        UsStatement::Income => "Income Statement"@,
        UsStatement::Balance => "Balance Sheet"@,
        UsStatement::Cashflow => "Cash Flow Statement"@,
        UsStatement::Ratios => "Key Ratios"@,
    }
}

/// The words a statement goes by when no rows came back.
pub open spec fn data_noun_of(st: UsStatement) -> Seq<char> {
    match st {
        UsStatement::Income => "income"@,
        UsStatement::Balance => "balance sheet"@,
        UsStatement::Cashflow => "cashflow"@,
        UsStatement::Ratios => "ratio"@,
    }
}

impl UsStatement {
    /// `endpoint_of` the statement.
    pub fn endpoint(&self) -> (r: &'static str)
        ensures
            r@ == endpoint_of(*self),
    {
        match self {
            UsStatement::Income => "income-statement",
            UsStatement::Balance => "balance-sheet-statement",
            UsStatement::Cashflow => "cash-flow-statement",
            UsStatement::Ratios => "ratios",
        }
    }

    /// `title_of` the statement.
    pub fn title(&self) -> (r: &'static str)
        ensures
            r@ == title_of(*self),
    {
        match self {
            UsStatement::Income => "Income Statement",
            UsStatement::Balance => "Balance Sheet",
            UsStatement::Cashflow => "Cash Flow Statement",
            UsStatement::Ratios => "Key Ratios",
        }
    }

    /// `data_noun_of` the statement.
    pub fn data_noun(&self) -> (r: &'static str)
        ensures
            r@ == data_noun_of(*self),
    {
        match self {
            UsStatement::Income => "income",
            UsStatement::Balance => "balance sheet",
            UsStatement::Cashflow => "cashflow",
            UsStatement::Ratios => "ratio",
        }
    }
}

/// The statements a US request of `report_type` fetches, in reply order.
pub open spec fn us_statements_of(report_type: Seq<char>) -> Option<Seq<UsStatement>> {
    if report_type == "income"@ {
        Some(seq![UsStatement::Income])
    } else if report_type == "balance"@ {
        Some(seq![UsStatement::Balance])
    } else if report_type == "cashflow"@ {
        Some(seq![UsStatement::Cashflow])
    } else if report_type == "ratios"@ {
        Some(seq![UsStatement::Ratios])
    } else if report_type == "all"@ {
        Some(seq![UsStatement::Income, UsStatement::Balance, UsStatement::Cashflow, UsStatement::Ratios])
    } else {
        None
    }
}

/// The statements of a US request, or the error of an unknown report
/// type.
pub fn us_statements(report_type: &str) -> (r: Result<Vec<UsStatement>, String>)
    ensures
        match us_statements_of(report_type@) {
            Some(sts) => r matches Ok(v) && v@ == sts,
            None => r matches Err(e) && e@ == "unknown report_type: "@ + report_type@,
        },
{
    let mut v: Vec<UsStatement> = Vec::new();
    if str_eq(report_type, "income") {
        v.push(UsStatement::Income);
    } else if str_eq(report_type, "balance") {
        v.push(UsStatement::Balance);
    } else if str_eq(report_type, "cashflow") {
        v.push(UsStatement::Cashflow);
    } else if str_eq(report_type, "ratios") {
        v.push(UsStatement::Ratios);
    } else if str_eq(report_type, "all") {
        v.push(UsStatement::Income);
        v.push(UsStatement::Balance);
        v.push(UsStatement::Cashflow);
        v.push(UsStatement::Ratios);
    } else {
        let mut e = owned("unknown report_type: ");
        push_str(&mut e, report_type);
        return Err(e);
    }
    assert(v@ == us_statements_of(report_type@).unwrap());
    Ok(v)
}

/// The provider address of `endpoint` for `ticker`, `periods` rows.
pub open spec fn fmp_url_of(endpoint: Seq<char>, ticker: Seq<char>, periods: nat, key: Seq<char>) -> Seq<char> {
    FMP_BASE@ + "/"@ + endpoint + "?symbol="@ + ticker + "&limit="@ + decimal(periods) + "&apikey="@ + key
}

/// `fmp_url_of` as a string.
pub fn fmp_url(endpoint: &str, ticker: &str, periods: usize, key: &str) -> (r: String)
    ensures
        r@ == fmp_url_of(endpoint@, ticker@, periods as nat, key@),
{
    let mut url = owned(FMP_BASE);
    push_str(&mut url, "/");
    push_str(&mut url, endpoint);
    push_str(&mut url, "?symbol=");
    push_str(&mut url, ticker);
    push_str(&mut url, "&limit=");
    let n = fmt_u64(periods as u64);
    push_str(&mut url, n.as_str());
    push_str(&mut url, "&apikey=");
    push_str(&mut url, key);
    url
}

/// The text of member `key` of a provider row: a string as it is,
/// nothing for null or a missing member, else its JSON text.
pub open spec fn fmp_text(row: Json, key: Seq<char>) -> Seq<char> {
    match row.get_spec(key) {
        Some(v) => value_text(v),
        None => Seq::empty(),
    }
}

/// `fmp_text` of a row.
pub fn fmp_str(row: &Json, key: &str) -> (r: String)
    ensures
        r@ == fmp_text(*row, key@),
{
    match row.get(key) {
        Some(v) => value_text_exec(v),
        None => String::new(),
    }
}

/// The reply when a statement came back empty.
pub open spec fn us_no_data_of(st: UsStatement, ticker: Seq<char>) -> Seq<char> {
    "[get_financials: no "@ + data_noun_of(st) + " data for "@ + ticker + "]"@
}

/// `us_no_data_of` as a string.
pub fn us_no_data(st: UsStatement, ticker: &str) -> (r: String)
    ensures
        r@ == us_no_data_of(st, ticker@),
{
    let mut out = owned("[get_financials: no ");
    push_str(&mut out, st.data_noun());
    push_str(&mut out, " data for ");
    push_str(&mut out, ticker);
    push_str(&mut out, "]");
    out
}

/// The heading of a US statement reply.
pub open spec fn us_heading_of(st: UsStatement, ticker: Seq<char>, periods: nat) -> Seq<char> {
    "## "@ + ticker + " · "@ + title_of(st) + " (last "@ + decimal(periods) + " periods)\n\n"@
}

/// `us_heading_of` as a string.
pub fn us_heading(st: UsStatement, ticker: &str, periods: usize) -> (r: String)
    ensures
        r@ == us_heading_of(st, ticker@, periods as nat),
{
    let mut out = owned("## ");
    push_str(&mut out, ticker);
    push_str(&mut out, " · ");
    push_str(&mut out, st.title());
    push_str(&mut out, " (last ");
    let n = fmt_u64(periods as u64);
    push_str(&mut out, n.as_str());
    push_str(&mut out, " periods)\n\n");
    out
}

/// The closing source line of a US statement reply.
pub open spec fn us_source_line_of(st: UsStatement) -> Seq<char> {
    "\n_Source: Financial Modeling Prep ("@ + endpoint_of(st) + ")_"@
}

/// `us_source_line_of` as a string.
pub fn us_source_line(st: UsStatement) -> (r: String)
    ensures
        r@ == us_source_line_of(st),
{
    let mut out = owned("\n_Source: Financial Modeling Prep (");
    push_str(&mut out, st.endpoint());
    push_str(&mut out, ")_");
    out
}

/// The row of `metrics` dated `date`: the first such, if any.
pub fn metric_row_for(metrics: &Vec<Json>, date: &str) -> (r: Option<usize>)
    ensures
        match r {
            Some(i) => i < metrics@.len() && fmp_text(metrics@[i as int], "date"@) == date@
                && forall|j: int| 0 <= j < i ==> fmp_text(#[trigger] metrics@[j], "date"@) != date@,
            None => forall|j: int| 0 <= j < metrics@.len() ==> fmp_text(#[trigger] metrics@[j], "date"@) != date@,
        },
{
    let mut i: usize = 0;
    while i < metrics.len()
        invariant
            i <= metrics@.len(),
            forall|j: int| 0 <= j < i ==> fmp_text(#[trigger] metrics@[j], "date"@) != date@,
        decreases metrics.len() - i,
    {
        let d = fmp_str(&metrics[i], "date");
        if str_eq(d.as_str(), date) {
            return Some(i);
        }
        i = i + 1;
    }
    None
}


/// Each single report type fetches exactly the statement it names
/// (`cashflow` the cash-flow statement, and so on), different types
/// fetch different statements, and `all` fetches the four single results
/// joined in order.
pub proof fn lemma_us_statements_name_their_endpoints()
    ensures
        us_statements_of("income"@) matches Some(s) && s.len() == 1 && endpoint_of(s[0]) == "income-statement"@,
        us_statements_of("balance"@) matches Some(s) && s.len() == 1 && endpoint_of(s[0])
            == "balance-sheet-statement"@,
        us_statements_of("cashflow"@) matches Some(s) && s.len() == 1 && endpoint_of(s[0])
            == "cash-flow-statement"@,
        us_statements_of("ratios"@) matches Some(s) && s.len() == 1 && endpoint_of(s[0]) == "ratios"@,
        us_statements_of("all"@) == Some(
            us_statements_of("income"@).unwrap() + us_statements_of("balance"@).unwrap() + us_statements_of(
                "cashflow"@,
            ).unwrap() + us_statements_of("ratios"@).unwrap(),
        ),
{
    reveal_strlit("income");
    reveal_strlit("balance");
    reveal_strlit("cashflow");
    reveal_strlit("ratios");
    reveal_strlit("all");
    assert(("income"@)[0] != ("balance"@)[0]);
    assert(("income"@)[0] != ("cashflow"@)[0]);
    assert(("income"@)[0] != ("ratios"@)[0]);
    assert(("balance"@)[0] != ("cashflow"@)[0]);
    assert(("balance"@)[0] != ("ratios"@)[0]);
    assert(("cashflow"@)[0] != ("ratios"@)[0]);
    assert(("all"@).len() != ("ratios"@).len());
    assert(("all"@).len() != ("income"@).len());
    assert(("all"@).len() != ("balance"@).len());
    assert(("all"@).len() != ("cashflow"@).len());
    assert(seq![UsStatement::Income, UsStatement::Balance, UsStatement::Cashflow, UsStatement::Ratios] =~= seq![
        UsStatement::Income,
    ] + seq![UsStatement::Balance] + seq![UsStatement::Cashflow] + seq![UsStatement::Ratios]);
}

/// Two single report types that differ fetch different statements.
pub proof fn lemma_us_single_types_distinct(a: Seq<char>, b: Seq<char>)
    requires
        a != b,
        a != "all"@,
        b != "all"@,
        us_statements_of(a) is Some,
        us_statements_of(b) is Some,
    ensures
        us_statements_of(a).unwrap() != us_statements_of(b).unwrap(),
{
    let sa = us_statements_of(a).unwrap();
    let sb = us_statements_of(b).unwrap();
    assert(sa[0] != sb[0]);
}

} // verus!
