//! `sec_filing_fetch`: the request, the ticker-to-CIK lookup over the
//! SEC company list, and the list of recent filings it answers with.
use vstd::prelude::*;

use crate::json::{arg_str, arg_u64, get_str, get_u64, json_str, json_u64, to_json_string, Json};
use crate::text::{
    chars_of, decimal, eq_ignore_ascii_case, fmt_u64, owned, push_str, replace, replace_chars, str_eq,
    str_eq_ignore_ascii_case, string_of, trim, trim_str,
};

verus! {

/// Filings returned when the call names no limit.
pub const DEFAULT_LIMIT: usize = 8;

/// Most filings one call returns.
pub const MAX_LIMIT: usize = 30;

// ---------------------------------------------------------------------
// The request
// ---------------------------------------------------------------------
/// The filing limit a call names, kept within `1..=30`, else eight.
pub open spec fn limit_spec(args: Json) -> usize {
    match arg_u64(args, "limit"@) {
        Some(n) => if n > MAX_LIMIT {
            MAX_LIMIT
        } else if n < 1 {
            1
        } else {
            n as usize
        },
        None => DEFAULT_LIMIT,
    }
}

/// A filings request.
pub struct SecRequest {
    /// The ticker as given, trimmed.
    pub ticker: String,
    pub form_filter: Option<String>,
    pub limit: usize,
}

/// Reads a filings call: the ticker is required.
pub fn sec_request(args: &Json) -> (r: Result<SecRequest, String>)
    ensures
        match arg_str(*args, "ticker"@) {
            None => r matches Err(e) && e@ == "missing 'ticker' argument"@,
            Some(t) => r matches Ok(req) && req.ticker@ == trim(t) && req.limit == limit_spec(*args) && match arg_str(
                *args,
                "form_type"@,
            ) {
                Some(f) => req.form_filter matches Some(g) && g@ == f,
                None => req.form_filter is None,
            },
        },
{
    let ticker = match get_str(args, "ticker") {
        Some(t) => trim_str(t),
        None => return Err(owned("missing 'ticker' argument")),
    };
    let form_filter = match get_str(args, "form_type") {
        Some(f) => Some(owned(f)),
        None => None,
    };
    let limit: usize = match get_u64(args, "limit") {
        Some(n) => if n > 30 {
            MAX_LIMIT
        } else if n < 1 {
            1
        } else {
            n as usize
        },
        None => DEFAULT_LIMIT,
    };
    Ok(SecRequest { ticker, form_filter, limit })
}

// ---------------------------------------------------------------------
// Tickers
// ---------------------------------------------------------------------
/// `char::to_ascii_uppercase`.
pub open spec fn ascii_upper_char(c: char) -> char {
    if 'a' <= c && c <= 'z' {
        ((c as u32) - 32) as char
    } else {
        c
    }
}

/// `str::to_ascii_uppercase`.
pub open spec fn ascii_upper(s: Seq<char>) -> Seq<char> {
    s.map_values(|c: char| ascii_upper_char(c))
}

/// The ASCII upper case of a text.
pub fn to_ascii_upper(s: &str) -> (r: String)
    ensures
        r@ == ascii_upper(s@),
{
    let v = chars_of(s);
    let mut out: Vec<char> = Vec::new();
    let mut i: usize = 0;
    while i < v.len()
        invariant
            i <= v.len(),
            v@ == s@,
            out@ == ascii_upper(s@).take(i as int),
        decreases v.len() - i,
    {
        let c = v[i];
        let u = if 'a' <= c && c <= 'z' {
            ((c as u8) - 32) as char
        } else {
            c
        };
        out.push(u);
        assert(ascii_upper(s@).take(i + 1) =~= ascii_upper(s@).take(i as int).push(u));
        i = i + 1;
    }
    assert(ascii_upper(s@).take(v.len() as int) =~= ascii_upper(s@));
    string_of(out.as_slice())
}

/// The `(upper-case ticker, CIK)` pairs of the company list, in the
/// order its members come; members without both are skipped.
pub open spec fn ticker_entries_spec(members: Seq<(String, Json)>) -> Seq<(Seq<char>, u64)>
    decreases members.len(),
{
    if members.len() == 0 {
        Seq::empty()
    } else {
        let e = members.last().1;
        ticker_entries_spec(members.drop_last()) + match (
            match e.get_spec("ticker"@) {
                Some(v) => v.str_spec(),
                None => None,
            },
            match e.get_spec("cik_str"@) {
                Some(v) => v.u64_spec(),
                None => None,
            },
        ) {
            (Some(t), Some(cik)) => seq![(ascii_upper(t), cik)],
            _ => Seq::empty(),
        }
    }
}

/// The company list as pairs; a list that is not an object gives none.
pub open spec fn company_list_entries(raw: Json) -> Seq<(Seq<char>, u64)> {
    match raw {
        Json::Object(members) => ticker_entries_spec(members@),
        _ => Seq::empty(),
    }
}

/// Reads the company list.
pub fn company_entries(raw: &Json) -> (r: Vec<(String, u64)>)
    ensures
        r@.map_values(|p: (String, u64)| (p.0@, p.1)) == company_list_entries(*raw),
{
    let mut out: Vec<(String, u64)> = Vec::new();
    match raw {
        Json::Object(members) => {
            let mut i: usize = 0;
            while i < members.len()
                invariant
                    i <= members.len(),
                    out@.map_values(|p: (String, u64)| (p.0@, p.1)) == ticker_entries_spec(members@.take(i as int)),
                decreases members.len() - i,
            {
                assert(members@.take(i + 1).drop_last() =~= members@.take(i as int));
                let e = &members[i].1;
                let t = match e.get("ticker") {
                    Some(v) => v.as_str(),
                    None => None,
                };
                let c = match e.get("cik_str") {
                    Some(v) => v.as_u64(),
                    None => None,
                };
                let ghost before = out@.map_values(|p: (String, u64)| (p.0@, p.1));
                match (t, c) {
                    (Some(t), Some(cik)) => {
                        out.push((to_ascii_upper(t), cik));
                        assert(out@.map_values(|p: (String, u64)| (p.0@, p.1)) =~= before + seq![(ascii_upper(t@), cik)]);
                    },
                    _ => {
                        assert(out@.map_values(|p: (String, u64)| (p.0@, p.1)) =~= before + Seq::<(Seq<char>, u64)>::empty());
                    },
                }
                i = i + 1;
            }
            assert(members@.take(members.len() as int) =~= members@);
        },
        _ => {
            assert(out@.map_values(|p: (String, u64)| (p.0@, p.1)) =~= Seq::<(Seq<char>, u64)>::empty());
        },
    }
    out
}

/// The CIK of a ticker: that of the last pair for it, as a map filled in
/// order keeps.
pub open spec fn cik_of(entries: Seq<(Seq<char>, u64)>, upper: Seq<char>) -> Option<u64>
    decreases entries.len(),
{
    if entries.len() == 0 {
        None
    } else if entries.last().0 == upper {
        Some(entries.last().1)
    } else {
        cik_of(entries.drop_last(), upper)
    }
}

/// Finds the CIK of a ticker, given in any case.
pub fn find_cik(entries: &Vec<(String, u64)>, ticker: &str) -> (r: Result<u64, String>)
    ensures
        match cik_of(entries@.map_values(|p: (String, u64)| (p.0@, p.1)), ascii_upper(ticker@)) {
            Some(c) => r == Ok::<u64, String>(c),
            None => r matches Err(e) && e@ == "unknown ticker `"@ + ticker@ + "` (not in SEC company list)"@,
        },
{
    let ghost es = entries@.map_values(|p: (String, u64)| (p.0@, p.1));
    let upper = to_ascii_upper(ticker);
    let mut i: usize = entries.len();
    assert(es.take(i as int) =~= es);
    while i > 0
        invariant
            i <= entries.len(),
            es == entries@.map_values(|p: (String, u64)| (p.0@, p.1)),
            upper@ == ascii_upper(ticker@),
            cik_of(es, upper@) == cik_of(es.take(i as int), upper@),
        decreases i,
    {
        assert(es.take(i as int).drop_last() =~= es.take(i - 1));
        assert(es.take(i as int).last() == es[i - 1]);
        if str_eq(entries[i - 1].0.as_str(), upper.as_str()) {
            return Ok(entries[i - 1].1);
        }
        i = i - 1;
    }
    let mut e = owned("unknown ticker `");
    push_str(&mut e, ticker);
    push_str(&mut e, "` (not in SEC company list)");
    Err(e)
}

/// The ten-digit, zero-padded CIK.
pub open spec fn padded_cik(cik: u64) -> Seq<char> {
    let d = decimal(cik as nat);
    if d.len() >= 10 {
        d
    } else {
        Seq::new((10 - d.len()) as nat, |i: int| '0') + d
    }
}

/// The submissions address of a company.
pub fn submissions_url(cik: u64) -> (r: String)
    ensures
        r@ == "https://data.sec.gov/submissions/CIK"@ + padded_cik(cik) + ".json"@,
{
    let d = fmt_u64(cik);
    let dv = chars_of(d.as_str());
    let mut r = owned("https://data.sec.gov/submissions/CIK");
    let ghost head = r@;
    let pad_n: usize = if dv.len() < 10 {
        10 - dv.len()
    } else {
        0
    };
    let mut k: usize = 0;
    while k < pad_n
        invariant
            k <= pad_n,
            r@ == head + Seq::new(k as nat, |i: int| '0'),
        decreases pad_n - k,
    {
        let ghost before = r@;
        push_str(&mut r, "0");
        assert(r@ =~= head + Seq::new((k + 1) as nat, |i: int| '0')) by {
            reveal_strlit("0");
        }
        k = k + 1;
    }
    let ghost pad = r@;
    push_str(&mut r, d.as_str());
    push_str(&mut r, ".json");
    proof {
        if dv@.len() >= 10 {
            assert(Seq::new(0nat, |i: int| '0') =~= Seq::<char>::empty());
            assert(pad =~= head);
        } else {
            assert(pad == head + Seq::new((10 - dv@.len()) as nat, |i: int| '0'));
        }
    }
    assert(r@ =~= "https://data.sec.gov/submissions/CIK"@ + padded_cik(cik) + ".json"@);
    r
}

// ---------------------------------------------------------------------
// Filings
// ---------------------------------------------------------------------
/// The recent filings of a company, column by column.
pub struct RecentFilings {
    pub accession_number: Vec<String>,
    pub filing_date: Vec<String>,
    pub report_date: Vec<String>,
    pub form: Vec<String>,
    pub primary_document: Vec<String>,
    pub primary_doc_description: Vec<String>,
}

/// One filing of the answer.
pub struct Filing {
    pub form: String,
    pub filed: String,
    pub report_period: String,
    pub accession: String,
    pub primary_doc_url: String,
    pub description: String,
}

/// A filing as texts, in field order.
pub type FilingView = (Seq<char>, Seq<char>, Seq<char>, Seq<char>, Seq<char>, Seq<char>);

/// Views of filings.
pub open spec fn filing_views(s: Seq<Filing>) -> Seq<FilingView> {
    s.map_values(|f: Filing| (f.form@, f.filed@, f.report_period@, f.accession@, f.primary_doc_url@, f.description@))
}

/// Rows the four required columns all reach.
pub open spec fn complete_rows(r: RecentFilings) -> int {
    let a = r.accession_number@.len();
    let b = r.filing_date@.len();
    let c = r.form@.len();
    let d = r.primary_document@.len();
    let ab = if a < b {
        a
    } else {
        b
    };
    let abc = if ab < c {
        ab
    } else {
        c
    };
    if abc < d {
        abc as int
    } else {
        d as int
    }
}

/// The column value at `i`, or empty past its end.
pub open spec fn cell_or_empty(col: Seq<String>, i: int) -> Seq<char> {
    if 0 <= i < col.len() {
        col[i]@
    } else {
        Seq::empty()
    }
}

/// The filing of row `i`.
pub open spec fn filing_at(cik: u64, r: RecentFilings, i: int) -> FilingView {
    (
        r.form@[i]@,
        r.filing_date@[i]@,
        cell_or_empty(r.report_date@, i),
        r.accession_number@[i]@,
        "https://www.sec.gov/Archives/edgar/data/"@ + decimal(cik as nat) + "/"@ + replace(
            r.accession_number@[i]@,
            "-"@,
            Seq::empty(),
        ) + "/"@ + r.primary_document@[i]@,
        cell_or_empty(r.primary_doc_description@, i),
    )
}

/// Whether row `i` passes the form filter, compared ignoring ASCII case.
pub open spec fn row_wanted(r: RecentFilings, i: int, filter: Option<Seq<char>>) -> bool {
    match filter {
        Some(f) => eq_ignore_ascii_case(r.form@[i]@, f),
        None => true,
    }
}

/// The wanted filings among rows `0..n`, in row order.
pub open spec fn wanted_filings(cik: u64, r: RecentFilings, filter: Option<Seq<char>>, n: int) -> Seq<FilingView>
    decreases n,
{
    if n <= 0 {
        Seq::empty()
    } else {
        wanted_filings(cik, r, filter, n - 1) + if row_wanted(r, n - 1, filter) {
            seq![filing_at(cik, r, n - 1)]
        } else {
            Seq::empty()
        }
    }
}

/// The first `limit` wanted filings.
pub open spec fn listed_filings(cik: u64, r: RecentFilings, filter: Option<Seq<char>>, limit: usize) -> Seq<FilingView> {
    let w = wanted_filings(cik, r, filter, complete_rows(r));
    if w.len() > limit {
        w.take(limit as int)
    } else {
        w
    }
}

proof fn lemma_wanted_grows(cik: u64, r: RecentFilings, filter: Option<Seq<char>>, m: int, n: int)
    requires
        0 <= m <= n,
    ensures
        wanted_filings(cik, r, filter, m).len() <= wanted_filings(cik, r, filter, n).len(),
        wanted_filings(cik, r, filter, n).take(wanted_filings(cik, r, filter, m).len() as int) == wanted_filings(
            cik,
            r,
            filter,
            m,
        ),
    decreases n - m,
{
    if m < n {
        lemma_wanted_grows(cik, r, filter, m, n - 1);
        let a = wanted_filings(cik, r, filter, m);
        let b = wanted_filings(cik, r, filter, n - 1);
        let c = wanted_filings(cik, r, filter, n);
        assert(c.take(b.len() as int) =~= b);
        assert(c.take(a.len() as int) =~= b.take(a.len() as int));
    } else {
        assert(wanted_filings(cik, r, filter, n).take(wanted_filings(cik, r, filter, n).len() as int)
            =~= wanted_filings(cik, r, filter, n));
    }
}

/// Whether `f` is the filing of a row below `n` that passes the filter.
pub open spec fn filing_of_wanted_row_below(cik: u64, r: RecentFilings, filter: Option<Seq<char>>, f: FilingView, n: int) -> bool {
    exists|row: int| 0 <= row < n && row_wanted(r, row, filter) && f == #[trigger] filing_at(cik, r, row)
}

proof fn lemma_wanted_rows(cik: u64, r: RecentFilings, filter: Option<Seq<char>>, n: int)
    requires
        0 <= n,
    ensures
        wanted_filings(cik, r, filter, n).len() <= n,
        forall|k: int|
            0 <= k < wanted_filings(cik, r, filter, n).len() ==> filing_of_wanted_row_below(
                cik,
                r,
                filter,
                #[trigger] wanted_filings(cik, r, filter, n)[k],
                n,
            ),
    decreases n,
{
    if n > 0 {
        lemma_wanted_rows(cik, r, filter, n - 1);
        let w = wanted_filings(cik, r, filter, n);
        let p = wanted_filings(cik, r, filter, n - 1);
        assert forall|k: int| 0 <= k < w.len() implies filing_of_wanted_row_below(cik, r, filter, #[trigger] w[k], n) by {
            if k < p.len() {
                assert(w[k] == p[k]);
                assert(filing_of_wanted_row_below(cik, r, filter, p[k], n - 1));
                let row = choose|row: int| 0 <= row < n - 1 && row_wanted(r, row, filter) && p[k] == #[trigger] filing_at(cik, r, row);
                assert(0 <= row < n && row_wanted(r, row, filter) && w[k] == filing_at(cik, r, row));
            } else {
                assert(w[k] == filing_at(cik, r, n - 1));
            }
        }
    }
}

/// Whether `f` is the filing of a row that passes the filter.
pub open spec fn filing_of_wanted_row(cik: u64, r: RecentFilings, filter: Option<Seq<char>>, f: FilingView) -> bool {
    exists|row: int| 0 <= row < complete_rows(r) && row_wanted(r, row, filter) && f == #[trigger] filing_at(cik, r, row)
}

/// A filings answer lists at most `limit` filings, each of a row that
/// passes the form filter.
pub proof fn lemma_listed_filings_wanted(cik: u64, r: RecentFilings, filter: Option<Seq<char>>, limit: usize)
    ensures
        listed_filings(cik, r, filter, limit).len() <= limit,
        forall|k: int|
            0 <= k < listed_filings(cik, r, filter, limit).len() ==> filing_of_wanted_row(
                cik,
                r,
                filter,
                #[trigger] listed_filings(cik, r, filter, limit)[k],
            ),
{
    lemma_wanted_rows(cik, r, filter, complete_rows(r));
    let w = wanted_filings(cik, r, filter, complete_rows(r));
    let l = listed_filings(cik, r, filter, limit);
    assert forall|k: int| 0 <= k < l.len() implies filing_of_wanted_row(cik, r, filter, #[trigger] l[k]) by {
        assert(l[k] == w[k]);
        assert(filing_of_wanted_row_below(cik, r, filter, w[k], complete_rows(r)));
        let row = choose|row: int| 0 <= row < complete_rows(r) && row_wanted(r, row, filter) && w[k] == #[trigger] filing_at(cik, r, row);
        assert(0 <= row < complete_rows(r) && row_wanted(r, row, filter) && l[k] == filing_at(cik, r, row));
    }
}

fn cell_text(col: &Vec<String>, i: usize) -> (r: String)
    ensures
        r@ == cell_or_empty(col@, i as int),
{
    if i < col.len() {
        owned(col[i].as_str())
    } else {
        proof {
            reveal_strlit("");
        }
        owned("")
    }
}

fn filing_of(cik: u64, r: &RecentFilings, i: usize) -> (f: Filing)
    requires
        i < complete_rows(*r),
    ensures
        (f.form@, f.filed@, f.report_period@, f.accession@, f.primary_doc_url@, f.description@) == filing_at(cik, *r, i as int),
{
    let acc = r.accession_number[i].as_str();
    let av = chars_of(acc);
    let dash = chars_of("-");
    let none: Vec<char> = Vec::new();
    let bare = string_of(replace_chars(av.as_slice(), dash.as_slice(), none.as_slice()).as_slice());
    let mut url = owned("https://www.sec.gov/Archives/edgar/data/");
    push_str(&mut url, fmt_u64(cik).as_str());
    push_str(&mut url, "/");
    push_str(&mut url, bare.as_str());
    push_str(&mut url, "/");
    push_str(&mut url, r.primary_document[i].as_str());
    assert(none@ =~= Seq::<char>::empty());
    Filing {
        form: owned(r.form[i].as_str()),
        filed: owned(r.filing_date[i].as_str()),
        report_period: cell_text(&r.report_date, i),
        accession: owned(acc),
        primary_doc_url: url,
        description: cell_text(&r.primary_doc_description, i),
    }
}

/// The first `limit` filings of the wanted form (all forms without a
/// filter), in row order, over the rows all required columns reach.
pub fn list_filings(cik: u64, r: &RecentFilings, form_filter: &Option<String>, limit: usize) -> (out: Vec<Filing>)
    requires
        limit >= 1,
    ensures
        filing_views(out@) == listed_filings(
            cik,
            *r,
            match form_filter {
                Some(f) => Some(f@),
                None => None,
            },
            limit,
        ),
{
    let ghost filter = match form_filter {
        Some(f) => Some(f@),
        None => None,
    };
    let a = r.accession_number.len();
    let b = r.filing_date.len();
    let c = r.form.len();
    let d = r.primary_document.len();
    let ab = if a < b {
        a
    } else {
        b
    };
    let abc = if ab < c {
        ab
    } else {
        c
    };
    let n = if abc < d {
        abc
    } else {
        d
    };
    assert(n == complete_rows(*r));
    let mut out: Vec<Filing> = Vec::new();
    let mut i: usize = 0;
    while i < n
        invariant_except_break
            i <= n,
            n == complete_rows(*r),
            filter == match form_filter {
                Some(f) => Some(f@),
                None => None::<Seq<char>>,
            },
            limit >= 1,
            filing_views(out@) == wanted_filings(cik, *r, filter, i as int),
            out@.len() < limit,
        ensures
            filing_views(out@) == listed_filings(cik, *r, filter, limit),
        decreases n - i,
    {
        let wanted = match form_filter {
            Some(f) => str_eq_ignore_ascii_case(r.form[i].as_str(), f.as_str()),
            None => true,
        };
        let ghost before = filing_views(out@);
        if wanted {
            out.push(filing_of(cik, r, i));
            assert(filing_views(out@) =~= before + seq![filing_at(cik, *r, i as int)]);
        } else {
            assert(filing_views(out@) =~= before + Seq::<FilingView>::empty());
        }
        i = i + 1;
        if out.len() >= limit {
            proof {
                lemma_wanted_grows(cik, *r, filter, i as int, complete_rows(*r));
                let w = wanted_filings(cik, *r, filter, complete_rows(*r));
                assert(filing_views(out@).len() == limit);
                if w.len() == limit {
                    assert(w.take(limit as int) =~= w);
                }
            }
            break;
        }
    }
    proof {
        if filing_views(out@).len() < limit && i == n {
            assert(wanted_filings(cik, *r, filter, n as int).len() < limit);
        }
    }
    out
}

/// A filing as a JSON object, keys in sorted order.
pub open spec fn filing_json_ok(j: Json, f: FilingView) -> bool {
    j matches Json::Object(m) && m@.len() == 6 && m@[0].0@ == "accession"@ && (m@[0].1 matches Json::String(s) && s@
        == f.3) && m@[1].0@ == "description"@ && (m@[1].1 matches Json::String(s) && s@ == f.5) && m@[2].0@
        == "filed"@ && (m@[2].1 matches Json::String(s) && s@ == f.1) && m@[3].0@ == "form"@ && (m@[3].1 matches Json::String(
        s,
    ) && s@ == f.0) && m@[4].0@ == "primary_doc_url"@ && (m@[4].1 matches Json::String(s) && s@ == f.4) && m@[5].0@
        == "report_period"@ && (m@[5].1 matches Json::String(s) && s@ == f.2)
}

fn filing_json(f: &Filing) -> (j: Json)
    ensures
        filing_json_ok(j, (f.form@, f.filed@, f.report_period@, f.accession@, f.primary_doc_url@, f.description@)),
{
    let mut m: Vec<(String, Json)> = Vec::new();
    m.push((owned("accession"), json_str(f.accession.as_str())));
    m.push((owned("description"), json_str(f.description.as_str())));
    m.push((owned("filed"), json_str(f.filed.as_str())));
    m.push((owned("form"), json_str(f.form.as_str())));
    m.push((owned("primary_doc_url"), json_str(f.primary_doc_url.as_str())));
    m.push((owned("report_period"), json_str(f.report_period.as_str())));
    Json::Object(m)
}

/// The answer of a filings call, keys in sorted order: `cik`,
/// `company_name`, `filings`, `form_filter`, `ticker` (upper case).
pub open spec fn answer_ok(j: Json, ticker: Seq<char>, name: Option<Seq<char>>, cik: u64, filter: Option<Seq<char>>, filings: Seq<FilingView>) -> bool {
    &&& j matches Json::Object(m)
    &&& m@.len() == 5
    &&& m@[0].0@ == "cik"@ && (m@[0].1 matches Json::Number(n) && n.as_u64 == Some(cik) && n.text@ == decimal(
        cik as nat,
    ))
    &&& m@[1].0@ == "company_name"@ && match name {
        Some(s) => m@[1].1 matches Json::String(t) && t@ == s,
        None => m@[1].1 is Null,
    }
    &&& m@[2].0@ == "filings"@ && (m@[2].1 matches Json::Array(items) && items@.len() == filings.len() && forall|
        i: int,
    | 0 <= i < filings.len() ==> filing_json_ok(#[trigger] items@[i], filings[i]))
    &&& m@[3].0@ == "form_filter"@ && match filter {
        Some(s) => m@[3].1 matches Json::String(t) && t@ == s,
        None => m@[3].1 is Null,
    }
    &&& m@[4].0@ == "ticker"@ && (m@[4].1 matches Json::String(t) && t@ == ascii_upper(ticker))
}

fn opt_json(o: &Option<String>) -> (j: Json)
    ensures
        match o {
            Some(s) => j matches Json::String(t) && t@ == s@,
            None => j is Null,
        },
{
    match o {
        Some(s) => json_str(s.as_str()),
        None => Json::Null,
    }
}

/// The answer of a filings call.
pub fn filings_answer(ticker: &str, name: &Option<String>, cik: u64, form_filter: &Option<String>, filings: &Vec<Filing>) -> (j: Json)
    ensures
        answer_ok(
            j,
            ticker@,
            match name {
                Some(s) => Some(s@),
                None => None,
            },
            cik,
            match form_filter {
                Some(s) => Some(s@),
                None => None,
            },
            filing_views(filings@),
        ),
{
    let mut items: Vec<Json> = Vec::new();
    let mut i: usize = 0;
    while i < filings.len()
        invariant
            i <= filings.len(),
            items@.len() == i,
            forall|k: int| 0 <= k < i ==> filing_json_ok(#[trigger] items@[k], filing_views(filings@)[k]),
        decreases filings.len() - i,
    {
        items.push(filing_json(&filings[i]));
        i = i + 1;
    }
    let mut m: Vec<(String, Json)> = Vec::new();
    m.push((owned("cik"), json_u64(cik)));
    m.push((owned("company_name"), opt_json(name)));
    m.push((owned("filings"), Json::Array(items)));
    m.push((owned("form_filter"), opt_json(form_filter)));
    m.push((owned("ticker"), json_str(to_ascii_upper(ticker).as_str())));
    Json::Object(m)
}

/// The answer as compact JSON text.
pub fn filings_answer_text(ticker: &str, name: &Option<String>, cik: u64, form_filter: &Option<String>, filings: &Vec<Filing>) -> (r: String)
    ensures
        exists|j: Json|
            answer_ok(
                j,
                ticker@,
                match name {
                    Some(s) => Some(s@),
                    None => None,
                },
                cik,
                match form_filter {
                    Some(s) => Some(s@),
                    None => None,
                },
                filing_views(filings@),
            ) && r@ == crate::json::json_text(j),
{
    let j = filings_answer(ticker, name, cik, form_filter, filings);
    to_json_string(&j)
}

} // verus!
