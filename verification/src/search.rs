//! Looking faxes up: by receipt or request number, and by date range.
use vstd::prelude::*;
use crate::config::{join2, opt_view, popbill_url, spec_popbill_base, Config};
use crate::decimal::{all_digits, decimal, spec_decimal, spec_parse_u64};
use crate::text::{
    chars_of, is_blank, join_strings, owned, spec_is_blank, spec_join, spec_trim, strings_view,
    trim,
};
use crate::urlenc::{spec_url_with_query, url_with_query};
use crate::values::pairs_view;

verus! {

/// Why a lookup names no single fax.
#[derive(Clone, Copy, PartialEq, Eq, Structural, Debug)]
pub enum LookupKeyError {
    /// Neither number given (`one of --receipt-num or --request-num is required`).
    Missing,
    /// Both numbers given (`use only one of --receipt-num or --request-num`).
    Both,
}

pub open spec fn given(v: Option<&str>) -> bool {
    v matches Some(s) && !spec_is_blank(s@)
}

/// Exactly one of the two numbers must be given (and not blank).
pub open spec fn spec_lookup_key(
    receipt_num: Option<&str>,
    request_num: Option<&str>,
) -> Result<(), LookupKeyError> {
    if given(receipt_num) == given(request_num) {
        if given(receipt_num) {
            Err(LookupKeyError::Both)
        } else {
            Err(LookupKeyError::Missing)
        }
    } else {
        Ok(())
    }
}

fn is_given(v: Option<&str>) -> (r: bool)
    ensures
        r == given(v),
{
    match v {
        Some(s) => !is_blank(s),
        None => false,
    }
}

/// Checks that exactly one of the receipt number and the request number is given.
pub fn validate_one_lookup_key(receipt_num: Option<&str>, request_num: Option<&str>) -> (r: Result<
    (),
    LookupKeyError,
>)
    ensures
        r == spec_lookup_key(receipt_num, request_num),
{
    let has_receipt = is_given(receipt_num);
    let has_request = is_given(request_num);
    if has_receipt && !has_request || !has_receipt && has_request {
        Ok(())
    } else if !has_receipt {
        Err(LookupKeyError::Missing)
    } else {
        Err(LookupKeyError::Both)
    }
}

/// A Popbill request: what the result is reported as, and the API path.
pub struct FaxTarget {
    pub mode: &'static str,
    pub path: String,
}

/// Where reading a fax goes: by receipt number when one is given (even if
/// the other was the one checked), else by request number.
pub open spec fn spec_read_target(receipt_num: Option<&str>, request_num: Option<&str>) -> (
    Seq<char>,
    Seq<char>,
) {
    match receipt_num {
        Some(v) => ("read"@, "/FAX/"@ + v@),
        None => ("read-request-num"@, "/FAX/Get/"@ + request_num->0@),
    }
}

/// Where cancelling a reserved fax goes.
pub open spec fn spec_cancel_target(receipt_num: Option<&str>, request_num: Option<&str>) -> (
    Seq<char>,
    Seq<char>,
) {
    match receipt_num {
        Some(v) => ("delete-cancel-reserve"@, "/FAX/"@ + v@ + "/Cancel"@),
        None => ("delete-cancel-reserve-request-num"@, "/FAX/Cancel/"@ + request_num->0@),
    }
}

/// The request that reads one fax's result.
pub fn read_target(receipt_num: Option<&str>, request_num: Option<&str>) -> (r: Result<
    FaxTarget,
    LookupKeyError,
>)
    ensures
        match spec_lookup_key(receipt_num, request_num) {
            Err(e) => r == Err::<FaxTarget, LookupKeyError>(e),
            Ok(()) => r matches Ok(t) && (t.mode@, t.path@) == spec_read_target(
                receipt_num,
                request_num,
            ),
        },
{
    match validate_one_lookup_key(receipt_num, request_num) {
        Err(e) => Err(e),
        Ok(()) => match receipt_num {
            Some(value) => Ok(FaxTarget { mode: "read", path: join2("/FAX/", value) }),
            None => match request_num {
                Some(value) => Ok(FaxTarget { mode: "read-request-num", path: join2("/FAX/Get/", value) }),
                None => Err(LookupKeyError::Missing),
            },
        },
    }
}

/// The request that cancels one reserved fax.
pub fn cancel_target(receipt_num: Option<&str>, request_num: Option<&str>) -> (r: Result<
    FaxTarget,
    LookupKeyError,
>)
    ensures
        match spec_lookup_key(receipt_num, request_num) {
            Err(e) => r == Err::<FaxTarget, LookupKeyError>(e),
            Ok(()) => r matches Ok(t) && (t.mode@, t.path@) == spec_cancel_target(
                receipt_num,
                request_num,
            ),
        },
{
    match validate_one_lookup_key(receipt_num, request_num) {
        Err(e) => Err(e),
        Ok(()) => match receipt_num {
            Some(value) => {
                let mut path = join2("/FAX/", value);
                path.append("/Cancel");
                Ok(FaxTarget { mode: "delete-cancel-reserve", path })
            },
            None => match request_num {
                Some(value) => Ok(
                    FaxTarget {
                        mode: "delete-cancel-reserve-request-num",
                        path: join2("/FAX/Cancel/", value),
                    },
                ),
                None => Err(LookupKeyError::Missing),
            },
        },
    }
}

/// Whether `s` is a date written `YYYYMMDD`: eight ASCII digits.
pub open spec fn spec_is_yyyymmdd(s: Seq<char>) -> bool {
    s.len() == 8 && all_digits(s)
}

/// A date given in another form than `YYYYMMDD` (`{label} must use
/// YYYYMMDD format`); `label` names the option.
#[derive(Clone, Debug)]
pub struct DateFormatError {
    pub label: String,
}

/// Checks that `value` is a date written `YYYYMMDD`.
pub fn validate_yyyymmdd(label: &str, value: &str) -> (r: Result<(), DateFormatError>)
    ensures
        spec_is_yyyymmdd(value@) ==> r is Ok,
        !spec_is_yyyymmdd(value@) ==> (r matches Err(e) && e.label@ == label@),
{
    let v = chars_of(value);
    if v.len() != 8 {
        return Err(DateFormatError { label: owned(label) });
    }
    let mut i: usize = 0;
    while i < 8
        invariant
            v@ == value@,
            v.len() == 8,
            i <= 8,
            forall|j: int| 0 <= j < i ==> crate::decimal::is_digit(#[trigger] v@[j]),
        decreases 8 - i,
    {
        if !('0' <= v[i] && v[i] <= '9') {
            return Err(DateFormatError { label: owned(label) });
        }
        i = i + 1;
    }
    Ok(())
}

/// What a search asks for.
pub struct FaxSearchQuery {
    pub start_date: Option<String>,
    pub end_date: Option<String>,
    pub state: Vec<String>,
    pub reserve_yn: Option<bool>,
    pub sender_only: Option<bool>,
    pub order: String,
    pub page: u32,
    pub per_page: u32,
    pub query: Option<String>,
}

/// Why a search is refused.
#[derive(Clone, Copy, PartialEq, Eq, Structural, Debug)]
pub enum SearchError {
    /// A start date not written `YYYYMMDD`.
    StartDateFormat,
    /// An end date not written `YYYYMMDD`.
    EndDateFormat,
    /// `per-page must be between 1 and 1000`.
    PerPageRange,
    /// `page must be >= 1`.
    PageZero,
}

pub open spec fn date_or(v: Option<String>, today: Seq<char>) -> Seq<char> {
    match v {
        Some(s) => s@,
        None => today,
    }
}

pub open spec fn flag_text(b: bool) -> Seq<char> {
    if b {
        seq!['1']
    } else {
        seq!['0']
    }
}

pub type Pairs = Seq<(Seq<char>, Seq<char>)>;

pub open spec fn opt_pair(k: Seq<char>, v: Option<Seq<char>>) -> Pairs {
    match v {
        Some(x) => seq![(k, x)],
        None => Seq::empty(),
    }
}

pub open spec fn opt_flag(b: Option<bool>) -> Option<Seq<char>> {
    match b {
        Some(x) => Some(flag_text(x)),
        None => None,
    }
}

/// The query of a search, in the order it is written: dates, states,
/// reservation and sender flags, order, page, page size, free text.
pub open spec fn spec_search_pairs(q: FaxSearchQuery, today: Seq<char>) -> Pairs {
    seq![("SDate"@, date_or(q.start_date, today)), ("EDate"@, date_or(q.end_date, today))]
        + opt_pair(
        "State"@,
        if q.state@.len() == 0 {
            None
        } else {
            Some(spec_join(strings_view(q.state@), ","@))
        },
    ) + opt_pair("ReserveYN"@, opt_flag(q.reserve_yn)) + opt_pair(
        "SenderOnly"@,
        opt_flag(q.sender_only),
    ) + opt_pair(
        "Order"@,
        if spec_is_blank(q.order@) {
            None
        } else {
            Some(spec_trim(q.order@))
        },
    ) + seq![
        ("Page"@, spec_decimal(q.page as nat)),
        ("PerPage"@, spec_decimal(q.per_page as nat)),
    ] + opt_pair(
        "QString"@,
        match q.query {
            Some(s) => if spec_is_blank(s@) {
                None
            } else {
                Some(spec_trim(s@))
            },
            None => None,
        },
    )
}

/// The first reason to refuse a search, in the order the checks are made.
pub open spec fn spec_search_error(q: FaxSearchQuery, today: Seq<char>) -> Option<SearchError> {
    if !spec_is_yyyymmdd(date_or(q.start_date, today)) {
        Some(SearchError::StartDateFormat)
    } else if !spec_is_yyyymmdd(date_or(q.end_date, today)) {
        Some(SearchError::EndDateFormat)
    } else if q.per_page == 0 || q.per_page > 1000 {
        Some(SearchError::PerPageRange)
    } else if q.page == 0 {
        Some(SearchError::PageZero)
    } else {
        None
    }
}

fn push_pair(pairs: &mut Vec<(String, String)>, key: &str, value: String)
    ensures
        pairs_view(final(pairs)@) == pairs_view(old(pairs)@).push((key@, value@)),
{
    let ghost before = pairs_view(pairs@);
    pairs.push((owned(key), value));
    assert(pairs_view(pairs@) =~= before.push((key@, value@)));
}

fn push_opt_pair(pairs: &mut Vec<(String, String)>, key: &str, value: Option<String>)
    ensures
        pairs_view(final(pairs)@) == pairs_view(old(pairs)@) + opt_pair(key@, opt_view(value)),
{
    let ghost before = pairs_view(pairs@);
    match value {
        Some(v) => {
            push_pair(pairs, key, v);
            assert(pairs_view(pairs@) =~= before + opt_pair(key@, opt_view(Some(v))));
        },
        None => {
            assert(pairs_view(pairs@) =~= before + Seq::<(Seq<char>, Seq<char>)>::empty());
        },
    }
}

fn opt_flag_text(b: Option<bool>) -> (r: Option<String>)
    ensures
        opt_view(r) == opt_flag(b),
{
    match b {
        Some(x) => Some(flag(x)),
        None => None,
    }
}

fn flag(b: bool) -> (r: String)
    ensures
        r@ == flag_text(b),
{
    let mut s = String::new();
    crate::text::push_char(&mut s, if b {
        '1'
    } else {
        '0'
    });
    assert(s@ =~= flag_text(b));
    s
}

fn date_or_today(v: &Option<String>, today: &str) -> (r: String)
    ensures
        r@ == date_or(*v, today@),
{
    match v {
        Some(s) => s.clone(),
        None => owned(today),
    }
}

/// The query of a search, after its checks; `today` is the current date,
/// written `YYYYMMDD`, which stands for a missing start or end date.
pub fn fax_search_pairs(query: &FaxSearchQuery, today: &str) -> (r: Result<
    Vec<(String, String)>,
    SearchError,
>)
    ensures
        match spec_search_error(*query, today@) {
            Some(e) => r == Err::<Vec<(String, String)>, SearchError>(e),
            None => r matches Ok(p) && pairs_view(p@) == spec_search_pairs(*query, today@),
        },
{
    let start_date = date_or_today(&query.start_date, today);
    let end_date = date_or_today(&query.end_date, today);
    if validate_yyyymmdd("start-date", start_date.as_str()).is_err() {
        return Err(SearchError::StartDateFormat);
    }
    if validate_yyyymmdd("end-date", end_date.as_str()).is_err() {
        return Err(SearchError::EndDateFormat);
    }
    if query.per_page == 0 || query.per_page > 1000 {
        return Err(SearchError::PerPageRange);
    }
    if query.page == 0 {
        return Err(SearchError::PageZero);
    }
    let mut pairs: Vec<(String, String)> = Vec::new();
    let ghost q = *query;
    push_pair(&mut pairs, "SDate", start_date);
    push_pair(&mut pairs, "EDate", end_date);
    let ghost p1 = pairs_view(pairs@);
    let state = if query.state.len() > 0 {
        proof {
            assert(strings_view(query.state@).take(query.state.len() as int) =~= strings_view(
                query.state@,
            ));
        }
        Some(join_strings(&query.state, query.state.len(), ","))
    } else {
        None
    };
    push_opt_pair(&mut pairs, "State", state);
    let ghost p2 = pairs_view(pairs@);
    push_opt_pair(&mut pairs, "ReserveYN", opt_flag_text(query.reserve_yn));
    let ghost p3 = pairs_view(pairs@);
    push_opt_pair(&mut pairs, "SenderOnly", opt_flag_text(query.sender_only));
    let ghost p4 = pairs_view(pairs@);
    let order = if is_blank(query.order.as_str()) {
        None
    } else {
        Some(owned(trim(query.order.as_str())))
    };
    push_opt_pair(&mut pairs, "Order", order);
    let ghost p5 = pairs_view(pairs@);
    push_pair(&mut pairs, "Page", decimal(query.page as u64));
    push_pair(&mut pairs, "PerPage", decimal(query.per_page as u64));
    let ghost p6 = pairs_view(pairs@);
    let text = match &query.query {
        Some(value) => if is_blank(value.as_str()) {
            None
        } else {
            Some(owned(trim(value.as_str())))
        },
        None => None,
    };
    push_opt_pair(&mut pairs, "QString", text);
    assert(p1 =~= seq![("SDate"@, date_or(q.start_date, today@)), ("EDate"@, date_or(q.end_date, today@))]);
    assert(p6 =~= p5 + seq![
        ("Page"@, spec_decimal(q.page as nat)),
        ("PerPage"@, spec_decimal(q.per_page as nat)),
    ]);
    assert(pairs_view(pairs@) =~= spec_search_pairs(q, today@));
    Ok(pairs)
}

/// The address of a search on the Popbill host.
pub fn fax_search_url(config: &Config, query: &FaxSearchQuery, today: &str) -> (r: Result<
    String,
    SearchError,
>)
    ensures
        match spec_search_error(*query, today@) {
            Some(e) => r == Err::<String, SearchError>(e),
            None => r matches Ok(u) && u@ == spec_url_with_query(
                spec_popbill_base(*config) + "/FAX/Search"@,
                spec_search_pairs(*query, today@),
            ),
        },
{
    match fax_search_pairs(query, today) {
        Err(e) => Err(e),
        Ok(pairs) => {
            let base = popbill_url(config, "/FAX/Search");
            Ok(url_with_query(base.as_str(), &pairs))
        },
    }
}

/// The address of a per-receive-number-type query (unit cost, charge info).
pub fn receive_num_type_url(config: &Config, path: &str, receive_num_type: &str) -> (r: String)
    ensures
        r@ == spec_url_with_query(
            spec_popbill_base(*config) + path@,
            seq![("receiveNumType"@, receive_num_type@)],
        ),
{
    let base = popbill_url(config, path);
    let mut pairs: Vec<(String, String)> = Vec::new();
    push_pair(&mut pairs, "receiveNumType", owned(receive_num_type));
    assert(pairs_view(pairs@) =~= seq![("receiveNumType"@, receive_num_type@)]);
    url_with_query(base.as_str(), &pairs)
}

/// The first two pairs of a search are its dates: a date that was not
/// given is `today`, whatever the other date is. The `Page` and `PerPage`
/// pairs read back as the page and page size that were asked for.
pub proof fn law_search_dates_and_paging(q: FaxSearchQuery, today: Seq<char>)
    ensures
        ({
            let p = spec_search_pairs(q, today);
            &&& p.len() >= 4
            &&& p[0].0 == "SDate"@ && p[1].0 == "EDate"@
            &&& q.start_date is None ==> p[0].1 == today
            &&& q.start_date matches Some(s) ==> p[0].1 == s@
            &&& q.end_date is None ==> p[1].1 == today
            &&& q.end_date matches Some(e) ==> p[1].1 == e@
            &&& exists|i: int|
                0 <= i < p.len() - 1 && #[trigger] p[i].0 == "Page"@ && p[i + 1].0 == "PerPage"@
                    && spec_parse_u64(p[i].1) == Some(q.page as u64) && spec_parse_u64(p[i + 1].1)
                    == Some(q.per_page as u64)
        }),
{
    let p = spec_search_pairs(q, today);
    let head = seq![("SDate"@, date_or(q.start_date, today)), ("EDate"@, date_or(q.end_date, today))]
        + opt_pair(
        "State"@,
        if q.state@.len() == 0 {
            None
        } else {
            Some(spec_join(strings_view(q.state@), ","@))
        },
    ) + opt_pair("ReserveYN"@, opt_flag(q.reserve_yn)) + opt_pair(
        "SenderOnly"@,
        opt_flag(q.sender_only),
    ) + opt_pair(
        "Order"@,
        if spec_is_blank(q.order@) {
            None
        } else {
            Some(spec_trim(q.order@))
        },
    );
    let paging = seq![
        ("Page"@, spec_decimal(q.page as nat)),
        ("PerPage"@, spec_decimal(q.per_page as nat)),
    ];
    let text = opt_pair(
        "QString"@,
        match q.query {
            Some(s) => if spec_is_blank(s@) {
                None
            } else {
                Some(spec_trim(s@))
            },
            None => None,
        },
    );
    assert(p == head + paging + text);
    let i = head.len() as int;
    assert((head + paging)[i] == paging[0]);
    assert((head + paging)[i + 1] == paging[1]);
    assert(p[i] == ("Page"@, spec_decimal(q.page as nat)));
    assert(p[i + 1] == ("PerPage"@, spec_decimal(q.per_page as nat)));
    crate::decimal::law_decimal_round_trip(q.page as u64);
    crate::decimal::law_decimal_round_trip(q.per_page as u64);
    assert(p[0] == ("SDate"@, date_or(q.start_date, today)));
    assert(p[1] == ("EDate"@, date_or(q.end_date, today)));
    assert(p[i].0 == "Page"@ && p[i + 1].0 == "PerPage"@ && spec_parse_u64(p[i].1) == Some(
        q.page as u64,
    ) && spec_parse_u64(p[i + 1].1) == Some(q.per_page as u64));
    assert(p.len() >= 4);
}

} // verus!
