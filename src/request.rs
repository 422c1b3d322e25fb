//! What the historical-data requests are made of: their URLs, query
//! parameters and authorization header. The HTTP exchange is the caller's.

use vstd::prelude::*;

verus! {

/// The REST endpoint's base.
pub open spec fn base_url() -> Seq<char> {
    "https://api.polygon.io"@
}

pub open spec fn bool_text(b: bool) -> Seq<char> {
    if b {
        "true"@
    } else {
        "false"@
    }
}

pub open spec fn bearer(api_key: Seq<char>) -> Seq<char> {
    "Bearer "@ + api_key
}

fn bool_string(b: bool) -> (r: String)
    ensures
        r@ == bool_text(b),
{
    if b {
        String::from_str("true")
    } else {
        String::from_str("false")
    }
}

fn bearer_string(api_key: &str) -> (r: String)
    ensures
        r@ == bearer(api_key@),
{
    let mut s = String::from_str("Bearer ");
    s.append(api_key);
    s
}

/// Grouped daily bars of the whole stock market.
pub struct GroupedDaily {
    api_key: String,
}

impl GroupedDaily {
    pub closed spec fn api_key_spec(&self) -> Seq<char> {
        self.api_key@
    }

    pub fn new(api_key: String) -> (r: GroupedDaily)
        ensures
            r.api_key_spec() == api_key@,
    {
        GroupedDaily { api_key }
    }

    /// The value of the `Authorization` header.
    pub fn authorization(&self) -> (r: String)
        ensures
            r@ == bearer(self.api_key_spec()),
    {
        bearer_string(self.api_key.as_str())
    }

    /// The URL of the bars of `date` (YYYY-MM-DD).
    pub fn url(&self, date: &str) -> (r: String)
        ensures
            r@ == base_url() + "/v2/aggs/grouped/locale/us/market/stocks/"@ + date@,
    {
        let mut s = String::from_str("https://api.polygon.io");
        s.append("/v2/aggs/grouped/locale/us/market/stocks/");
        s.append(date);
        s
    }

    /// The query parameters `adjusted` and `include_otc`.
    pub fn query(adjusted: bool, include_otc: bool) -> (r: Vec<(String, String)>)
        ensures
            r@.len() == 2,
            r@[0].0@ == "adjusted"@ && r@[0].1@ == bool_text(adjusted),
            r@[1].0@ == "include_otc"@ && r@[1].1@ == bool_text(include_otc),
    {
        let mut q: Vec<(String, String)> = Vec::new();
        q.push((String::from_str("adjusted"), bool_string(adjusted)));
        q.push((String::from_str("include_otc"), bool_string(include_otc)));
        q
    }
}

/// Aggregate bars of one stock over a date range.
pub struct Aggregates {
    api_key: String,
}

impl Aggregates {
    pub closed spec fn api_key_spec(&self) -> Seq<char> {
        self.api_key@
    }

    pub fn new(api_key: String) -> (r: Aggregates)
        ensures
            r.api_key_spec() == api_key@,
    {
        Aggregates { api_key }
    }

    /// The value of the `Authorization` header.
    pub fn authorization(&self) -> (r: String)
        ensures
            r@ == bearer(self.api_key_spec()),
    {
        bearer_string(self.api_key.as_str())
    }

    /// The URL of the bars of `ticker`, `multiplier` × `timespan` wide, from `from` to `to`.
    pub fn url(&self, ticker: &str, multiplier: &str, timespan: &str, from: &str, to: &str) -> (r: String)
        ensures
            r@ == base_url() + "/v2/aggs/ticker/"@ + ticker@ + "/range/"@ + multiplier@ + "/"@
                + timespan@ + "/"@ + from@ + "/"@ + to@,
    {
        let mut s = String::from_str("https://api.polygon.io");
        s.append("/v2/aggs/ticker/");
        s.append(ticker);
        s.append("/range/");
        s.append(multiplier);
        s.append("/");
        s.append(timespan);
        s.append("/");
        s.append(from);
        s.append("/");
        s.append(to);
        s
    }

    /// The query parameters `adjusted` and `sort`; the caller adds `limit`.
    pub fn query(adjusted: bool, sort: &str) -> (r: Vec<(String, String)>)
        ensures
            r@.len() == 2,
            r@[0].0@ == "adjusted"@ && r@[0].1@ == bool_text(adjusted),
            r@[1].0@ == "sort"@ && r@[1].1@ == sort@,
    {
        let mut q: Vec<(String, String)> = Vec::new();
        q.push((String::from_str("adjusted"), bool_string(adjusted)));
        q.push((String::from_str("sort"), String::from_str(sort)));
        q
    }
}

} // verus!
