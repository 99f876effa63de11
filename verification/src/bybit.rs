//! The request side of the Bybit kline client: the endpoint address of a
//! kline query, the check of the response code, and the order of the rows.
//! Sending the request and decoding its JSON body is the caller's I/O.

use vstd::prelude::*;
use vstd::string::StringExecFns;

verus! {

/// The character of a decimal digit.
pub open spec fn digit_char(d: nat) -> char {
    ((48 + d) as u32) as char
}

/// The decimal representation of `n`, without leading zeros.
pub open spec fn spec_decimal(n: nat) -> Seq<char>
    decreases n,
{
    if n < 10 {
        seq![digit_char(n)]
    } else {
        spec_decimal(n / 10).push(digit_char(n % 10))
    }
}

/// `c` is one of the characters `0` to `9`.
pub open spec fn is_digit(c: char) -> bool {
    48 <= (c as int) <= 57
}

/// The number that a string of decimal digits denotes.
pub open spec fn decimal_value(s: Seq<char>) -> int
    decreases s.len(),
{
    if s.len() == 0 {
        0
    } else {
        decimal_value(s.drop_last()) * 10 + ((s.last() as int) - 48)
    }
}

/// Law of the decimal form: it is a non-empty string of digits, without a
/// leading zero (unless it is `0` itself), that denotes `n`.
pub proof fn lemma_decimal_roundtrip(n: nat)
    ensures
        decimal_value(spec_decimal(n)) == n,
        spec_decimal(n).len() >= 1,
        forall|i: int| 0 <= i < spec_decimal(n).len() ==> is_digit(#[trigger] spec_decimal(n)[i]),
        n > 0 ==> spec_decimal(n)[0] != '0',
        n == 0 ==> spec_decimal(n) == seq!['0'],
    decreases n,
{
    assert(digit_char(n % 10) as int == 48 + n % 10);
    assert((n / 10) * 10 + n % 10 == n);
    if n >= 10 {
        lemma_decimal_roundtrip(n / 10);
        let d = spec_decimal(n);
        assert(d.drop_last() =~= spec_decimal(n / 10));
        assert(d.last() == digit_char(n % 10));
        assert(d[0] == spec_decimal(n / 10)[0]);
        assert(decimal_value(d) == decimal_value(d.drop_last()) * 10 + ((d.last() as int) - 48));
        assert(decimal_value(d.drop_last()) == n / 10);
    } else {
        let d = spec_decimal(n);
        assert(d.drop_last() =~= Seq::<char>::empty());
        assert(decimal_value(d.drop_last()) == 0);
        assert(d.last() == digit_char(n));
        assert(decimal_value(d) == decimal_value(d.drop_last()) * 10 + ((d.last() as int) - 48));
    }
}

/// The address of a kline query against the API at `base`.
pub open spec fn spec_kline_url(base: Seq<char>, symbol: Seq<char>, interval: Seq<char>, limit: nat) -> Seq<char> {
    base + "/v5/market/kline?category=spot&symbol="@ + symbol + "&interval="@ + interval
        + "&limit="@ + spec_decimal(limit)
}

/// Law of the kline address: it is the query prefix for the base, symbol and
/// interval, followed by the decimal digits of `limit` itself, which denote `limit`.
pub proof fn lemma_kline_url_limit(base: Seq<char>, symbol: Seq<char>, interval: Seq<char>, limit: nat)
    ensures
        ({
            let u = spec_kline_url(base, symbol, interval, limit);
            let prefix = base + "/v5/market/kline?category=spot&symbol="@ + symbol + "&interval="@
                + interval + "&limit="@;
            &&& u.len() > prefix.len()
            &&& u.subrange(0, prefix.len() as int) == prefix
            &&& decimal_value(u.subrange(prefix.len() as int, u.len() as int)) == limit
            &&& forall|i: int|
                prefix.len() <= i < u.len() ==> is_digit(#[trigger] u[i])
        }),
{
    lemma_decimal_roundtrip(limit);
    let u = spec_kline_url(base, symbol, interval, limit);
    let prefix = base + "/v5/market/kline?category=spot&symbol="@ + symbol + "&interval="@
        + interval + "&limit="@;
    assert(u == prefix + spec_decimal(limit));
    assert(u.subrange(0, prefix.len() as int) =~= prefix);
    assert(u.subrange(prefix.len() as int, u.len() as int) =~= spec_decimal(limit));
    assert forall|i: int| prefix.len() <= i < u.len() implies is_digit(#[trigger] u[i]) by {
        assert(u[i] == spec_decimal(limit)[i - prefix.len()]);
    }
}

fn digit_str(d: usize) -> (r: &'static str)
    requires
        d < 10,
    ensures
        r@ == seq![digit_char(d as nat)],
{
    proof {
        reveal_strlit("0");
        reveal_strlit("1");
        reveal_strlit("2");
        reveal_strlit("3");
        reveal_strlit("4");
        reveal_strlit("5");
        reveal_strlit("6");
        reveal_strlit("7");
        reveal_strlit("8");
        reveal_strlit("9");
    }
    match d {
        0 => "0",
        1 => "1",
        2 => "2",
        3 => "3",
        4 => "4",
        5 => "5",
        6 => "6",
        7 => "7",
        8 => "8",
        _ => "9",
    }
}

/// Appends the decimal representation of `n` to `s`.
pub fn push_decimal(s: &mut String, n: usize)
    ensures
        final(s)@ == old(s)@ + spec_decimal(n as nat),
        final(s)@.subrange(0, old(s)@.len() as int) == old(s)@,
        decimal_value(final(s)@.subrange(old(s)@.len() as int, final(s)@.len() as int)) == n,
    decreases n,
{
    if n >= 10 {
        push_decimal(s, n / 10);
    }
    s.append(digit_str(n % 10));
    proof {
        lemma_decimal_roundtrip(n as nat);
        assert(final(s)@.subrange(0, old(s)@.len() as int) =~= old(s)@);
        assert(final(s)@.subrange(old(s)@.len() as int, final(s)@.len() as int) =~= spec_decimal(
            n as nat,
        ));
        if n >= 10 {
            assert(old(s)@ + spec_decimal(n as nat) =~= old(s)@ + spec_decimal((n / 10) as nat)
                + seq![digit_char((n % 10) as nat)]);
        } else {
            assert(spec_decimal(n as nat) =~= seq![digit_char(n as nat)]);
        }
    }
}

/// Errors that the API reports in its response.
#[derive(Debug, PartialEq, Eq, Structural)]
pub enum BybitError {
    /// A response with a non-zero `retCode`.
    Api { ret_code: i32 },
}

/// Accepts a response whose `retCode` is 0 and refuses any other.
pub fn check_response_code(ret_code: i32) -> (r: Result<(), BybitError>)
    ensures
        r is Ok <==> ret_code == 0,
        r matches Err(e) ==> e == (BybitError::Api { ret_code }),
{
    if ret_code != 0 {
        Err(BybitError::Api { ret_code })
    } else {
        Ok(())
    }
}

/// The API lists klines newest first; this puts them in chronological order.
pub fn into_chronological<T>(rows: Vec<T>) -> (r: Vec<T>)
    ensures
        r@ == rows@.reverse(),
{
    let mut rest = rows;
    let mut out: Vec<T> = Vec::new();
    let ghost n = rows@.len();
    while rest.len() > 0
        invariant
            n == rows@.len(),
            rest@ == rows@.subrange(0, rest@.len() as int),
            out@.len() + rest@.len() == n,
            forall|i: int| 0 <= i < out@.len() ==> out@[i] == rows@[n - 1 - i],
        decreases rest@.len(),
    {
        let item = rest.pop();
        match item {
            Some(x) => {
                out.push(x);
            },
            None => {},
        }
    }
    assert(out@ =~= rows@.reverse());
    out
}

/// Client for the Bybit market-data API.
#[derive(Debug)]
pub struct BybitClient {
    base_url: String,
}

impl View for BybitClient {
    type V = Seq<char>;

    /// The base address of the API.
    closed spec fn view(&self) -> Seq<char> {
        self.base_url@
    }
}

impl BybitClient {
    /// Creates a client for the public Bybit API at `https://api.bybit.com`.
    pub fn new() -> (r: Self)
        ensures
            r@ == "https://api.bybit.com"@,
    {
        BybitClient { base_url: String::from_str("https://api.bybit.com") }
    }

    /// The address of the spot kline query for `symbol` at `interval`,
    /// asking for `limit` klines.
    pub fn kline_url(&self, symbol: &str, interval: &str, limit: usize) -> (r: String)
        ensures
            r@ == spec_kline_url(self@, symbol@, interval@, limit as nat),
            ({
                let prefix = self@ + "/v5/market/kline?category=spot&symbol="@ + symbol@
                    + "&interval="@ + interval@ + "&limit="@;
                &&& r@.subrange(0, prefix.len() as int) == prefix
                &&& decimal_value(r@.subrange(prefix.len() as int, r@.len() as int)) == limit
            }),
    {
        let mut url = self.base_url.clone();
        url.append("/v5/market/kline?category=spot&symbol=");
        url.append(symbol);
        url.append("&interval=");
        url.append(interval);
        url.append("&limit=");
        push_decimal(&mut url, limit);
        proof {
            lemma_kline_url_limit(self@, symbol@, interval@, limit as nat);
        }
        url
    }
}

impl Default for BybitClient {
    fn default() -> (r: Self)
        ensures
            r@ == "https://api.bybit.com"@,
    {
        Self::new()
    }
}

} // verus!
