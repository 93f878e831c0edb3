//! Names of the exchange's market-data streams.  Each builder renders the
//! stream name the exchange expects for a symbol; numeric parameters are
//! spelled in decimal.

use vstd::prelude::*;

verus! {

/// The decimal digit character for a value below ten.
pub open spec fn dec_digit(n: int) -> char
    recommends
        0 <= n < 10,
{
    if n == 0 {
        '0'
    } else if n == 1 {
        '1'
    } else if n == 2 {
        '2'
    } else if n == 3 {
        '3'
    } else if n == 4 {
        '4'
    } else if n == 5 {
        '5'
    } else if n == 6 {
        '6'
    } else if n == 7 {
        '7'
    } else if n == 8 {
        '8'
    } else {
        '9'
    }
}

/// The decimal spelling of a number, most significant digit first, with no
/// leading zeros (zero itself is "0").
pub open spec fn dec_string(n: nat) -> Seq<char>
    decreases n,
{
    if n < 10 {
        seq![dec_digit(n as int)]
    } else {
        dec_string(n / 10).push(dec_digit((n % 10) as int))
    }
}

fn digit_str(d: u16) -> (s: &'static str)
    requires
        d < 10,
    ensures
        s@ == seq![dec_digit(d as int)],
{
    proof {
        reveal_strlit("0");
        reveal_strlit("1");
        reveal_strlit("2");
        reveal_strlit("3");
        reveal_strlit("4");
        reveal_strlit("5");
        reveal_strlit("6");
        reveal_strlit("7");
        reveal_strlit("8");
        reveal_strlit("9");
    }
    let s: &'static str = if d == 0 {
        "0"
    } else if d == 1 {
        "1"
    } else if d == 2 {
        "2"
    } else if d == 3 {
        "3"
    } else if d == 4 {
        "4"
    } else if d == 5 {
        "5"
    } else if d == 6 {
        "6"
    } else if d == 7 {
        "7"
    } else if d == 8 {
        "8"
    } else {
        "9"
    };
    proof {
        assert(s@ =~= seq![dec_digit(d as int)]);
    }
    s
}

/// Render a number in decimal.
pub fn u16_string(n: u16) -> (s: String)
    ensures
        s@ == dec_string(n as nat),
    decreases n,
{
    if n < 10 {
        String::from_str(digit_str(n))
    } else {
        let mut s = u16_string(n / 10);
        s.append(digit_str(n % 10));
        proof {
            assert(s@ =~= dec_string(n as nat));
        }
        s
    }
}

/// The ticker stream over all symbols.
pub fn all_ticker_stream() -> (r: &'static str)
    ensures
        r@ == "!ticker@arr"@,
{
    "!ticker@arr"
}

/// The ticker stream of one symbol.
pub fn ticker_stream(symbol: &str) -> (r: String)
    ensures
        r@ == symbol@ + "@ticker"@,
{
    let mut r = String::from_str(symbol);
    r.append("@ticker");
    r
}

/// The aggregated-trade stream of one symbol.
pub fn agg_trade_stream(symbol: &str) -> (r: String)
    ensures
        r@ == symbol@ + "@aggTrade"@,
{
    let mut r = String::from_str(symbol);
    r.append("@aggTrade");
    r
}

/// The raw trade stream of one symbol.
pub fn trade_stream(symbol: &str) -> (r: String)
    ensures
        r@ == symbol@ + "@trade"@,
{
    let mut r = String::from_str(symbol);
    r.append("@trade");
    r
}

/// The candlestick stream of one symbol at one interval.
pub fn kline_stream(symbol: &str, interval: &str) -> (r: String)
    ensures
        r@ == symbol@ + "@kline_"@ + interval@,
{
    let mut r = String::from_str(symbol);
    r.append("@kline_");
    r.append(interval);
    r
}

/// The best-bid-and-ask stream of one symbol.
pub fn book_ticker_stream(symbol: &str) -> (r: String)
    ensures
        r@ == symbol@ + "@bookTicker"@,
{
    let mut r = String::from_str(symbol);
    r.append("@bookTicker");
    r
}

/// The best-bid-and-ask stream over all symbols.
pub fn all_book_ticker_stream() -> (r: &'static str)
    ensures
        r@ == "!bookTicker"@,
{
    "!bookTicker"
}

/// The compact ticker stream over all symbols.
pub fn all_mini_ticker_stream() -> (r: &'static str)
    ensures
        r@ == "!miniTicker@arr"@,
{
    "!miniTicker@arr"
}

/// The compact ticker stream of one symbol.
pub fn mini_ticker_stream(symbol: &str) -> (r: String)
    ensures
        r@ == symbol@ + "@miniTicker"@,
{
    let mut r = String::from_str(symbol);
    r.append("@miniTicker");
    r
}

/// The partial order-book stream of one symbol.
///
/// `levels` is one of 5, 10 or 20, and `update_speed` is 1000 or 100; the
/// builder renders whatever it is given, the exchange enforces the choices.
pub fn partial_book_depth_stream(symbol: &str, levels: u16, update_speed: u16) -> (r: String)
    ensures
        r@ == symbol@ + "@depth"@ + dec_string(levels as nat) + "@"@ + dec_string(
            update_speed as nat,
        ) + "ms"@,
{
    let mut r = String::from_str(symbol);
    r.append("@depth");
    r.append(u16_string(levels).as_str());
    r.append("@");
    r.append(u16_string(update_speed).as_str());
    r.append("ms");
    r
}

/// The order-book difference stream of one symbol.
///
/// `update_speed` is 1000 or 100; the builder renders whatever it is given.
pub fn diff_book_depth_stream(symbol: &str, update_speed: u16) -> (r: String)
    ensures
        r@ == symbol@ + "@depth@"@ + dec_string(update_speed as nat) + "ms"@,
{
    let mut r = String::from_str(symbol);
    r.append("@depth@");
    r.append(u16_string(update_speed).as_str());
    r.append("ms");
    r
}

/// Several stream names combined into one subscription path, separated by
/// slashes.
pub open spec fn slash_joined(parts: Seq<Seq<char>>) -> Seq<char>
    decreases parts.len(),
{
    if parts.len() == 0 {
        Seq::empty()
    } else if parts.len() == 1 {
        parts[0]
    } else {
        slash_joined(parts.drop_last()) + "/"@ + parts.last()
    }
}

/// Join stream names with slashes, as the combined-stream endpoint expects.
pub fn combined_stream(streams: Vec<String>) -> (r: String)
    ensures
        r@ == slash_joined(streams@.map_values(|s: String| s@)),
{
    let ghost parts = streams@.map_values(|s: String| s@);
    let mut r = String::new();
    let mut i: usize = 0;
    while i < streams.len()
        invariant
            0 <= i <= streams@.len(),
            parts == streams@.map_values(|s: String| s@),
            r@ == slash_joined(parts.take(i as int)),
        decreases streams@.len() - i,
    {
        if i > 0 {
            r.append("/");
        }
        r.append(streams[i].as_str());
        proof {
            assert(parts.take(i + 1 as int).drop_last() =~= parts.take(i as int));
            assert(parts.take(i + 1 as int).last() == streams@[i as int]@);
        }
        i = i + 1;
    }
    proof {
        assert(parts.take(streams@.len() as int) =~= parts);
    }
    r
}

} // verus!
