//! Resolution of ticker symbols to human-readable coin names.
use vstd::prelude::*;

verus! {

/// What `str::to_uppercase` returns for a string with these characters.
pub uninterp spec fn upper_of(s: Seq<char>) -> Seq<char>;

/// The display name of a known ticker, given in upper case.
pub open spec fn known_coin_name(upper: Seq<char>) -> Option<Seq<char>> {
    if upper == "BTC"@ {
        Some("Bitcoin"@)
    } else if upper == "ETH"@ {
        Some("Ethereum"@)
    } else if upper == "BNB"@ {
        Some("Binance Coin"@)
    } else if upper == "ADA"@ {
        Some("Cardano"@)
    } else if upper == "DOGE"@ {
        Some("Dogecoin"@)
    } else if upper == "XRP"@ {
        Some("Ripple"@)
    } else if upper == "SOL"@ {
        Some("Solana"@)
    } else if upper == "DOT"@ {
        Some("Polkadot"@)
    } else if upper == "AVAX"@ {
        Some("Avalanche"@)
    } else {
        None
    }
}

/// The search term for `symbol`, whose upper-case form is `upper`: the coin's
/// name when the ticker is known, else the symbol itself.
pub open spec fn resolved_name(upper: Seq<char>, symbol: Seq<char>) -> Seq<char> {
    match known_coin_name(upper) {
        Some(name) => name,
        None => symbol,
    }
}

/// The search term for `symbol` (case-insensitive).
pub open spec fn resolve_spec(symbol: Seq<char>) -> Seq<char> {
    resolved_name(upper_of(symbol), symbol)
}

/// A symbol whose upper-case form is a known ticker resolves to that coin's
/// name, whatever the case it was written in; any other symbol resolves to
/// itself.
pub proof fn lemma_resolution(symbol: Seq<char>)
    ensures
        upper_of(symbol) == "BTC"@ ==> resolve_spec(symbol) == "Bitcoin"@,
        upper_of(symbol) == "ETH"@ ==> resolve_spec(symbol) == "Ethereum"@,
        upper_of(symbol) == "BNB"@ ==> resolve_spec(symbol) == "Binance Coin"@,
        upper_of(symbol) == "ADA"@ ==> resolve_spec(symbol) == "Cardano"@,
        upper_of(symbol) == "DOGE"@ ==> resolve_spec(symbol) == "Dogecoin"@,
        upper_of(symbol) == "XRP"@ ==> resolve_spec(symbol) == "Ripple"@,
        upper_of(symbol) == "SOL"@ ==> resolve_spec(symbol) == "Solana"@,
        upper_of(symbol) == "DOT"@ ==> resolve_spec(symbol) == "Polkadot"@,
        upper_of(symbol) == "AVAX"@ ==> resolve_spec(symbol) == "Avalanche"@,
        known_coin_name(upper_of(symbol)).is_none() ==> resolve_spec(symbol) == symbol,
{
    reveal_strlit("BTC");
    reveal_strlit("ETH");
    reveal_strlit("BNB");
    reveal_strlit("ADA");
    reveal_strlit("DOGE");
    reveal_strlit("XRP");
    reveal_strlit("SOL");
    reveal_strlit("DOT");
    reveal_strlit("AVAX");
    assert("BTC"@ =~= seq!['B', 'T', 'C']);
    assert("ETH"@ =~= seq!['E', 'T', 'H']);
    assert("BNB"@ =~= seq!['B', 'N', 'B']);
    assert("ADA"@ =~= seq!['A', 'D', 'A']);
    assert("DOGE"@ =~= seq!['D', 'O', 'G', 'E']);
    assert("XRP"@ =~= seq!['X', 'R', 'P']);
    assert("SOL"@ =~= seq!['S', 'O', 'L']);
    assert("DOT"@ =~= seq!['D', 'O', 'T']);
    assert("AVAX"@ =~= seq!['A', 'V', 'A', 'X']);
}

/// Relies on `str::to_uppercase`: the result depends on the characters alone.
#[verifier::external_body]
fn uppercase(s: &str) -> (r: String)
    ensures
        r@ == upper_of(s@),
{
    s.to_uppercase()
}

/// Looks `upper` up among the known tickers and returns the coin's name, or
/// `symbol` unchanged when the ticker is unknown.
pub fn coin_name_for<'a>(upper: &str, symbol: &'a str) -> (r: &'a str)
    ensures
        r@ == resolved_name(upper@, symbol@),
{
    let u = String::from_str(upper);
    if u == String::from_str("BTC") {
        "Bitcoin"
    } else if u == String::from_str("ETH") {
        "Ethereum"
    } else if u == String::from_str("BNB") {
        "Binance Coin"
    } else if u == String::from_str("ADA") {
        "Cardano"
    } else if u == String::from_str("DOGE") {
        "Dogecoin"
    } else if u == String::from_str("XRP") {
        "Ripple"
    } else if u == String::from_str("SOL") {
        "Solana"
    } else if u == String::from_str("DOT") {
        "Polkadot"
    } else if u == String::from_str("AVAX") {
        "Avalanche"
    } else {
        symbol
    }
}

/// Maps a ticker such as "eth" to the coin's name ("Ethereum"), ignoring
/// case; an unknown symbol comes back unchanged.
pub fn resolve_coin_name<'a>(symbol: &'a str) -> (r: &'a str)
    ensures
        r@ == resolve_spec(symbol@),
{
    let upper = uppercase(symbol);
    coin_name_for(upper.as_str(), symbol)
}

} // verus!
