//! Small readings of the strategy's data.

use vstd::prelude::*;
use vstd::string::StrSliceExecFns;
use crate::host::{char_is_numeric, is_numeric, parse_u128, spec_parse_u128, trim, trimmed};
use crate::types::{Coin, CoinView, Expiration, NANOS_PER_SECOND};

verus! {

/// The time of `exp` in whole seconds since the epoch; the largest number
/// where `exp` names no time.
pub open spec fn spec_get_expiration_time(exp: Expiration) -> u64 {
    match exp {
        Expiration::AtTime(time) => time.nanos / NANOS_PER_SECOND,
        _ => u64::MAX,
    }
}

/// The time of `exp` in whole seconds since the epoch; the largest number
/// where `exp` names no time.
#[verifier::when_used_as_spec(spec_get_expiration_time)]
pub fn get_expiration_time(exp: Expiration) -> (seconds: u64)
    ensures
        seconds == spec_get_expiration_time(exp),
{
    match exp {
        Expiration::AtTime(time) => time.seconds(),
        _ => u64::MAX,
    }
}

/// How many characters at the start of `s` are numbers.
pub open spec fn numeric_prefix_len(s: Seq<char>) -> int
    decreases s.len(),
{
    if s.len() > 0 && char_is_numeric(s.first()) {
        1 + numeric_prefix_len(s.drop_first())
    } else {
        0
    }
}

/// The coin that `s` writes: an amount, then a denom. The amount is the
/// numbers that `s` starts with, the denom is the rest, each without the
/// white space around it. There is none where `s` is empty, or where the
/// amount is not a number that `u128` holds.
pub open spec fn spec_token_string_to_coin(s: Seq<char>) -> Option<CoinView> {
    let split = numeric_prefix_len(s);
    if s.len() == 0 {
        None
    } else {
        match spec_parse_u128(trimmed(s.take(split))) {
            Some(amount) => Some(CoinView { denom: trimmed(s.skip(split)), amount }),
            None => None,
        }
    }
}

/// A run of numbers that ends at the first character that is none is the
/// numeric prefix.
proof fn lemma_numeric_prefix(s: Seq<char>, k: int)
    requires
        0 <= k <= s.len(),
        forall|i: int| 0 <= i < k ==> char_is_numeric(#[trigger] s[i]),
        k < s.len() ==> !char_is_numeric(s[k]),
    ensures
        numeric_prefix_len(s) == k,
    decreases k,
{
    if k > 0 {
        let rest = s.drop_first();
        assert forall|i: int| 0 <= i < k - 1 implies char_is_numeric(#[trigger] rest[i]) by {
            assert(rest[i] == s[i + 1]);
        }
        if k < s.len() {
            assert(rest[k - 1] == s[k]);
        }
        lemma_numeric_prefix(rest, k - 1);
    }
}

/// Reads a coin as the router writes it, the amount and then the denom, as
/// in `100uosmo`: see [`spec_token_string_to_coin`].
pub fn token_string_to_coin(token_string: &str) -> (coin: Option<Coin>)
    ensures
        coin.deep_view() == spec_token_string_to_coin(token_string@),
{
    let len = token_string.unicode_len();
    if len == 0 {
        return None;
    }
    let mut split: usize = 0;
    let mut scanning = true;
    while scanning && split < len
        invariant
            split <= len,
            len == token_string@.len(),
            forall|i: int| 0 <= i < split ==> char_is_numeric(#[trigger] token_string@[i]),
            !scanning ==> split < len && !char_is_numeric(token_string@[split as int]),
        decreases len - split + if scanning { 1int } else { 0int },
    {
        if is_numeric(token_string.get_char(split)) {
            split += 1;
        } else {
            scanning = false;
        }
    }
    proof {
        lemma_numeric_prefix(token_string@, split as int);
    }
    let number_part = token_string.substring_char(0, split);
    let denom_part = token_string.substring_char(split, len);
    assert(number_part@ =~= token_string@.take(split as int));
    assert(denom_part@ =~= token_string@.skip(split as int));
    match parse_u128(trim(number_part)) {
        Some(amount) => Some(Coin::new(amount, trim(denom_part))),
        None => None,
    }
}

} // verus!
