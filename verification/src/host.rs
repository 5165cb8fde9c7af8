//! The calls that the strategy makes into the chain's own libraries. Each
//! contract below is taken on trust from the called crate's source.

use vstd::prelude::*;
use crate::types::{
    BlockInfo, CoinView, Decimal, Duration, Expiration, MessageInfo, Timestamp, NANOS_PER_SECOND,
};

verus! {

/// `cosmwasm_std::StdError`, carried as it comes.
#[verifier::external_type_specification]
#[verifier::external_body]
pub struct ExStdError(cosmwasm_std::StdError);

/// `cw_utils::PaymentError`, carried as it comes.
#[verifier::external_type_specification]
#[verifier::external_body]
pub struct ExPaymentError(cw_utils::PaymentError);

/// `cw_denom::DenomError`, carried as it comes.
#[verifier::external_type_specification]
#[verifier::external_body]
pub struct ExDenomError(cw_denom::DenomError);

/// Whether `block` leaves room to count `d` onwards from it.
pub open spec fn after_fits(d: Duration, block: BlockInfo) -> bool {
    match d {
        Duration::Height(h) => block.height + h <= u64::MAX,
        Duration::Time(t) => block.time.nanos + t * NANOS_PER_SECOND <= u64::MAX,
    }
}

/// The point that lies `d` after `block`.
pub open spec fn spec_after(d: Duration, block: BlockInfo) -> Expiration {
    match d {
        Duration::Height(h) => Expiration::AtHeight((block.height + h) as u64),
        Duration::Time(t) => Expiration::AtTime(
            Timestamp { nanos: (block.time.nanos + t * NANOS_PER_SECOND) as u64 },
        ),
    }
}

/// Whether `e` has been reached at `block`.
pub open spec fn spec_is_expired(e: Expiration, block: BlockInfo) -> bool {
    match e {
        Expiration::AtHeight(h) => block.height >= h,
        Expiration::AtTime(t) => block.time.nanos >= t.nanos,
        Expiration::Never { } => false,
    }
}

/// `cw_utils::Duration::after`: a height span is added to the block's
/// height, a time span, in seconds, to the block's time. Where a sum leaves
/// `u64` the call panics or wraps round, as it was built; those inputs are
/// left out.
#[verifier::external_body]
pub(crate) fn duration_after(d: Duration, block: &BlockInfo) -> (e: Expiration)
    requires
        after_fits(d, *block),
    ensures
        e == spec_after(d, *block),
{
    let outside_block = cosmwasm_std::BlockInfo {
        height: block.height,
        time: cosmwasm_std::Timestamp::from_nanos(block.time.nanos),
        chain_id: block.chain_id.clone(),
    };
    let outside = match d {
        Duration::Height(h) => cw_utils::Duration::Height(h),
        Duration::Time(t) => cw_utils::Duration::Time(t),
    };
    match outside.after(&outside_block) {
        cw_utils::Expiration::AtHeight(h) => Expiration::AtHeight(h),
        cw_utils::Expiration::AtTime(t) => Expiration::AtTime(Timestamp { nanos: t.nanos() }),
        cw_utils::Expiration::Never {} => Expiration::Never {},
    }
}

/// `cw_utils::Expiration::is_expired`: a height is reached once the block's
/// height is at least as large, a time once the block's time is, and
/// `Never` is never reached.
#[verifier::external_body]
pub(crate) fn expiration_is_expired(e: Expiration, block: &BlockInfo) -> (b: bool)
    ensures
        b == spec_is_expired(e, *block),
{
    let outside_block = cosmwasm_std::BlockInfo {
        height: block.height,
        time: cosmwasm_std::Timestamp::from_nanos(block.time.nanos),
        chain_id: block.chain_id.clone(),
    };
    let outside = match e {
        Expiration::AtHeight(h) => cw_utils::Expiration::AtHeight(h),
        Expiration::AtTime(t) => cw_utils::Expiration::AtTime(
            cosmwasm_std::Timestamp::from_nanos(t.nanos),
        ),
        Expiration::Never {} => cw_utils::Expiration::Never {},
    };
    outside.is_expired(&outside_block)
}

/// Whether `e` can be moved on by `d` at all: a time by a span in seconds,
/// a height by a span in blocks, and `Never` by either, which leaves it.
pub open spec fn same_unit(e: Expiration, d: Duration) -> bool {
    match (e, d) {
        (Expiration::AtTime(_), Duration::Time(_)) => true,
        (Expiration::AtHeight(_), Duration::Height(_)) => true,
        (Expiration::Never { }, _) => true,
        _ => false,
    }
}

/// Whether there is room to move `e` on by `d`.
pub open spec fn plus_fits(e: Expiration, d: Duration) -> bool {
    match (e, d) {
        (Expiration::AtTime(t), Duration::Time(s)) => t.nanos + s * NANOS_PER_SECOND <= u64::MAX,
        (Expiration::AtHeight(h), Duration::Height(k)) => h + k <= u64::MAX,
        _ => true,
    }
}

/// The point `e` moved on by `d`. A point that `d` cannot move stays where
/// it is.
pub open spec fn spec_plus(e: Expiration, d: Duration) -> Expiration {
    match (e, d) {
        (Expiration::AtTime(t), Duration::Time(s)) => Expiration::AtTime(
            Timestamp { nanos: (t.nanos + s * NANOS_PER_SECOND) as u64 },
        ),
        (Expiration::AtHeight(h), Duration::Height(k)) => Expiration::AtHeight((h + k) as u64),
        _ => e,
    }
}

/// The addition of `cw_utils`, `Expiration + Duration`: a time moves on by
/// a span in seconds, a height by a span in blocks, and `Never` stays; a
/// time and a span in blocks, or a height and a span in seconds, are an
/// error. Where a sum leaves `u64` the call panics or wraps round, as it
/// was built; those inputs are left out.
#[verifier::external_body]
pub(crate) fn expiration_plus(e: Expiration, d: Duration) -> (r: Result<
    Expiration,
    cosmwasm_std::StdError,
>)
    requires
        plus_fits(e, d),
    ensures
        r is Ok <==> same_unit(e, d),
        r is Ok ==> r->Ok_0 == spec_plus(e, d),
{
    let at = cosmwasm_std::Timestamp::from_nanos;
    let outside = match e {
        Expiration::AtHeight(h) => cw_utils::Expiration::AtHeight(h),
        Expiration::AtTime(t) => cw_utils::Expiration::AtTime(at(t.nanos)),
        Expiration::Never {} => cw_utils::Expiration::Never {},
    };
    let span = match d {
        Duration::Height(h) => cw_utils::Duration::Height(h),
        Duration::Time(t) => cw_utils::Duration::Time(t),
    };
    Ok(match (outside + span)? {
        cw_utils::Expiration::AtHeight(h) => Expiration::AtHeight(h),
        cw_utils::Expiration::AtTime(t) => Expiration::AtTime(Timestamp { nanos: t.nanos() }),
        cw_utils::Expiration::Never {} => Expiration::Never {},
    })
}

/// Whether `funds` is one coin of `denom` with an amount above zero.
pub open spec fn pays_in(funds: Seq<CoinView>, denom: Seq<char>) -> bool {
    funds.len() == 1 && funds[0].amount != 0 && funds[0].denom == denom
}

/// `cw_utils::must_pay`: the amount sent, where exactly one coin was sent,
/// its amount is not zero and its denom is `denom`; an error otherwise.
#[verifier::external_body]
pub(crate) fn must_pay(info: &MessageInfo, denom: &str) -> (r: Result<u128, cw_utils::PaymentError>)
    ensures
        r is Ok <==> pays_in(info.funds.deep_view(), denom@),
        r is Ok ==> r->Ok_0 == info.funds.deep_view()[0].amount,
{
    let outside = cosmwasm_std::MessageInfo {
        sender: cosmwasm_std::Addr::unchecked(info.sender.clone()),
        funds: info.funds.iter().map(|c| cosmwasm_std::coin(c.amount, c.denom.clone())).collect(),
    };
    match cw_utils::must_pay(&outside, denom) {
        Ok(amount) => Ok(amount.u128()),
        Err(e) => Err(e),
    }
}

/// Whether `c` is an ASCII letter.
pub open spec fn is_ascii_letter(c: char) -> bool {
    ('a' <= c && c <= 'z') || ('A' <= c && c <= 'Z')
}

/// Whether `c` may stand after the first character of a native denom.
pub open spec fn is_denom_char(c: char) -> bool {
    is_ascii_letter(c) || ('0' <= c && c <= '9') || c == '/' || c == ':' || c == '.' || c == '_'
        || c == '-'
}

/// Whether `denom` is a well-formed native denom: 3 to 128 characters, the
/// first an ASCII letter, the others ASCII letters, digits or one of
/// `/ : . _ -`.
pub open spec fn is_native_denom(denom: Seq<char>) -> bool {
    &&& 3 <= denom.len() <= 128
    &&& is_ascii_letter(denom[0])
    &&& forall|i: int| 1 <= i < denom.len() ==> is_denom_char(#[trigger] denom[i])
}

/// `cw_denom::validate_native_denom`: accepts exactly the well-formed
/// native denoms. (It measures the length in bytes, but lets only ASCII
/// pass, of which each character is one byte.)
#[verifier::external_body]
pub(crate) fn validate_native_denom(denom: &str) -> (r: Result<(), cw_denom::DenomError>)
    ensures
        r is Ok <==> is_native_denom(denom@),
{
    match cw_denom::validate_native_denom(denom.to_string()) {
        Ok(_) => Ok(()),
        Err(e) => Err(e),
    }
}

/// How many 10^-18 units make one.
pub const DECIMAL_FRACTIONAL: u128 = 1_000_000_000_000_000_000;

/// The decimal `numerator / denominator`, rounded down to 18 fractional
/// digits; `None` where the denominator is zero or the result does not fit.
pub open spec fn spec_decimal_from_ratio(numerator: u128, denominator: u128) -> Option<Decimal> {
    if denominator == 0 || numerator * DECIMAL_FRACTIONAL / (denominator as int) > u128::MAX {
        None
    } else {
        Some(Decimal { atomics: (numerator * DECIMAL_FRACTIONAL / (denominator as int)) as u128 })
    }
}

/// `cosmwasm_std::Decimal::checked_from_ratio`: the numerator is multiplied
/// by 10^18 without loss and divided by the denominator, rounding down.
#[verifier::external_body]
pub(crate) fn decimal_from_ratio(numerator: u128, denominator: u128) -> (r: Option<Decimal>)
    ensures
        r == spec_decimal_from_ratio(numerator, denominator),
{
    match cosmwasm_std::Decimal::checked_from_ratio(numerator, denominator) {
        Ok(d) => Some(Decimal { atomics: d.atomics().u128() }),
        Err(_) => None,
    }
}

/// `value * numerator / denominator`, rounded down; `None` where the
/// denominator is zero or the result does not fit.
pub open spec fn spec_multiply_ratio(value: u128, numerator: u128, denominator: u128) -> Option<
    u128,
> {
    if denominator == 0 || value * numerator / (denominator as int) > u128::MAX {
        None
    } else {
        Some((value * numerator / (denominator as int)) as u128)
    }
}

/// `cosmwasm_std::Uint128::checked_multiply_ratio`: the value is multiplied
/// by the numerator without loss and divided by the denominator, rounding
/// down.
#[verifier::external_body]
pub(crate) fn multiply_ratio(value: u128, numerator: u128, denominator: u128) -> (r: Option<u128>)
    ensures
        r == spec_multiply_ratio(value, numerator, denominator),
{
    match cosmwasm_std::Uint128::new(value).checked_multiply_ratio(numerator, denominator) {
        Ok(ratio) => Some(ratio.u128()),
        Err(_) => None,
    }
}

/// Whether `c` is a number in the sense of Unicode: a character of one of
/// the general categories `Nd`, `Nl` and `No`.
pub uninterp spec fn char_is_numeric(c: char) -> bool;

/// `char::is_numeric`, whose result [`char_is_numeric`] names.
#[verifier::external_body]
pub(crate) fn is_numeric(c: char) -> (b: bool)
    ensures
        b == char_is_numeric(c),
{
    c.is_numeric()
}

/// `s` without the white space, in the sense of Unicode, at its start and
/// at its end.
pub uninterp spec fn trimmed(s: Seq<char>) -> Seq<char>;

/// `str::trim`, whose result [`trimmed`] names.
#[verifier::external_body]
pub(crate) fn trim(s: &str) -> (t: &str)
    ensures
        t@ == trimmed(s@),
{
    s.trim()
}

/// Whether `c` is a decimal digit of ASCII.
pub open spec fn is_digit(c: char) -> bool {
    '0' <= c && c <= '9'
}

/// The number that the decimal digits `digits` write.
pub open spec fn digits_value(digits: Seq<char>) -> nat
    decreases digits.len(),
{
    if digits.len() == 0 {
        0
    } else {
        digits_value(digits.drop_last()) * 10 + ((digits.last() as u32) - ('0' as u32)) as nat
    }
}

/// The number that `s` writes: decimal digits, at least one, after at most
/// one `+`; `None` where `s` is not of that form or the number leaves
/// `u128`.
pub open spec fn spec_parse_u128(s: Seq<char>) -> Option<u128> {
    let digits = if s.len() > 0 && s[0] == '+' {
        s.drop_first()
    } else {
        s
    };
    if digits.len() > 0 && (forall|i: int| 0 <= i < digits.len() ==> is_digit(#[trigger] digits[i]))
        && digits_value(digits) <= u128::MAX {
        Some(digits_value(digits) as u128)
    } else {
        None
    }
}

/// `str::parse` for `u128`: the number that decimal digits write, with or
/// without a `+` before them, where `u128` holds it; an error, here `None`,
/// for the empty string, for any other character, and for a larger
/// number.
#[verifier::external_body]
pub(crate) fn parse_u128(s: &str) -> (r: Option<u128>)
    ensures
        r == spec_parse_u128(s@),
{
    s.parse::<u128>().ok()
}

/// `cosmwasm_std::StdError::generic_err`: an error that carries `msg`. Of
/// the error nothing is claimed.
#[verifier::external_body]
pub(crate) fn generic_err(msg: &str) -> cosmwasm_std::StdError {
    cosmwasm_std::StdError::generic_err(msg)
}

} // verus!
