//! Calls into outside crates, each behind a trusted item with the contract that
//! the crate's source shows.

use vstd::prelude::*;
use crate::model::DecimalValue;

verus! {

/// What `url::Url::parse` gives for a string, taken by the serialization of the
/// parsed URL: `None` where parsing fails.
pub uninterp spec fn url_parse_serialization(s: Seq<char>) -> Option<Seq<char>>;

/// Calls `url::Url::parse` and hands back the serialization of the URL it
/// built (`String::from(url)`), or `None` where parsing failed. The contract
/// only ties the result to the argument through `url_parse_serialization`;
/// what the URL grammar accepts is not stated.
#[verifier::external_body]
pub(crate) fn parse_url(s: &str) -> (r: Option<String>)
    ensures
        r.deep_view() == url_parse_serialization(s@),
{
    url::Url::parse(s).ok().map(String::from)
}


/// Calls `uuid::Uuid::new_v4` and hands back the number of the random UUID
/// (`Uuid::as_u128`). The value is random: nothing is stated of it.
#[verifier::external_body]
pub(crate) fn new_uuid() -> (r: u128) {
    uuid::Uuid::new_v4().as_u128()
}


/// What `<rust_decimal::Decimal as FromStr>::from_str` gives for a string,
/// taken by the decimal's mantissa and scale: `None` where parsing fails.
pub uninterp spec fn decimal_from_str(s: Seq<char>) -> Option<DecimalValue>;

/// Calls `<rust_decimal::Decimal as FromStr>::from_str` and hands back the
/// decimal's `mantissa()` and `scale()`, or `None` where parsing failed. The
/// contract ties the result to the argument through `decimal_from_str` only;
/// the number grammar (and its rounding of long inputs) is not stated.
#[verifier::external_body]
pub(crate) fn parse_decimal(s: &str) -> (r: Option<DecimalValue>)
    ensures
        r == decimal_from_str(s@),
{
    s.parse::<rust_decimal::Decimal>().ok().map(
        |d| DecimalValue { mantissa: d.mantissa(), scale: d.scale() },
    )
}

/// Calls `chrono::Utc::now` and hands back `timestamp_millis()`, the
/// milliseconds since the Unix epoch. The value depends on the clock: only
/// that it is not negative is stated (`Utc::now` measures from the epoch, and
/// panics where the system clock is set before 1970).
#[verifier::external_body]
pub(crate) fn now_millis() -> (r: i64)
    ensures
        r >= 0,
{
    chrono::Utc::now().timestamp_millis()
}


/// What `url::Url::query` gives for the URL that a string parses to: `None`
/// where the string does not parse, `Some(None)` where the URL has no query.
pub uninterp spec fn url_query(s: Seq<char>) -> Option<Option<Seq<char>>>;

/// Parses `s` with `url::Url::parse` and calls `Url::query` on the result.
/// The contract ties the result to the argument through `url_query`; it also
/// states that the string parses exactly where `url_parse_serialization`
/// says it does, since both parse with `Url::parse`.
#[verifier::external_body]
pub(crate) fn query_of_url(s: &str) -> (r: Option<Option<String>>)
    ensures
        r.deep_view() == url_query(s@),
        (r is Some) == (url_parse_serialization(s@) is Some),
{
    url::Url::parse(s).ok().map(|u| u.query().map(String::from))
}

/// What the URL that a string parses to serializes to after
/// `url::Url::set_query(Some(q))`; `None` where the string does not parse.
pub uninterp spec fn url_with_query(s: Seq<char>, q: Seq<char>) -> Option<Seq<char>>;

/// Parses `s` with `url::Url::parse`, calls `Url::set_query(Some(q))` and
/// hands back the serialization. The contract ties the result to the
/// arguments through `url_with_query`, and states that it fails exactly where
/// parsing fails. `set_query` panics only where the serialization outgrows
/// `u32`. The bound on the inputs leaves that out: a character of the input
/// grows to at most 18 characters by IDNA mapping, each at most 4 bytes and
/// at most tripled by percent-encoding, so fewer than 2^20 characters give
/// fewer than 2^28 bytes.
#[verifier::external_body]
pub(crate) fn set_url_query(s: &str, q: &str) -> (r: Option<String>)
    requires
        s@.len() < 0x10_0000,
        q@.len() < 0x100,
    ensures
        r.deep_view() == url_with_query(s@, q@),
        (r is Some) == (url_parse_serialization(s@) is Some),
{
    match url::Url::parse(s) {
        Ok(mut u) => {
            u.set_query(Some(q));
            Some(String::from(u))
        },
        Err(_) => None,
    }
}

/// What the URL that a string parses to serializes to after
/// `url::Url::set_path(p)`; `None` where the string does not parse.
pub uninterp spec fn url_with_path(s: Seq<char>, p: Seq<char>) -> Option<Seq<char>>;

/// Parses `s` with `url::Url::parse`, calls `Url::set_path(p)` and hands back
/// the serialization. The contract ties the result to the arguments through
/// `url_with_path`, and states that it fails exactly where parsing fails.
/// `set_path` panics only where the serialization outgrows `u32`. The bound
/// on the inputs leaves that out: a character of the input grows to at most
/// 18 characters by IDNA mapping, each at most 4 bytes and at most tripled by
/// percent-encoding, so fewer than 2^20 characters give fewer than 2^28
/// bytes.
#[verifier::external_body]
pub(crate) fn set_url_path(s: &str, p: &str) -> (r: Option<String>)
    requires
        s@.len() < 0x10_0000,
        p@.len() < 0x100,
    ensures
        r.deep_view() == url_with_path(s@, p@),
        (r is Some) == (url_parse_serialization(s@) is Some),
{
    match url::Url::parse(s) {
        Ok(mut u) => {
            u.set_path(p);
            Some(String::from(u))
        },
        Err(_) => None,
    }
}

} // verus!
