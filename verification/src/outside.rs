//! The calls that the library makes into serenity and into std's number parsing,
//! each with the contract that the called code's source or documentation shows.
use vstd::prelude::*;

verus! {

pub open spec fn is_digit(c: char) -> bool {
    '0' <= c <= '9'
}

/// The value of a string of decimal digits (0 for the empty string).
pub open spec fn digits_value(s: Seq<char>) -> nat
    decreases s.len(),
{
    if s.len() == 0 {
        0
    } else {
        digits_value(s.drop_last()) * 10 + (s.last() as nat - '0' as nat) as nat
    }
}

/// What `u64::from_str` and `u8::from_str` read: an optional `+`, then only digits,
/// at least one, of a value at most `max`.
pub open spec fn parse_unsigned(s: Seq<char>, max: nat) -> Option<nat> {
    let d = if s.len() > 0 && s[0] == '+' {
        s.drop_first()
    } else {
        s
    };
    if d.len() > 0 && (forall|i: int| 0 <= i < d.len() ==> is_digit(#[trigger] d[i]))
        && digits_value(d) <= max {
        Some(digits_value(d))
    } else {
        None
    }
}

pub open spec fn starts_with(s: Seq<char>, prefix: Seq<char>) -> bool {
    prefix.len() <= s.len() && s.subrange(0, prefix.len() as int) == prefix
}

/// The id that serenity's `UserId::from_str` reads from a user mention (`<@id>` or
/// `<@!id>`, the last character dropped whatever it is) or from a bare number.
pub open spec fn user_id_of(s: Seq<char>) -> Option<nat> {
    if s.len() >= 4 && starts_with(s, seq!['<', '@', '!']) {
        parse_unsigned(s.subrange(3, s.len() - 1), u64::MAX as nat)
    } else if s.len() >= 4 && starts_with(s, seq!['<', '@']) {
        parse_unsigned(s.subrange(2, s.len() - 1), u64::MAX as nat)
    } else {
        parse_unsigned(s, u64::MAX as nat)
    }
}

/// serenity's `UserId::from_str` panics on a mention whose last character is not ASCII
/// (it slices the string one byte before its end).
pub open spec fn user_id_parse_panics(s: Seq<char>) -> bool {
    starts_with(s, seq!['<', '@']) && s.len() >= 3 && s.last() as nat > 0x7f
}

/// The id that serenity's `ChannelId::from_str` reads from a channel mention (`<#id>`)
/// or from a bare number.
pub open spec fn channel_id_of(s: Seq<char>) -> Option<nat> {
    if s.len() >= 4 && starts_with(s, seq!['<', '#']) && s.last() == '>' {
        parse_unsigned(s.subrange(2, s.len() - 1), u64::MAX as nat)
    } else {
        parse_unsigned(s, u64::MAX as nat)
    }
}

/// serenity's `Colour::from_rgb`: the colour `(red << 16) | (green << 8) | blue`.
#[verifier::external_body]
pub(crate) fn colour_from_rgb(red: u8, green: u8, blue: u8) -> (c: u32)
    ensures
        c == red as int * 65536 + green as int * 256 + blue as int,
{
    serenity::utils::Colour::from_rgb(red, green, blue).0
}

/// serenity's `UserId::from_str`, the parse behind `Args::single::<UserId>`: a user
/// mention or a bare number. It panics on the inputs that `requires` leaves out.
#[verifier::external_body]
pub(crate) fn user_id_from_str(s: &str) -> (r: Option<u64>)
    requires
        !user_id_parse_panics(s@),
    ensures
        match user_id_of(s@) {
            Some(n) => r == Some(n as u64),
            None => r is None,
        },
{
    s.parse::<serenity::model::id::UserId>().ok().map(|u| u.0)
}

/// serenity's `ChannelId::from_str`, the parse behind `Args::single::<ChannelId>`: a
/// channel mention or a bare number.
#[verifier::external_body]
pub(crate) fn channel_id_from_str(s: &str) -> (r: Option<u64>)
    ensures
        match channel_id_of(s@) {
            Some(n) => r == Some(n as u64),
            None => r is None,
        },
{
    s.parse::<serenity::model::id::ChannelId>().ok().map(|c| c.0)
}

/// std's `u64::from_str`, as its documentation describes `from_str_radix` in base 10.
#[verifier::external_body]
pub(crate) fn u64_from_str(s: &str) -> (r: Option<u64>)
    ensures
        match parse_unsigned(s@, u64::MAX as nat) {
            Some(n) => r == Some(n as u64),
            None => r is None,
        },
{
    s.parse::<u64>().ok()
}

/// std's `u8::from_str`, as its documentation describes `from_str_radix` in base 10.
#[verifier::external_body]
pub(crate) fn u8_from_str(s: &str) -> (r: Option<u8>)
    ensures
        match parse_unsigned(s@, u8::MAX as nat) {
            Some(n) => r == Some(n as u8),
            None => r is None,
        },
{
    s.parse::<u8>().ok()
}

/// What std's `Debug` writes for a string: the string quoted, with escapes.
pub uninterp spec fn debug_text(s: Seq<char>) -> Seq<char>;

/// std's `format!("{:?}", s)` on a string. The escaping rules are std's and are not
/// restated here: the result is named, a function of the string alone.
#[verifier::external_body]
pub(crate) fn debug_string(s: &str) -> (r: String)
    ensures
        r@ == debug_text(s@),
{
    format!("{:?}", s)
}

} // verus!
