use vstd::prelude::*;
use widestring::U16CString;

verus! {

/// The UTF-16 code units of one character.
pub open spec fn utf16_units(c: char) -> Seq<u16> {
    let v = c as int;
    if v < 0x10000 {
        seq![v as u16]
    } else {
        let w = v - 0x10000;
        seq![(0xD800 + w / 0x400) as u16, (0xDC00 + w % 0x400) as u16]
    }
}

/// The UTF-16 encoding of a character sequence.
pub open spec fn utf16(s: Seq<char>) -> Seq<u16>
    decreases s.len(),
{
    if s.len() == 0 {
        Seq::empty()
    } else {
        utf16(s.drop_last()) + utf16_units(s.last())
    }
}

/// The characters of `s` that come before its first nul, or all of them.
pub open spec fn before_nul(s: Seq<char>) -> Seq<char>
    decreases s.len(),
{
    if s.len() == 0 {
        s
    } else if s[0] == '\0' {
        Seq::empty()
    } else {
        seq![s[0]] + before_nul(s.drop_first())
    }
}

/// The nul-terminated wide form of a text, as the platform reads it: the
/// UTF-16 units of what comes before the first nul, then a nul unit.
pub open spec fn wide_nul(s: Seq<char>) -> Seq<u16> {
    utf16(before_nul(s)).push(0u16)
}

/// Relies on widestring's `U16CString::from_str_truncate`, which encodes `s`
/// as UTF-16, cuts the units after the first nul unit (only a nul character
/// encodes to one) and ends them with a nul; `into_vec_with_nul` hands out
/// those units, terminator included.
#[verifier::external_body]
pub(crate) fn to_wide_nul(s: &str) -> (r: Vec<u16>)
    ensures
        r@ == wide_nul(s@),
{
    U16CString::from_str_truncate(s).into_vec_with_nul()
}

} // verus!
