use vstd::prelude::*;

verus! {

/// UTF-16 code units of one character.
pub open spec fn char_units(c: char) -> Seq<u16> {
    if (c as u32) < 0x10000 {
        seq![c as u16]
    } else {
        seq![
            (0xD800 + ((c as u32) - 0x10000) / 0x400) as u16,
            (0xDC00 + ((c as u32) - 0x10000) % 0x400) as u16,
        ]
    }
}

/// UTF-16 code units of a string, in order.
pub open spec fn utf16_units(s: Seq<char>) -> Seq<u16>
    decreases s.len(),
{
    if s.len() == 0 {
        seq![]
    } else {
        utf16_units(s.drop_last()) + char_units(s.last())
    }
}

/// Relies on widestring's `U16CString::from_str` and `into_vec_with_nul`: the
/// UTF-16 units of `s` and a closing nul, refused when `s` holds a nul.
#[verifier::external_body]
pub(crate) fn nul_terminated_utf16(s: &str) -> (r: Option<Vec<u16>>)
    ensures
        r is Some <==> !s@.contains('\0'),
        r is Some ==> r->Some_0@ == utf16_units(s@).push(0u16),
{
    match widestring::U16CString::from_str(s) {
        Ok(w) => Some(w.into_vec_with_nul()),
        Err(_) => None,
    }
}

} // verus!
