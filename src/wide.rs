use vstd::prelude::*;
use crate::message::LaunchError;

verus! {

/// The UTF-16 code units of one character: one unit inside the basic
/// multilingual plane, a surrogate pair above it.
pub open spec fn utf16_units(c: char) -> Seq<u16> {
    let v = c as u32 as int;
    if v < 0x10000 {
        seq![v as u16]
    } else {
        seq![(0xD800 + (v - 0x10000) / 0x400) as u16, (0xDC00 + (v - 0x10000) % 0x400) as u16]
    }
}

/// The UTF-16 encoding of a character sequence.
pub open spec fn utf16_of(s: Seq<char>) -> Seq<u16>
    decreases s.len(),
{
    if s.len() == 0 {
        Seq::empty()
    } else {
        utf16_of(s.drop_last()) + utf16_units(s.last())
    }
}

/// Whether the units hold a nul anywhere before their last position.
pub open spec fn has_interior_nul(u: Seq<u16>) -> bool {
    exists|i: int| 0 <= i < u.len() - 1 && u[i] == 0
}

/// The nul-terminated wide string for `s`: its UTF-16 units, with a nul added
/// unless they already end in one. `None` where a nul stands before the end.
pub open spec fn wide_nul_of(s: Seq<char>) -> Option<Seq<u16>> {
    let u = utf16_of(s);
    if has_interior_nul(u) {
        None
    } else if u.len() > 0 && u.last() == 0 {
        Some(u)
    } else {
        Some(u.push(0))
    }
}

/// Relies on widestring::U16CString::from_str, which encodes the string as
/// UTF-16 and refuses it where a nul stands before the last unit, and on
/// into_vec_with_nul, which hands out the units with their terminating nul.
#[verifier::external_body]
fn encode_wide_nul(s: &str) -> (r: Option<Vec<u16>>)
    ensures
        r matches Some(v) ==> wide_nul_of(s@) == Some(v@),
        r is None ==> wide_nul_of(s@) is None,
{
    match widestring::U16CString::from_str(s) {
        Ok(w) => Some(w.into_vec_with_nul()),
        Err(_) => None,
    }
}

/// The command line that launches `path` with no arguments, as the
/// nul-terminated wide string the process-creation call takes. A path with a
/// nul inside cannot be handed over and is refused.
pub fn launch_command(path: &str) -> (r: Result<Vec<u16>, LaunchError>)
    ensures
        r matches Ok(v) ==> wide_nul_of(path@) == Some(v@),
        r matches Err(e) ==> wide_nul_of(path@) is None && e == LaunchError::InvalidPath,
{
    match encode_wide_nul(path) {
        Some(v) => Ok(v),
        None => Err(LaunchError::InvalidPath),
    }
}

/// The console title for `title`, as a nul-terminated wide string; `None`
/// where a nul inside the title keeps it from being handed over.
pub fn console_title(title: &str) -> (r: Option<Vec<u16>>)
    ensures
        r matches Some(v) ==> wide_nul_of(title@) == Some(v@),
        r is None ==> wide_nul_of(title@) is None,
{
    encode_wide_nul(title)
}

} // verus!
