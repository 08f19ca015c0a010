use vstd::prelude::*;
use crate::wide::utf16_of;

verus! {

/// Why a child could not be launched.
#[derive(Debug)]
pub enum LaunchError {
    /// The path holds a nul and cannot be handed to the system.
    InvalidPath,
    /// The system refused to create the process.
    Os { code: u32, message: String },
}

/// The language identifier made of primary language `p` and sublanguage `s`.
pub fn makelangid(p: u32, s: u32) -> (r: u32)
    ensures
        r == ((s << 10u32) | p),
{
    (s << 10) | p
}

/// Whether `u` is a UTF-16 unit that stands alone for a white-space
/// character: every white-space character lies in the basic multilingual
/// plane, and no half of a surrogate pair is one.
pub open spec fn is_space_unit_spec(u: u16) -> bool {
    ||| 0x09 <= u <= 0x0D
    ||| u == 0x20
    ||| u == 0x85
    ||| u == 0xA0
    ||| u == 0x1680
    ||| 0x2000 <= u <= 0x200A
    ||| u == 0x2028
    ||| u == 0x2029
    ||| u == 0x202F
    ||| u == 0x205F
    ||| u == 0x3000
}

/// The units with leading white space removed.
pub open spec fn trim_start_spec(u: Seq<u16>) -> Seq<u16>
    decreases u.len(),
{
    if u.len() > 0 && is_space_unit_spec(u[0]) {
        trim_start_spec(u.drop_first())
    } else {
        u
    }
}

/// The units with trailing white space removed.
pub open spec fn trim_end_spec(u: Seq<u16>) -> Seq<u16>
    decreases u.len(),
{
    if u.len() > 0 && is_space_unit_spec(u.last()) {
        trim_end_spec(u.drop_last())
    } else {
        u
    }
}

/// The units with white space removed at both ends.
pub open spec fn trimmed(u: Seq<u16>) -> Seq<u16> {
    trim_end_spec(trim_start_spec(u))
}

/// The part of a message buffer that the system wrote: its first `written`
/// units, or all of it where it is shorter.
pub open spec fn written_part(buffer: Seq<u16>, written: int) -> Seq<u16> {
    if written < buffer.len() {
        buffer.take(written)
    } else {
        buffer
    }
}

/// The text of the system's message: the written part of the buffer, with
/// white space removed at both ends.
pub open spec fn os_text_units(buffer: Seq<u16>, written: int) -> Seq<u16> {
    trimmed(written_part(buffer, written))
}

/// Whether `u` is a UTF-16 unit that stands alone for a white-space character.
pub fn is_space_unit(u: u16) -> (r: bool)
    ensures
        r == is_space_unit_spec(u),
{
    (0x09 <= u && u <= 0x0D) || u == 0x20 || u == 0x85 || u == 0xA0 || u == 0x1680 || (0x2000
        <= u && u <= 0x200A) || u == 0x2028 || u == 0x2029 || u == 0x202F || u == 0x205F || u
        == 0x3000
}

/// `units` with white space removed at both ends.
pub fn trim_units(units: &Vec<u16>) -> (r: Vec<u16>)
    ensures
        r@ == trimmed(units@),
{
    let n = units.len();
    let ghost u = units@;
    let mut lo: usize = 0;
    assert(u.subrange(0, n as int) =~= u);
    while lo < n && is_space_unit(units[lo])
        invariant
            n == u.len(),
            u == units@,
            lo <= n,
            trim_start_spec(u) == trim_start_spec(u.subrange(lo as int, n as int)),
        decreases n - lo,
    {
        assert(u.subrange(lo as int, n as int).drop_first() =~= u.subrange(lo + 1, n as int));
        lo = lo + 1;
    }
    assert(trim_start_spec(u) == u.subrange(lo as int, n as int));
    let mut hi: usize = n;
    while hi > lo && is_space_unit(units[hi - 1])
        invariant
            n == u.len(),
            u == units@,
            lo <= hi <= n,
            trimmed(u) == trim_end_spec(u.subrange(lo as int, hi as int)),
        decreases hi,
    {
        assert(u.subrange(lo as int, hi as int).drop_last() =~= u.subrange(lo as int, hi - 1));
        hi = hi - 1;
    }
    assert(trimmed(u) == u.subrange(lo as int, hi as int));
    let mut r: Vec<u16> = Vec::new();
    let mut i: usize = lo;
    while i < hi
        invariant
            u == units@,
            lo <= i <= hi <= n,
            n == u.len(),
            r@ == u.subrange(lo as int, i as int),
        decreases hi - i,
    {
        r.push(units[i]);
        assert(r@ =~= u.subrange(lo as int, i + 1));
        i = i + 1;
    }
    r
}

/// Relies on String::from_utf16: the string whose UTF-16 encoding is `v`,
/// and an error where `v` is not well-formed UTF-16.
#[verifier::external_body]
fn decode_utf16(v: &Vec<u16>) -> (r: Option<String>)
    ensures
        r matches Some(s) ==> utf16_of(s@) == v@,
        r is None <==> !(exists|s: Seq<char>| utf16_of(s) == v@),
{
    String::from_utf16(v).ok()
}

/// The text of a system message that was written into `buffer`, `written`
/// units long: white space removed at both ends and decoded. `None` where
/// the units are not well-formed UTF-16.
pub fn os_error_text(buffer: &Vec<u16>, written: usize) -> (r: Option<String>)
    ensures
        r matches Some(s) ==> utf16_of(s@) == os_text_units(buffer@, written as int),
        r is None <==> !(exists|s: Seq<char>| utf16_of(s) == os_text_units(buffer@, written as int)),
{
    let n = if written < buffer.len() {
        written
    } else {
        buffer.len()
    };
    let mut part: Vec<u16> = Vec::new();
    let mut i: usize = 0;
    while i < n
        invariant
            n <= buffer.len(),
            n as int == (if written < buffer.len() { written as int } else { buffer.len() as int }),
            i <= n,
            part@ == buffer@.take(i as int),
        decreases n - i,
    {
        part.push(buffer[i]);
        assert(part@ =~= buffer@.take(i + 1));
        i = i + 1;
    }
    assert(part@ =~= written_part(buffer@, written as int));
    let text = trim_units(&part);
    decode_utf16(&text)
}

/// What a launch error says where the system gives no readable description.
pub open spec fn no_description() -> Seq<char> {
    "no description available"@
}

/// The error for a launch that the system refused with error `code`, whose
/// description was written into `buffer`, `written` units long. The message
/// is the description, white space removed at both ends; where that is empty
/// or not well-formed UTF-16, it is a fixed text. Either way it is not empty.
pub fn os_launch_error(code: u32, buffer: &Vec<u16>, written: usize) -> (r: LaunchError)
    ensures
        r matches LaunchError::Os { code: c, message } && c == code && message@.len() > 0 && (
        utf16_of(message@) == os_text_units(buffer@, written as int) || (message@
            == no_description() && !(exists|s: Seq<char>|
            s.len() > 0 && utf16_of(s) == os_text_units(buffer@, written as int)))),
{
    match os_error_text(buffer, written) {
        Some(text) => {
            if !text.as_str().is_empty() {
                return LaunchError::Os { code, message: text };
            }
        },
        None => {},
    }
    proof {
        reveal_strlit("no description available");
    }
    LaunchError::Os { code, message: "no description available".to_owned() }
}

} // verus!
