//! Conversions between native calling conventions and idiomatic results.
//!
//! Every wrapped native function follows one of a handful of shapes: direct
//! forwarding, nullable pointer to option, sentinel return to result, output
//! parameter to return value, or a string-buffer round trip. The pure
//! conversion logic of those shapes lives here, each as a total function of
//! the raw values the native call produced.

use vstd::prelude::*;

use crate::handles::ReaProject;

verus! {

/// A recoverable failure of a native call that has no dedicated error
/// channel and signals failure through a reserved sentinel value.
#[derive(Debug)]
pub struct ReaperFunctionError {
    /// A description of what failed.
    pub message: String,
}

/// Interprets a sentinel-return convention: negative one signals failure,
/// any non-negative value is a valid zero-based index. The failure is an
/// expected outcome and becomes a descriptive error, never a panic.
pub fn interpret_sentinel_index(raw: i32) -> (r: Result<u32, ReaperFunctionError>)
    requires
        raw >= -1,
    ensures
        raw == -1 ==> (r matches Err(e) && e.message@ == "native call signaled failure"@),
        raw >= 0 ==> (r matches Ok(i) && i == raw),
{
    if raw == -1 {
        Err(ReaperFunctionError { message: "native call signaled failure".to_owned() })
    } else {
        Ok(raw as u32)
    }
}

/// Interprets the register-style convention where exactly one means success.
pub fn ok_if_one(result: i32) -> (r: Result<(), ()>)
    ensures
        r is Ok <==> result == 1,
{
    if result == 1 {
        Ok(())
    } else {
        Err(())
    }
}

/// A typed handle that carries a raw native address.
pub trait RawHandle: Sized {
    /// The raw address.
    spec fn spec_raw(self) -> u64;

    /// Hands out the raw address.
    fn raw_value(self) -> (r: u64)
        ensures
            r == self.spec_raw(),
    ;
}

impl RawHandle for ReaProject {
    open spec fn spec_raw(self) -> u64 {
        self.raw
    }

    fn raw_value(self) -> (r: u64)
        ensures
            r == self.spec_raw(),
    {
        self.raw
    }
}

impl RawHandle for crate::handles::MediaTrack {
    open spec fn spec_raw(self) -> u64 {
        self.raw
    }

    fn raw_value(self) -> (r: u64)
        ensures
            r == self.spec_raw(),
    {
        self.raw
    }
}

/// The raw address an optional handle passes to a native call: null stands
/// for "no object" (for a project: the current project).
pub open spec fn spec_option_raw<T: RawHandle>(option: Option<T>) -> u64 {
    match option {
        None => 0,
        Some(v) => v.spec_raw(),
    }
}

/// Converts an optional handle to the raw address convention of native
/// calls: absent becomes the null address.
pub fn option_into<T: RawHandle>(option: Option<T>) -> (r: u64)
    ensures
        r == spec_option_raw(option),
{
    match option {
        None => 0u64,
        Some(v) => v.raw_value(),
    }
}

/// Position of the first null byte at or after `i`, or the length if none.
pub open spec fn nul_pos_from(s: Seq<u8>, i: int) -> int
    decreases s.len() - i when 0 <= i <= s.len()
{
    if i >= s.len() {
        s.len() as int
    } else if s[i] == 0 {
        i
    } else {
        nul_pos_from(s, i + 1)
    }
}

/// The bytes of a null-terminated string inside a buffer: everything before
/// the first null byte, or the whole buffer if it holds no null byte.
pub open spec fn c_str_bytes(s: Seq<u8>) -> Seq<u8> {
    s.subrange(0, nul_pos_from(s, 0))
}

/// Extracts the null-terminated string from a buffer a native call filled,
/// exactly as the native convention specifies: the bytes before the first
/// null byte.
pub fn c_string_prefix(buf: &Vec<u8>) -> (r: Vec<u8>)
    ensures
        r@ == c_str_bytes(buf@),
{
    let ghost s = buf@;
    let mut i: usize = 0;
    while i < buf.len() && buf[i] != 0
        invariant
            0 <= i <= s.len(),
            s == buf@,
            nul_pos_from(s, 0) == nul_pos_from(s, i as int),
            forall|j: int| 0 <= j < i ==> s[j] != 0,
        decreases s.len() - i,
    {
        i += 1;
    }
    proof {
        assert(nul_pos_from(s, i as int) == i as int);
    }
    let end = i;
    let mut r: Vec<u8> = Vec::new();
    let mut j: usize = 0;
    while j < end
        invariant
            0 <= j <= end <= s.len(),
            s == buf@,
            r@ == s.subrange(0, j as int),
        decreases end - j,
    {
        r.push(buf[j]);
        j += 1;
    }
    r
}

/// Interprets a filled string buffer as the dispatch layer hands strings
/// out: an empty native string is reported as no string at all.
pub fn interpret_string_buffer(buf: &Vec<u8>) -> (r: Option<Vec<u8>>)
    ensures
        c_str_bytes(buf@).len() == 0 ==> r is None,
        c_str_bytes(buf@).len() > 0 ==> (r matches Some(v) && v@ == c_str_bytes(buf@)),
{
    let bytes = c_string_prefix(buf);
    if bytes.len() == 0 {
        None
    } else {
        Some(bytes)
    }
}

/// The combo-box message that inserts a string at a given position; its
/// string payload needs encoding conversion on hosts with a different native
/// string encoding.
pub const CB_INSERTSTRING: u32 = 0x14A;

/// The combo-box message that appends a string; its string payload needs
/// encoding conversion on hosts with a different native string encoding.
pub const CB_ADDSTRING: u32 = 0x143;

/// Whether the long parameter of the given window message carries a string
/// payload, which then needs encoding conversion before it reaches the
/// native window procedure.
pub fn lparam_is_string(msg: u32) -> (r: bool)
    ensures
        r == (msg == CB_INSERTSTRING || msg == CB_ADDSTRING),
{
    msg == CB_INSERTSTRING || msg == CB_ADDSTRING
}

/// A velocity-like action value as the keyboard-action dispatcher accepts
/// it: absolute in low or high resolution, or one of the three relative
/// encodings.
#[derive(Clone, Copy, PartialEq, Eq, Structural, Debug)]
pub enum KbdActionValue {
    /// Absolute, seven bits of resolution.
    AbsoluteLowRes(u8),
    /// Absolute, fourteen bits of resolution.
    AbsoluteHighRes(u16),
    /// Relative, first encoding.
    Relative1(u8),
    /// Relative, second encoding.
    Relative2(u8),
    /// Relative, third encoding.
    Relative3(u8),
}

impl KbdActionValue {
    /// Payload bounds: seven bits for the low-resolution and relative forms,
    /// fourteen bits for the high-resolution form.
    pub open spec fn wf(self) -> bool {
        match self {
            KbdActionValue::AbsoluteLowRes(v) => v < 128,
            KbdActionValue::AbsoluteHighRes(v) => v < 16384,
            KbdActionValue::Relative1(v) => v < 128,
            KbdActionValue::Relative2(v) => v < 128,
            KbdActionValue::Relative3(v) => v < 128,
        }
    }

    /// The native triple (value, high-resolution extension, relative mode)
    /// for this action value: high resolution splits the fourteen bits over
    /// the two value slots, every other form puts negative one in the
    /// extension slot; the relative encodings number their modes from one.
    pub open spec fn spec_to_raw(self) -> (int, int, int) {
        match self {
            KbdActionValue::AbsoluteLowRes(v) => (v as int, -1, 0),
            KbdActionValue::AbsoluteHighRes(v) => (
                ((v >> 7) & 0x7f) as int,
                (v & 0x7f) as int,
                0,
            ),
            KbdActionValue::Relative1(v) => (v as int, -1, 1),
            KbdActionValue::Relative2(v) => (v as int, -1, 2),
            KbdActionValue::Relative3(v) => (v as int, -1, 3),
        }
    }

    /// Converts to the native triple.
    pub fn to_raw(self) -> (r: (i32, i32, i32))
        ensures
            r.0 == self.spec_to_raw().0,
            r.1 == self.spec_to_raw().1,
            r.2 == self.spec_to_raw().2,
    {
        match self {
            KbdActionValue::AbsoluteLowRes(v) => (v as i32, -1, 0),
            KbdActionValue::AbsoluteHighRes(v) => (
                ((v >> 7) & 0x7f) as i32,
                (v & 0x7f) as i32,
                0,
            ),
            KbdActionValue::Relative1(v) => (v as i32, -1, 1),
            KbdActionValue::Relative2(v) => (v as i32, -1, 2),
            KbdActionValue::Relative3(v) => (v as i32, -1, 3),
        }
    }
}

} // verus!
