//! Conversion of zero-terminated UTF-16 buffers to strings.
//!
//! The host's file dialog fills a fixed-size buffer of 16-bit code units
//! and terminates the text with a zero unit.  The units strictly before
//! the first zero are the text.

use vstd::prelude::*;

verus! {

/// Number of 16-bit units in a dialog text buffer.
pub const SZW_SIZE: usize = 512;

/// Why a buffer held no text.
#[derive(Clone, Copy, PartialEq, Eq, Structural, Debug)]
pub enum SzwError {
    /// No zero terminator anywhere in the buffer.
    NoTerminator,
    /// The units before the terminator are not valid UTF-16.
    InvalidUtf16,
}

/// The characters that a sequence of UTF-16 code units decodes to, or
/// nothing where the units are not valid UTF-16.
pub uninterp spec fn utf16_decoded(units: Seq<u16>) -> Option<Seq<char>>;

/// `ix` is the position of the first zero unit of `s`.
pub open spec fn is_first_zero(s: Seq<u16>, ix: int) -> bool {
    &&& 0 <= ix < s.len()
    &&& s[ix] == 0
    &&& forall|j: int| 0 <= j < ix ==> s[j] != 0
}

/// Relies on String::from_utf16: whether the units decode, and to which
/// characters, is a function of the units alone.
#[verifier::external_body]
fn utf16_to_string(units: &Vec<u16>) -> (r: Option<String>)
    ensures
        r is Some <==> utf16_decoded(units@) is Some,
        r is Some ==> Some(r.unwrap()@) == utf16_decoded(units@),
{
    match String::from_utf16(units) {
        Ok(s) => Some(s),
        Err(_) => None,
    }
}

/// Position of the first zero unit of the buffer, if there is one.
fn find_zero(szwbuf: &[u16; SZW_SIZE]) -> (r: Option<usize>)
    ensures
        match r {
            Some(ix) => is_first_zero(szwbuf@, ix as int),
            None => forall|i: int| 0 <= i < szwbuf@.len() ==> szwbuf@[i] != 0,
        },
{
    let mut i: usize = 0;
    while i < SZW_SIZE
        invariant
            i <= SZW_SIZE,
            forall|j: int| 0 <= j < i ==> szwbuf@[j] != 0,
        decreases SZW_SIZE - i,
    {
        if szwbuf[i] == 0 {
            return Some(i);
        }
        i = i + 1;
    }
    None
}

/// Converts a zero-terminated buffer of UTF-16 code units to the string
/// that the units strictly before the first zero decode to.  Fails
/// exactly when no zero terminator exists, or when the units before it
/// are not valid UTF-16.
pub fn szw_to_string(szwbuf: &[u16; SZW_SIZE]) -> (r: Result<String, SzwError>)
    ensures
        (forall|i: int| 0 <= i < szwbuf@.len() ==> szwbuf@[i] != 0)
            <==> r == Err::<String, SzwError>(SzwError::NoTerminator),
        forall|ix: int| #[trigger] is_first_zero(szwbuf@, ix) ==> {
            &&& (r is Ok <==> utf16_decoded(szwbuf@.take(ix)) is Some)
            &&& (r is Ok ==> Some(r->Ok_0@) == utf16_decoded(szwbuf@.take(ix)))
            &&& (utf16_decoded(szwbuf@.take(ix)) is None
                ==> r == Err::<String, SzwError>(SzwError::InvalidUtf16))
        },
{
    match find_zero(szwbuf) {
        None => Err(SzwError::NoTerminator),
        Some(ix) => {
            let mut prefix: Vec<u16> = Vec::new();
            let mut i: usize = 0;
            while i < ix
                invariant
                    i <= ix,
                    ix < SZW_SIZE,
                    szwbuf@.len() == SZW_SIZE,
                    prefix@ == szwbuf@.take(i as int),
                decreases ix - i,
            {
                prefix.push(szwbuf[i]);
                proof {
                    assert(szwbuf@.take(i as int + 1)
                        =~= szwbuf@.take(i as int).push(szwbuf@[i as int]));
                }
                i = i + 1;
            }
            proof {
                assert(szwbuf@[ix as int] == 0);
                assert forall|ix2: int| #[trigger] is_first_zero(szwbuf@, ix2)
                    implies ix2 == ix as int by {
                    if ix2 < ix as int {
                        assert(szwbuf@[ix2] != 0);
                    } else if ix2 > ix as int {
                        assert(szwbuf@[ix as int] != 0);
                    }
                }
            }
            match utf16_to_string(&prefix) {
                Some(s) => Ok(s),
                None => Err(SzwError::InvalidUtf16),
            }
        },
    }
}

} // verus!
