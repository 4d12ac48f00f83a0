//! The two input-retrieval policies, and the decoding of what the terminal's
//! wait primitive hands back.
//!
//! A non-blocking poll waits for no time with every signal blocked, so that
//! no pending signal can interrupt it; a blocking wait has no deadline and
//! blocks no signal, so that a signal as well as an event ends it.

use vstd::prelude::*;

verus! {

/// A duration handed to the wait primitive.
#[derive(Clone, Copy, Debug, PartialEq, Eq, Structural)]
pub struct NcTimespec {
    pub tv_sec: i64,
    pub tv_nsec: i64,
}

/// Which signals are blocked while waiting.
#[derive(Clone, Copy, Debug, PartialEq, Eq, Structural)]
pub enum NcSigMask {
    /// No signal is blocked.
    Empty,
    /// Every signal is blocked.
    Full,
}

/// What to hand the wait primitive: how long to wait (none: without end) and
/// which signals to block meanwhile.
#[derive(Clone, Copy, Debug, PartialEq, Eq, Structural)]
pub struct NcGetcRequest {
    pub timeout: Option<NcTimespec>,
    pub sigmask: NcSigMask,
}

/// The code the wait primitive returns when no event was ready.
pub const NC_NO_EVENT: u32 = 0;

/// Why a code from the wait primitive could not be read as a character.
#[derive(Clone, Copy, Debug, PartialEq, Eq, Structural)]
pub enum NcInputError {
    /// The code is a surrogate or lies beyond the last code point.
    InvalidCodePoint(u32),
}

/// Returns the request of a non-blocking poll: a zero wait, every signal
/// blocked.
pub fn getc_nblock_request() -> (r: NcGetcRequest)
    ensures
        r.timeout == Some(NcTimespec { tv_sec: 0, tv_nsec: 0 }),
        r.sigmask == NcSigMask::Full,
{
    NcGetcRequest { timeout: Some(NcTimespec { tv_sec: 0, tv_nsec: 0 }), sigmask: NcSigMask::Full }
}

/// Returns the request of a blocking wait: no deadline, no signal blocked.
pub fn getc_blocking_request() -> (r: NcGetcRequest)
    ensures
        r.timeout is None,
        r.sigmask == NcSigMask::Empty,
{
    NcGetcRequest { timeout: None, sigmask: NcSigMask::Empty }
}

/// Whether `code` is a Unicode scalar value.
pub open spec fn is_scalar_value(code: u32) -> bool {
    code < 0xD800 || (0xE000 <= code && code <= 0x10FFFF)
}

/// Relies on `char::from_u32`: the character of a scalar value, `None` for a
/// surrogate or a code beyond `0x10FFFF`.
#[verifier::external_body]
fn char_from_u32(code: u32) -> (r: Option<char>)
    ensures
        r is Some <==> is_scalar_value(code),
        r matches Some(c) ==> c as int == code as int,
{
    char::from_u32(code)
}

/// Reads the code returned by the wait primitive as a character.
///
/// [`NC_NO_EVENT`] reads as `'\0'`, the "no event" sentinel of a poll.
pub fn decode_getc(code: u32) -> (r: Result<char, NcInputError>)
    ensures
        r is Ok <==> is_scalar_value(code),
        r matches Ok(c) ==> c as int == code as int,
        r matches Err(e) ==> e == NcInputError::InvalidCodePoint(code),
        code == NC_NO_EVENT ==> (r matches Ok(c) && c as int == 0),
{
    match char_from_u32(code) {
        Some(c) => Ok(c),
        None => Err(NcInputError::InvalidCodePoint(code)),
    }
}

} // verus!
