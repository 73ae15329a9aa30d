use vstd::prelude::*;
use vstd::utf8::valid_utf8;
use crate::boundary::BoundaryError;
use crate::boundary::CResult;
use crate::boundary::text_written;
use crate::boundary::copy_text;
use crate::names::copy_bytes;

verus! {

/// Relies on core::str::from_utf8: it returns `Ok` exactly on the byte
/// sequences that form valid UTF-8, which vstd's `valid_utf8` states.
#[verifier::external_body]
fn utf8_valid(bytes: &Vec<u8>) -> (r: bool)
    ensures
        r == valid_utf8(bytes@),
{
    core::str::from_utf8(bytes.as_slice()).is_ok()
}

/// Decode an inbound narrow-character string into an owned string: the
/// encoded bytes are kept whole after UTF-8 validation. A decode failure is
/// a recoverable error, reported like every other.
pub fn as_string(bytes: &Vec<u8>) -> (r: Result<Vec<u8>, BoundaryError>)
    ensures
        r is Ok <==> valid_utf8(bytes@),
        r matches Ok(s) ==> s@ == bytes@,
        r matches Err(e) ==> e == BoundaryError::TextDecode,
{
    if utf8_valid(bytes) {
        Ok(copy_bytes(bytes))
    } else {
        Err(BoundaryError::TextDecode)
    }
}

/// Copy an outbound string's encoded bytes into the caller's byte buffer of
/// fixed capacity, truncating silently at that capacity. Truncation is
/// success, not failure, so the copy always reports success.
pub fn copy_string(buffer: &mut Vec<u8>, value: &Vec<u8>) -> (r: CResult)
    ensures
        r is Ok,
        final(buffer)@ == text_written(old(buffer)@, value@),
{
    copy_text(buffer, value);
    Ok(())
}

/// Validate a borrowed pointer before any read: a null pointer is a
/// reported failure, never dereferenced.
pub fn check_null_const<'a, T>(value: &'a Option<T>) -> (r: Result<&'a T, BoundaryError>)
    ensures
        r is Ok <==> value is Some,
        r matches Ok(v) ==> (value matches Some(x) && *v == x),
        r matches Err(e) ==> e == BoundaryError::NullHandle,
{
    match value {
        Some(v) => Ok(v),
        None => Err(BoundaryError::NullHandle),
    }
}

/// Validate a writable pointer before any write: a null pointer is a
/// reported failure, never dereferenced.
pub fn check_null<'a, T>(value: &'a mut Option<T>) -> (r: Result<&'a mut T, BoundaryError>)
    ensures
        r is Ok <==> (*old(value)) is Some,
        r matches Ok(v) ==> ((*old(value)) matches Some(x) && *v == x) && (r matches Ok(v)
            ==> ((*final(value)) matches Some(y) && y == *final(v))),
        r matches Err(e) ==> e == BoundaryError::NullHandle && *final(value) == *old(value),
{
    match value {
        Some(v) => Ok(v),
        None => Err(BoundaryError::NullHandle),
    }
}

/// A span of time, held as whole milliseconds.
pub struct Duration {
    pub millis: u64,
}

impl Duration {
    /// The whole milliseconds this duration spans.
    pub fn as_millis(&self) -> (r: u64)
        ensures
            r == self.millis,
    {
        self.millis
    }
}

/// Construct a new owning duration from a provided number of milliseconds.
pub fn duration_from_ms(ms: u64) -> (d: Box<Duration>)
    ensures
        d.millis == ms,
{
    Box::new(Duration { millis: ms })
}

} // verus!
