//! The guarded I/O decision logic: validating requested transfer
//! lengths, mapping seek requests onto the platform's origins, and
//! turning the raw return values of the platform calls into results.
//!
//! The platform calls themselves happen outside the library.  The
//! embedding program asks these functions what to do, performs the
//! call, captures the platform's error report, and hands the raw
//! return value back for interpretation; every decision on either side
//! of a call is verified here.

use crate::options::SEEK_CUR;
use crate::options::SEEK_END;
use crate::options::SEEK_SET;
use vstd::prelude::*;

verus! {

/// The platform's report of a failed call: the last reported error
/// code and its text, surfaced verbatim to the caller.
#[derive(Debug, Clone)]
pub struct OsError {
    /// The platform's error code at the point of the failing call.
    pub code: i32,
    /// The platform's description of that code.
    pub message: String,
}

/// A logical seek request: an offset relative to the start, the
/// current position, or the end of the file.
#[derive(Clone, Copy, Debug, PartialEq, Eq, Structural)]
pub enum SeekRequest {
    /// An absolute offset from the start of the file.
    Start(u64),
    /// An offset relative to the current position.
    Current(i64),
    /// An offset relative to the end of the file.
    End(i64),
}

/// Whether the request's offset fits the platform's signed 64-bit
/// offset argument.
pub open spec fn seek_offset_representable(op: SeekRequest) -> bool {
    match op {
        SeekRequest::Start(x) => x <= i64::MAX as u64,
        SeekRequest::Current(_) => true,
        SeekRequest::End(_) => true,
    }
}

/// The origin code and offset the platform seek call takes for a
/// request: `Start` maps to the start origin, `Current` to the
/// current-position origin, `End` to the end origin, each keeping its
/// offset.
pub fn seek_plan(op: SeekRequest) -> (r: (i32, i64))
    requires
        seek_offset_representable(op),
    ensures
        op matches SeekRequest::Start(x) ==> r == (SEEK_SET, x as i64),
        op matches SeekRequest::Current(x) ==> r == (SEEK_CUR, x),
        op matches SeekRequest::End(x) ==> r == (SEEK_END, x),
{
    match op {
        SeekRequest::Start(x) => (SEEK_SET, x as i64),
        SeekRequest::Current(x) => (SEEK_CUR, x),
        SeekRequest::End(x) => (SEEK_END, x),
    }
}

/// The guard of the bounded I/O calls: the number of bytes to hand to
/// the platform call, or `None` — the "not attempted" outcome — when
/// the requested count exceeds the buffer's capacity.  No call may be
/// issued in the `None` case.
pub fn transfer_request(count: usize, buffer_len: usize) -> (r: Option<usize>)
    ensures
        r is Some <==> count <= buffer_len,
        count <= buffer_len ==> r == Some(count),
{
    if count > buffer_len {
        None
    } else {
        Some(count)
    }
}

/// The result of a bounded read or write that was attempted: the raw
/// return value `ret` of the platform call, with `err` the platform's
/// error report captured right after it.  The failure sentinel turns
/// into that error; any other return reports success, which does not
/// promise that the full count was transferred.
pub fn bounded_io_outcome(ret: isize, err: OsError) -> (r: Result<bool, OsError>)
    ensures
        ret == -1 ==> r == Err::<bool, OsError>(err),
        ret != -1 ==> r == Ok::<bool, OsError>(true),
{
    if ret == -1 {
        Err(err)
    } else {
        Ok(true)
    }
}

/// The result of a typed read or write: as `bounded_io_outcome`, with
/// a unit payload, since the transfer size is fixed by the type.
pub fn typed_io_outcome(ret: isize, err: OsError) -> (r: Result<(), OsError>)
    ensures
        ret == -1 ==> r == Err::<(), OsError>(err),
        ret != -1 ==> r == Ok::<(), OsError>(()),
{
    if ret == -1 {
        Err(err)
    } else {
        Ok(())
    }
}

/// The result of the platform open call: the failure sentinel turns
/// into the captured error, any other return is the new descriptor.
pub fn open_outcome(ret: i32, err: OsError) -> (r: Result<i32, OsError>)
    ensures
        ret == -1 ==> r == Err::<i32, OsError>(err),
        ret != -1 ==> r == Ok::<i32, OsError>(ret),
{
    if ret == -1 {
        Err(err)
    } else {
        Ok(ret)
    }
}

/// The result of the platform seek call.  Success is the failure
/// sentinel absent: any other return, the resulting absolute offset,
/// is reported as such — a seek that lands at offset zero is success
/// like any other, not a failure.
pub fn seek_outcome(ret: i64, err: OsError) -> (r: Result<i64, OsError>)
    ensures
        ret == -1 ==> r == Err::<i64, OsError>(err),
        ret != -1 ==> r == Ok::<i64, OsError>(ret),
{
    if ret == -1 {
        Err(err)
    } else {
        Ok(ret)
    }
}

/// The last step of the size query: `size` is the offset the probe
/// seek to the end returned, `restore_ret` the raw return of the seek
/// back to the start.  The size is owed only once the restoring seek
/// succeeded, so a subsequent read begins at offset zero; its failure
/// is propagated instead.
pub fn fsize_finish(size: i64, restore_ret: i64, err: OsError) -> (r: Result<i64, OsError>)
    ensures
        restore_ret == -1 ==> r == Err::<i64, OsError>(err),
        restore_ret != -1 ==> r == Ok::<i64, OsError>(size),
{
    if restore_ret == -1 {
        Err(err)
    } else {
        Ok(size)
    }
}

} // verus!
