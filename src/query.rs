use vstd::prelude::*;

use crate::geometry::{find_monitor_containing, first_match, MonitorInfo};

verus! {

/// Why a one-shot pixel query gave no colour.
#[derive(Clone, Copy, Debug, PartialEq, Eq, Structural)]
pub enum QueryError {
    /// The displays could not be listed.
    EnumerationFailure,
    /// No display holds the cursor.
    NoMonitorAtPoint,
    /// The display could not be captured.
    CaptureFailure,
    /// The capture held fewer than four bytes.
    UndersizedBuffer,
}

impl QueryError {
    pub fn message(&self) -> (r: &'static str)
        ensures
            *self == QueryError::EnumerationFailure ==> r@ == "monitor enumeration failed"@,
            *self == QueryError::NoMonitorAtPoint ==> r@ == "no monitor found"@,
            *self == QueryError::CaptureFailure ==> r@ == "capture failed"@,
            *self == QueryError::UndersizedBuffer ==> r@ == "capture too small"@,
    {
        proof {
            reveal_strlit("monitor enumeration failed");
            reveal_strlit("no monitor found");
            reveal_strlit("capture failed");
            reveal_strlit("capture too small");
        }
        match self {
            QueryError::EnumerationFailure => "monitor enumeration failed",
            QueryError::NoMonitorAtPoint => "no monitor found",
            QueryError::CaptureFailure => "capture failed",
            QueryError::UndersizedBuffer => "capture too small",
        }
    }
}

/// The display to capture for a query at `(x, y)`: the first that holds the
/// point.
pub fn locate_pixel(monitors: &Vec<MonitorInfo>, x: i32, y: i32) -> (r: Result<usize, QueryError>)
    ensures
        match r {
            Ok(i) => first_match(monitors@, x as int, y as int, Some(i)),
            Err(e) => e == QueryError::NoMonitorAtPoint && first_match(
                monitors@,
                x as int,
                y as int,
                None,
            ),
        },
{
    match find_monitor_containing(monitors, x, y) {
        Some(i) => Ok(i),
        None => Err(QueryError::NoMonitorAtPoint),
    }
}

/// The answer of a query whose one-pixel capture at `(x, y)` gave `buffer`.
pub open spec fn pixel_spec(buffer: Seq<u8>, x: i32, y: i32) -> Result<
    (u8, u8, u8, i32, i32),
    QueryError,
> {
    if buffer.len() >= 4 {
        Ok((buffer[0], buffer[1], buffer[2], x, y))
    } else {
        Err(QueryError::UndersizedBuffer)
    }
}

/// The colour of a one-pixel capture at `(x, y)`: its first three bytes, when
/// it holds at least four.
pub fn pixel_from_capture(buffer: &Vec<u8>, x: i32, y: i32) -> (r: Result<
    (u8, u8, u8, i32, i32),
    QueryError,
>)
    ensures
        r == pixel_spec(buffer@, x, y),
{
    if buffer.len() >= 4 {
        Ok((buffer[0], buffer[1], buffer[2], x, y))
    } else {
        Err(QueryError::UndersizedBuffer)
    }
}

/// A capture shorter than four bytes never yields a colour.
pub proof fn lemma_short_capture_is_error(buffer: Seq<u8>, x: i32, y: i32)
    requires
        buffer.len() < 4,
    ensures
        pixel_spec(buffer, x, y) == Err::<(u8, u8, u8, i32, i32), QueryError>(
            QueryError::UndersizedBuffer,
        ),
{
}

} // verus!
