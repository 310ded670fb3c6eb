//! Real-time scheduling elevation for the transfer threads.
//!
//! A transfer loop misses its deadline under ordinary time-sharing, so each
//! direction's thread asks for a fixed-priority first-in-first-out policy
//! before entering its loop. Whether the environment grants the elevation
//! is the caller's decision to treat as fatal or as a degraded start.

use vstd::prelude::*;

verus! {

/// Lowest and highest priority the first-in-first-out policy accepts.
pub const MIN_FIFO_PRIORITY: u8 = 1;
pub const MAX_FIFO_PRIORITY: u8 = 99;

/// Priority the transfer loops run at when nothing else is requested.
pub const DEFAULT_FIFO_PRIORITY: u8 = 3;

/// Why the scheduling class of the calling thread was not changed.
#[derive(Clone, Copy, Debug, PartialEq, Eq, Structural)]
pub enum SchedulingError {
    /// The requested level is outside the fixed-priority range.
    PriorityOutOfRange,
    /// The operating environment refused the elevation, most often for
    /// want of privilege.
    ElevationDenied,
}

/// Relies on `thread_priority::set_thread_priority_and_policy` applied to
/// `thread_priority::thread_native_id`: requests the first-in-first-out
/// real-time policy at the given level for the calling thread. The outcome
/// depends on the environment's privileges, so nothing is promised beyond
/// the error mapping: any refusal by the crate comes back as
/// `ElevationDenied`.
#[verifier::external_body]
fn request_fifo_policy(priority: u8) -> (r: Result<(), SchedulingError>)
{
    let level = match thread_priority::ThreadPriorityValue::try_from(priority) {
        Ok(level) => level,
        Err(_) => return Err(SchedulingError::ElevationDenied),
    };
    let outcome = thread_priority::set_thread_priority_and_policy(
        thread_priority::thread_native_id(),
        thread_priority::ThreadPriority::Crossplatform(level),
        thread_priority::ThreadSchedulePolicy::Realtime(
            thread_priority::RealtimeThreadSchedulePolicy::Fifo,
        ),
    );
    match outcome {
        Ok(()) => Ok(()),
        Err(_) => Err(SchedulingError::ElevationDenied),
    }
}

/// Elevates the calling thread to the fixed-priority first-in-first-out
/// class at the given level. A level outside the accepted range is
/// rejected before the operating environment is asked; within the range,
/// success depends on the environment's privileges. Re-applying an already
/// granted elevation only re-states the same scheduling attributes.
pub fn elevate(priority: u8) -> (r: Result<(), SchedulingError>)
    ensures
        (priority < MIN_FIFO_PRIORITY || priority > MAX_FIFO_PRIORITY) <==> r == Err::<
            (),
            SchedulingError,
        >(SchedulingError::PriorityOutOfRange),
{
    if priority < MIN_FIFO_PRIORITY || priority > MAX_FIFO_PRIORITY {
        return Err(SchedulingError::PriorityOutOfRange);
    }
    match request_fifo_policy(priority) {
        Ok(()) => Ok(()),
        Err(_) => Err(SchedulingError::ElevationDenied),
    }
}

/// Elevates the calling thread to the default real-time transfer priority.
pub fn get_realtime_priority() -> (r: Result<(), SchedulingError>)
    ensures
        r != Err::<(), SchedulingError>(SchedulingError::PriorityOutOfRange),
{
    elevate(DEFAULT_FIFO_PRIORITY)
}

} // verus!
