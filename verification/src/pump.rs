use vstd::prelude::*;

use crate::hotkey::Error;

verus! {

/// The internal message the handle posts to the hook thread's message queue
/// to make its pump loop exit; chosen above the platform's reserved range so
/// it never collides with a real key notification.
pub const MSG_EXIT: u32 = 0x400;

/// What the hook thread's pump loop does with one polled message.
pub enum PumpDirective {
    /// The shutdown signal arrived: leave the loop and release the hook.
    Exit,
    /// The pump reported a hard error: leave early with `MessageLoop`.
    Fail,
    /// An ordinary message: keep pumping.
    Continue,
}

/// The pump loop's decision for one polled message: the shutdown signal wins
/// over everything, a negative poll status is a hard failure, and anything
/// else keeps the loop running.
pub fn pump_step(message: u32, status: i32) -> (d: PumpDirective)
    ensures
        d is Exit <==> message == MSG_EXIT,
        d is Fail <==> message != MSG_EXIT && status < 0,
        d is Continue <==> message != MSG_EXIT && status >= 0,
{
    if message == MSG_EXIT {
        PumpDirective::Exit
    } else if status < 0 {
        PumpDirective::Fail
    } else {
        PumpDirective::Continue
    }
}

/// What the hook thread reports through the one-shot startup signal: its own
/// thread identifier when the interception point was installed, and
/// `WindowsHook` when installation failed.
pub fn startup_report(hook_installed: bool, thread_id: u32) -> (r: Result<u32, Error>)
    ensures
        hook_installed ==> r == Ok::<u32, Error>(thread_id),
        !hook_installed ==> r == Err::<u32, Error>(Error::WindowsHook),
{
    if hook_installed {
        Ok(thread_id)
    } else {
        Err(Error::WindowsHook)
    }
}

/// What the creating call concludes from the startup signal: a lost signal
/// (the hook thread terminated before reporting) is the distinct
/// `ThreadStopped` condition, never conflated with installation failure.
pub fn startup_outcome(signal: Option<Result<u32, Error>>) -> (r: Result<u32, Error>)
    ensures
        signal matches Some(s) ==> r == s,
        signal is None ==> r == Err::<u32, Error>(Error::ThreadStopped),
{
    match signal {
        Some(s) => s,
        None => Err(Error::ThreadStopped),
    }
}

} // verus!
