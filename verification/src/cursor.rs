//! What the low-level mouse hook does with what the system hands it.

use vstd::prelude::*;

verus! {

/// Whether a hook call with this code carries a cursor position to record. One
/// with a negative code is to be passed on unread.
pub fn carries_position(code: i32) -> (carries: bool)
    ensures
        carries <==> code >= 0,
{
    code >= 0
}

/// How the start of the hook thread turned out.
#[derive(Clone, Copy, Debug, PartialEq, Eq, Structural)]
pub enum HookStart {
    /// The thread is gone without an answer: there is no hook.
    Lost,
    /// No hook could be set, and the thread is ending: it is to be joined.
    Refused,
    /// The hook is set; it is undone through this handle.
    Installed { hook: isize },
}

/// Reads the answer of the hook thread: the handle of the hook it set, zero
/// where it set none, or nothing where it ended without answering.
pub fn hook_start(answer: Option<isize>) -> (start: HookStart)
    ensures
        start == match answer {
            None => HookStart::Lost,
            Some(hook) => if hook == 0 {
                HookStart::Refused
            } else {
                HookStart::Installed { hook }
            },
        },
{
    match answer {
        None => HookStart::Lost,
        Some(0) => HookStart::Refused,
        Some(hook) => HookStart::Installed { hook },
    }
}

/// Whether the hook thread dispatches the message it got and waits for another:
/// it ends once none was `received`, or once the one it got `asks_to_quit`.
pub fn pumps_on(received: bool, asks_to_quit: bool) -> (goes_on: bool)
    ensures
        goes_on <==> received && !asks_to_quit,
{
    received && !asks_to_quit
}

} // verus!
