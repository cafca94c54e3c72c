use vstd::prelude::*;

use crate::key_code::KeyCode;

verus! {

/// A hotkey identity: one logical key together with the transition direction
/// it stands for. This is both the semantic event the debounce stage emits
/// and the unique key of the registration table; two values are equal iff
/// both the direction tag and the key code match.
#[derive(Debug, Eq, PartialEq, Hash, Copy, Clone, Structural)]
pub enum Key {
    Press(KeyCode),
    Release(KeyCode),
}

/// The failures the hook service reports to its callers.
#[derive(Debug, Eq, PartialEq, Hash, Copy, Clone, Structural)]
pub enum Error {
    /// `register` was called for a hotkey that already has a callback.
    AlreadyRegistered,
    /// `unregister` was called for a hotkey with no active registration.
    NotRegistered,
    /// The OS-level keyboard interception point could not be installed.
    WindowsHook,
    /// The hook thread terminated before reporting its startup outcome.
    ThreadStopped,
    /// The OS message pump reported a hard error during steady-state operation.
    MessageLoop,
}

} // verus!
