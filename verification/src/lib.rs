//! The verified core of a process-wide global keyboard hook service.
//!
//! The core turns raw hardware key-transition notifications into semantic
//! press/release events with key-repeat suppression, and keeps a registration
//! table from hotkey identity to callback with uniqueness enforcement. The
//! OS-level interception point, the threads and the channel that carry the
//! events live outside this library; they feed raw transitions in and carry
//! the derived events to the registered callbacks.

mod debounce;
mod hotkey;
mod key_code;
mod pump;
mod registry;
pub use debounce::DebounceState;
pub use debounce::KEY_SLOTS;
pub use debounce::count_key;
pub use debounce::count_releases;
pub use debounce::emitted;
pub use debounce::held_after;
pub use debounce::lemma_release_preservation;
pub use debounce::lemma_repeat_suppression;
pub use debounce::lemma_run_order;
pub use debounce::run_emitted;
pub use debounce::run_held;
pub use hotkey::Error;
pub use hotkey::Key;
pub use key_code::KeyCode;
pub use key_code::lemma_raw_spec_bound;
pub use key_code::lemma_raw_spec_injective;
pub use pump::MSG_EXIT;
pub use pump::PumpDirective;
pub use pump::pump_step;
pub use pump::startup_outcome;
pub use pump::startup_report;
pub use registry::RegistrationTable;
pub use registry::as_map;
pub use registry::lemma_register_then_register;
pub use registry::lemma_unregister_then_register;
pub use registry::register_accepted;
pub use registry::unique_keys;
pub use registry::unregister_accepted;
