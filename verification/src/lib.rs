//! Callback registry and hook lifecycle for system-wide keyboard and mouse
//! monitoring.
//!
//! The operating system offers one hook per device type and calls one fixed
//! function for it. This crate holds what sits between that function and the
//! callbacks of an application: the [`Registry`] of live callbacks, the
//! [`GlobalCallback`] handle that stands for one registration, the dispatch
//! that fans an event out, and the [`HidMonitor`] that decides when a hook has
//! to be installed or removed. The hook itself is installed and removed by the
//! caller, who reports what the operating system answered.
pub mod callback;
pub mod error;
pub mod handle;
pub mod hid_monitor;
pub mod hid_type;
pub mod hook;
pub mod model;
pub mod registry;
pub mod theorems;
pub mod traits;
pub mod trampoline;

pub use callback::HidCallback;
pub use error::Error;
pub use handle::GlobalCallback;
pub use hid_monitor::HidMonitor;
pub use hid_type::HidType;
pub use hook::Hook;
pub use hook::HookRequest;
pub use hook::HookToken;
pub use model::Lifecycle;
pub use registry::Registry;
pub use traits::Call;
pub use trampoline::dispatch;
pub use trampoline::is_for_processing;
