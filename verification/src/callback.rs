use crate::traits::Call;
use std::sync::Arc;
use std::sync::Mutex;
use vstd::prelude::*;

verus! {

/// `std::sync::Mutex`, the lock that guards a callback's own state. Nothing
/// is stated of what it holds.
#[verifier::external_type_specification]
#[verifier::external_body]
#[verifier::reject_recursive_types(T)]
pub struct ExMutex<T: ?Sized>(Mutex<T>);

/// A callback that several owners may share.
///
/// Two values are equal in contracts when they share the same callback: a
/// clone equals what it was cloned from.
pub struct HidCallback(pub Arc<Mutex<Box<dyn Call>>>);

impl Clone for HidCallback {
    fn clone(&self) -> (shared: Self)
        ensures
            shared == *self,
    {
        HidCallback(Arc::clone(&self.0))
    }
}

impl HidCallback {
    /// Runs the callback on one event, under its lock.
    ///
    /// Calls `std::sync::Mutex::lock` and then [`Call::callback`] on what
    /// the lock guards. A lock poisoned by an earlier panic is taken anyway,
    /// through `std::sync::PoisonError::into_inner`. Nothing is claimed of
    /// what the callback does; if it panics, the panic passes through.
    #[verifier::external_body]
    pub(crate) fn invoke(&self, n_code: i32, w_param: usize, l_param: isize) {
        let mut guard = match self.0.lock() {
            Ok(guard) => guard,
            Err(poisoned) => poisoned.into_inner(),
        };
        guard.callback(n_code, w_param, l_param);
    }
}

} // verus!
