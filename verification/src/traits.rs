use vstd::prelude::*;

verus! {

/// What an application implements to observe events.
///
/// `n_code` classifies the event; `w_param` and `l_param` are the two words
/// with which the operating system describes it, handed on as they came.
/// A callback may run on a thread other than the one that registered it, so
/// implementors are `Send`. It must not call back into the registry or a
/// monitor while it runs, and it should not panic: the library hands a panic
/// on to whoever dispatched the event.
pub trait Call: Send {
    fn callback(&mut self, n_code: i32, w_param: usize, l_param: isize);
}

} // verus!
