//! What the function that the operating system calls for a hook does with an
//! event, short of handing it on to the next hook.
use crate::callback::HidCallback;
use crate::hid_type::HidType;
use crate::registry::Registry;
use vstd::prelude::*;

verus! {

/// Whether an event is for processing. A negative code tells the hook to
/// hand the event on without looking at it.
pub open spec fn for_processing(n_code: i32) -> bool {
    n_code >= 0
}

/// Whether an event with this code is to be dispatched at all. The caller
/// asks this first and leaves the registry alone when the answer is no.
pub fn is_for_processing(n_code: i32) -> (yes: bool)
    ensures
        yes == for_processing(n_code),
{
    n_code >= 0
}

/// Runs each callback of `entries` once on the event, in the order of
/// `entries`, and returns how many it ran.
///
/// `entries` is a snapshot taken by [`Registry::snapshot`], so the registry
/// need not be held while the callbacks run.
pub fn dispatch(
    entries: &Vec<(u64, HidCallback)>,
    n_code: i32,
    w_param: usize,
    l_param: isize,
) -> (ran: usize)
    ensures
        ran == entries.len(),
{
    let mut ran: usize = 0;
    while ran < entries.len()
        invariant
            ran <= entries.len(),
        decreases entries.len() - ran,
    {
        entries[ran].1.invoke(n_code, w_param, l_param);
        ran = ran + 1;
    }
    ran
}

impl Registry {
    /// Hands an event to every live callback of `hid_type`, once each and in
    /// no particular order, and returns how many that were. An event that is
    /// not for processing reaches none, and a table without callbacks is no
    /// error.
    ///
    /// The callbacks run while the registry is borrowed. A caller that
    /// guards the registry by a lock takes a [`Registry::snapshot`] under the
    /// lock and calls [`dispatch`] after releasing it.
    pub fn for_each_live(
        &self,
        hid_type: HidType,
        n_code: i32,
        w_param: usize,
        l_param: isize,
    ) -> (ran: usize)
        ensures
            !for_processing(n_code) ==> ran == 0,
            for_processing(n_code) ==> ran == self.live(hid_type).len(),
    {
        if !is_for_processing(n_code) {
            return 0;
        }
        let entries = self.snapshot(hid_type);
        dispatch(&entries, n_code, w_param, l_param)
    }
}

} // verus!
