use crate::callback::HidCallback;
use crate::hid_type::HidType;
use crate::model::registers;
use crate::registry::Registry;
use vstd::prelude::*;

verus! {

/// One live registration: the device kind and the key under which a callback
/// stands in the registry.
///
/// A handle is made by registering and ends by [`GlobalCallback::release`],
/// which takes it. It cannot be copied, so a registration is released once.
pub struct GlobalCallback {
    hid_type: HidType,
    key: u64,
}

impl View for GlobalCallback {
    type V = (HidType, u64);

    closed spec fn view(&self) -> (HidType, u64) {
        (self.hid_type, self.key)
    }
}

impl GlobalCallback {
    /// Registers `callback` for `hid_type` under a key that was vacant.
    pub fn new(registry: &mut Registry, hid_type: HidType, callback: HidCallback) -> (handle: Self)
        ensures
            handle@.0 == hid_type,
            registers(
                old(registry).live(hid_type),
                final(registry).live(hid_type),
                handle@.1,
                callback,
            ),
            final(registry).live(hid_type.other()) == old(registry).live(hid_type.other()),
    {
        let key = registry.insert(hid_type, callback);
        GlobalCallback { hid_type, key }
    }

    /// The device kind of the registration.
    pub fn hid_type(&self) -> (hid_type: HidType)
        ensures
            hid_type == self@.0,
    {
        self.hid_type
    }

    /// The key of the registration.
    pub fn key(&self) -> (key: u64)
        ensures
            key == self@.1,
    {
        self.key
    }

    /// Ends the registration. If the registry no longer holds the key,
    /// nothing happens.
    pub fn release(self, registry: &mut Registry)
        ensures
            final(registry).live(self@.0) == old(registry).live(self@.0).remove(self@.1),
            final(registry).live(self@.0.other()) == old(registry).live(self@.0.other()),
    {
        registry.remove(self.hid_type, self.key);
    }
}

} // verus!
