use crate::callback::HidCallback;
use crate::error::Error;
use crate::hid_type::HidType;
use crate::hook::Hook;
use crate::hook::HookRequest;
use crate::hook::HookToken;
use crate::model::Lifecycle;
use crate::registry::Registry;
use vstd::prelude::*;

verus! {

/// Callback-based monitoring of keyboard and mouse events.
///
/// A monitor knows callbacks per device kind and keeps them registered while
/// the hook of that kind is installed. It never talks to the operating system
/// itself. [`HidMonitor::enable`] and [`HidMonitor::disable`] say what the
/// caller has to ask of it, and [`HidMonitor::finish_enable`] takes the answer
/// to a request to install.
///
/// While a hook is installed, the thread that installed it has to run a
/// message loop, or input stalls for the whole machine.
pub struct HidMonitor {
    keybd_hook: Hook,
    mouse_hook: Hook,
    keybd_callbacks: Vec<HidCallback>,
    mouse_callbacks: Vec<HidCallback>,
}

impl HidMonitor {
    /// The monitor's state for one device kind.
    pub closed spec fn lifecycle(self, hid_type: HidType) -> Lifecycle {
        match hid_type {
            HidType::Keyboard => Lifecycle {
                token: self.keybd_hook.token(),
                known: self.keybd_callbacks@,
                keys: self.keybd_hook.keys(),
            },
            HidType::Mouse => Lifecycle {
                token: self.mouse_hook.token(),
                known: self.mouse_callbacks@,
                keys: self.mouse_hook.keys(),
            },
        }
    }

    /// Each hook is well formed and of its own device kind.
    pub closed spec fn hooks_wf(self) -> bool {
        &&& self.keybd_hook.wf()
        &&& self.mouse_hook.wf()
        &&& self.keybd_hook.hid_type() == HidType::Keyboard
        &&& self.mouse_hook.hid_type() == HidType::Mouse
    }

    /// The hooks are well formed, and so is the state for each device kind.
    pub open spec fn wf(self) -> bool {
        &&& self.hooks_wf()
        &&& self.lifecycle(HidType::Keyboard).wf()
        &&& self.lifecycle(HidType::Mouse).wf()
    }

    /// Says what enabling `hid_type` asks of the operating system: nothing
    /// if the hook is installed, else to install it. The monitor itself
    /// changes only when the answer comes in, by
    /// [`HidMonitor::finish_enable`].
    pub fn enable(&self, hid_type: HidType) -> (request: HookRequest)
        ensures
            request == self.lifecycle(hid_type).enable_request(hid_type),
    {
        let installed = match hid_type {
            HidType::Keyboard => self.keybd_hook.valid(),
            HidType::Mouse => self.mouse_hook.valid(),
        };
        if installed {
            HookRequest::Nothing
        } else {
            HookRequest::Install(hid_type)
        }
    }

    /// Takes the operating system's answer to the request to install the
    /// hook of `hid_type`.
    ///
    /// On success every known callback of that kind is registered and the
    /// hook counts as installed. On failure the error is handed on as it
    /// came, and neither the monitor nor the registry changes.
    pub fn finish_enable(
        &mut self,
        registry: &mut Registry,
        hid_type: HidType,
        installed: Result<HookToken, Error>,
    ) -> (result: Result<(), Error>)
        requires
            old(self).wf(),
            !old(self).lifecycle(hid_type).installed(),
        ensures
            final(self).wf(),
            old(self).lifecycle(hid_type).install_step(
                old(registry).live(hid_type),
                installed,
                final(self).lifecycle(hid_type),
                final(registry).live(hid_type),
            ),
            final(self).lifecycle(hid_type.other()) == old(self).lifecycle(hid_type.other()),
            final(registry).live(hid_type.other()) == old(registry).live(hid_type.other()),
            installed is Ok ==> result is Ok,
            installed is Err ==> result == Err::<(), Error>(installed->Err_0),
    {
        proof {
            self.keybd_hook.lemma_no_keys_without_token();
            self.mouse_hook.lemma_no_keys_without_token();
        }
        match hid_type {
            HidType::Keyboard => self.keybd_hook.hook(registry, installed, &self.keybd_callbacks),
            HidType::Mouse => self.mouse_hook.hook(registry, installed, &self.mouse_callbacks),
        }
    }

    /// Disables `hid_type`: ends every registration of that kind, counts the
    /// hook as removed, and says what to ask of the operating system.
    ///
    /// Where no hook is installed nothing changes and nothing is asked. The
    /// monitor is done with the hook whatever the operating system answers
    /// to the removal.
    pub fn disable(&mut self, registry: &mut Registry, hid_type: HidType) -> (request: HookRequest)
        requires
            old(self).wf(),
        ensures
            final(self).wf(),
            request == old(self).lifecycle(hid_type).disable_request(),
            old(self).lifecycle(hid_type).disable_step(
                old(registry).live(hid_type),
                final(self).lifecycle(hid_type),
                final(registry).live(hid_type),
            ),
            !old(self).lifecycle(hid_type).installed()
                ==> final(self).lifecycle(hid_type) == old(self).lifecycle(hid_type),
            !old(self).lifecycle(hid_type).installed()
                ==> final(registry).live(hid_type) == old(registry).live(hid_type),
            final(self).lifecycle(hid_type.other()) == old(self).lifecycle(hid_type.other()),
            final(registry).live(hid_type.other()) == old(registry).live(hid_type.other()),
    {
        proof {
            let live = registry.live(hid_type);
            assert(live.remove_keys(Seq::<u64>::empty().to_set()) == live);
        }
        match hid_type {
            HidType::Keyboard => {
                if self.keybd_hook.valid() {
                    HookRequest::Uninstall(self.keybd_hook.unhook(registry))
                } else {
                    proof {
                        self.keybd_hook.lemma_no_keys_without_token();
                    }
                    HookRequest::Nothing
                }
            },
            HidType::Mouse => {
                if self.mouse_hook.valid() {
                    HookRequest::Uninstall(self.mouse_hook.unhook(registry))
                } else {
                    proof {
                        self.mouse_hook.lemma_no_keys_without_token();
                    }
                    HookRequest::Nothing
                }
            },
        }
    }

    /// Adds a callback for `hid_type`.
    ///
    /// Any number of callbacks may be added; the order in which they run on
    /// an event is not fixed. While the hook is installed the callback is
    /// registered at once, otherwise when the hook is next installed.
    pub fn add_callback(
        &mut self,
        registry: &mut Registry,
        hid_type: HidType,
        hid_callback: HidCallback,
    )
        requires
            old(self).wf(),
        ensures
            final(self).wf(),
            old(self).lifecycle(hid_type).add_step(
                old(registry).live(hid_type),
                hid_callback,
                final(self).lifecycle(hid_type),
                final(registry).live(hid_type),
            ),
            final(self).lifecycle(hid_type.other()) == old(self).lifecycle(hid_type.other()),
            final(registry).live(hid_type.other()) == old(registry).live(hid_type.other()),
    {
        match hid_type {
            HidType::Keyboard => {
                if self.keybd_hook.valid() {
                    self.keybd_hook.register_global_callback(registry, hid_callback.clone());
                    assert(self.keybd_hook.keys().drop_last() == old(self).keybd_hook.keys());
                }
                self.keybd_callbacks.push(hid_callback);
            },
            HidType::Mouse => {
                if self.mouse_hook.valid() {
                    self.mouse_hook.register_global_callback(registry, hid_callback.clone());
                    assert(self.mouse_hook.keys().drop_last() == old(self).mouse_hook.keys());
                }
                self.mouse_callbacks.push(hid_callback);
            },
        }
    }

    /// Removes every callback of `hid_type` that this monitor knows, and ends
    /// their registrations. The hook stays installed or not, as it was.
    pub fn clear_callbacks(&mut self, registry: &mut Registry, hid_type: HidType)
        requires
            old(self).wf(),
        ensures
            final(self).wf(),
            old(self).lifecycle(hid_type).clear_step(
                old(registry).live(hid_type),
                final(self).lifecycle(hid_type),
                final(registry).live(hid_type),
            ),
            final(self).lifecycle(hid_type.other()) == old(self).lifecycle(hid_type.other()),
            final(registry).live(hid_type.other()) == old(registry).live(hid_type.other()),
    {
        match hid_type {
            HidType::Keyboard => {
                self.keybd_hook.clear_global_callbacks(registry);
                self.keybd_callbacks.clear();
            },
            HidType::Mouse => {
                self.mouse_hook.clear_global_callbacks(registry);
                self.mouse_callbacks.clear();
            },
        }
    }

    /// Disables both device kinds, the keyboard first, and says what to ask
    /// of the operating system for each. A monitor is shut down before it is
    /// dropped, so that none of its registrations outlives it.
    pub fn shutdown(&mut self, registry: &mut Registry) -> (requests: (HookRequest, HookRequest))
        requires
            old(self).wf(),
        ensures
            final(self).wf(),
            requests.0 == old(self).lifecycle(HidType::Keyboard).disable_request(),
            requests.1 == old(self).lifecycle(HidType::Mouse).disable_request(),
            old(self).lifecycle(HidType::Keyboard).disable_step(
                old(registry).live(HidType::Keyboard),
                final(self).lifecycle(HidType::Keyboard),
                final(registry).live(HidType::Keyboard),
            ),
            old(self).lifecycle(HidType::Mouse).disable_step(
                old(registry).live(HidType::Mouse),
                final(self).lifecycle(HidType::Mouse),
                final(registry).live(HidType::Mouse),
            ),
    {
        let keyboard = self.disable(registry, HidType::Keyboard);
        let mouse = self.disable(registry, HidType::Mouse);
        (keyboard, mouse)
    }
}

impl Default for HidMonitor {
    /// A monitor with no callback and no hook installed.
    fn default() -> (monitor: Self)
        ensures
            monitor.wf(),
            monitor.lifecycle(HidType::Keyboard) == Lifecycle::idle(),
            monitor.lifecycle(HidType::Mouse) == Lifecycle::idle(),
    {
        HidMonitor {
            keybd_hook: Hook::new(HidType::Keyboard),
            mouse_hook: Hook::new(HidType::Mouse),
            keybd_callbacks: Vec::new(),
            mouse_callbacks: Vec::new(),
        }
    }
}

} // verus!
