use crate::callback::HidCallback;
use crate::error::Error;
use crate::handle::GlobalCallback;
use crate::hid_type::HidType;
use crate::model::lemma_registers_one_more;
use crate::model::lemma_releases_one_more;
use crate::model::registers;
use crate::model::registers_all;
use crate::model::releases_all;
use crate::registry::Registry;
use vstd::prelude::*;

verus! {

/// What the operating system handed out for an installed hook.
///
/// The raw value of a token is neither zero nor `usize::MAX`: those are what
/// the operating system uses for "no hook".
#[derive(Clone, Copy, Debug, PartialEq, Eq)]
pub struct HookToken {
    raw: usize,
}

impl View for HookToken {
    type V = usize;

    closed spec fn view(&self) -> usize {
        self.raw
    }
}

impl HookToken {
    /// Whether a raw value stands for "no hook".
    pub open spec fn is_invalid(raw: usize) -> bool {
        raw == 0 || raw == usize::MAX
    }

    #[verifier::type_invariant]
    spec fn stands_for_a_hook(self) -> bool {
        !Self::is_invalid(self.raw)
    }

    /// The token for a raw value, or `None` where the value stands for "no
    /// hook".
    pub fn new(raw: usize) -> (token: Option<HookToken>)
        ensures
            Self::is_invalid(raw) <==> token is None,
            token matches Some(t) ==> t@ == raw,
    {
        if raw == 0 || raw == usize::MAX {
            None
        } else {
            Some(HookToken { raw })
        }
    }

    /// The raw value, to hand back to the operating system.
    pub fn raw(&self) -> (raw: usize)
        ensures
            raw == self@,
            !Self::is_invalid(raw),
    {
        proof {
            use_type_invariant(self);
        }
        self.raw
    }
}

/// What a lifecycle call asks its caller to do with the operating system.
#[derive(Clone, Copy, Debug, PartialEq, Eq)]
pub enum HookRequest {
    /// Nothing: the hook is already as it should be.
    Nothing,
    /// Install the hook of this device kind, and report the outcome.
    Install(HidType),
    /// Remove the hook that this token stands for.
    Uninstall(HookToken),
}

/// The hook of one monitor for one device kind: the token of the installed
/// hook, if any, and the registrations that are live through it.
///
/// There are registrations only while a hook is installed.
pub struct Hook {
    hid_type: HidType,
    raw: Option<HookToken>,
    callbacks: Vec<GlobalCallback>,
}

impl Hook {
    /// Every registration is of the hook's device kind, and there is none
    /// unless a hook is installed.
    pub closed spec fn wf(self) -> bool {
        &&& self.raw is None ==> self.callbacks.len() == 0
        &&& forall|i: int|
            0 <= i < self.callbacks.len() ==> (#[trigger] self.callbacks[i])@.0 == self.hid_type
    }

    /// The device kind that the hook observes.
    pub closed spec fn hid_type(self) -> HidType {
        self.hid_type
    }

    /// The token of the installed hook.
    pub closed spec fn token(self) -> Option<HookToken> {
        self.raw
    }

    /// The keys of the live registrations, oldest first.
    pub closed spec fn keys(self) -> Seq<u64> {
        self.callbacks@.map_values(|handle: GlobalCallback| handle@.1)
    }

    /// Without an installed hook there is no registration.
    pub proof fn lemma_no_keys_without_token(self)
        requires
            self.wf(),
        ensures
            self.token() is None ==> self.keys() == Seq::<u64>::empty(),
    {
    }

    /// A hook that is not installed.
    pub fn new(hid_type: HidType) -> (hook: Self)
        ensures
            hook.wf(),
            hook.hid_type() == hid_type,
            hook.token() is None,
            hook.keys() == Seq::<u64>::empty(),
    {
        Hook { hid_type, raw: None, callbacks: Vec::new() }
    }

    /// Whether a hook is installed.
    pub fn valid(&self) -> (valid: bool)
        ensures
            valid == (self.token() is Some),
    {
        self.raw.is_some()
    }

    /// Registers one more callback through the installed hook.
    pub fn register_global_callback(&mut self, registry: &mut Registry, hid_callback: HidCallback)
        requires
            old(self).wf(),
            old(self).token() is Some,
        ensures
            final(self).wf(),
            final(self).hid_type() == old(self).hid_type(),
            final(self).token() == old(self).token(),
            final(self).keys() == old(self).keys().push(final(self).keys().last()),
            registers(
                old(registry).live(old(self).hid_type()),
                final(registry).live(old(self).hid_type()),
                final(self).keys().last(),
                hid_callback,
            ),
            final(registry).live(old(self).hid_type().other()) == old(registry).live(
                old(self).hid_type().other(),
            ),
    {
        let handle = GlobalCallback::new(registry, self.hid_type, hid_callback);
        self.callbacks.push(handle);
    }

    /// Takes the operating system's answer to a request to install.
    ///
    /// On success the token is kept and each of `hid_callbacks` is registered,
    /// in their order. On failure the error is handed on and nothing changes.
    pub fn hook(
        &mut self,
        registry: &mut Registry,
        installed: Result<HookToken, Error>,
        hid_callbacks: &Vec<HidCallback>,
    ) -> (result: Result<(), Error>)
        requires
            old(self).wf(),
            old(self).token() is None,
        ensures
            final(self).wf(),
            final(self).hid_type() == old(self).hid_type(),
            final(registry).live(old(self).hid_type().other()) == old(registry).live(
                old(self).hid_type().other(),
            ),
            installed is Err ==> result == Err::<(), Error>(installed->Err_0),
            installed is Err ==> final(self).token() is None,
            installed is Err ==> final(self).keys() == Seq::<u64>::empty(),
            installed is Err
                ==> final(registry).live(old(self).hid_type()) == old(registry).live(
                old(self).hid_type(),
            ),
            installed is Ok ==> result is Ok,
            installed is Ok ==> final(self).token() == Some(installed->Ok_0),
            installed is Ok ==> registers_all(
                old(registry).live(old(self).hid_type()),
                final(registry).live(old(self).hid_type()),
                final(self).keys(),
                hid_callbacks@,
            ),
    {
        let token = match installed {
            Ok(token) => token,
            Err(error) => {
                return Err(error);
            },
        };
        self.raw = Some(token);
        let mut i: usize = 0;
        while i < hid_callbacks.len()
            invariant
                i <= hid_callbacks.len(),
                self.wf(),
                self.hid_type() == old(self).hid_type(),
                self.token() == Some(token),
                registry.live(old(self).hid_type().other()) == old(registry).live(
                    old(self).hid_type().other(),
                ),
                registers_all(
                    old(registry).live(old(self).hid_type()),
                    registry.live(old(self).hid_type()),
                    self.keys(),
                    hid_callbacks@.take(i as int),
                ),
            decreases hid_callbacks.len() - i,
        {
            let ghost before = registry.live(self.hid_type());
            let ghost keys = self.keys();
            self.register_global_callback(registry, hid_callbacks[i].clone());
            proof {
                lemma_registers_one_more(
                    old(registry).live(old(self).hid_type()),
                    before,
                    registry.live(self.hid_type()),
                    keys,
                    hid_callbacks@.take(i as int),
                    self.keys().last(),
                    hid_callbacks[i as int],
                );
            }
            i = i + 1;
        }
        Ok(())
    }

    /// Ends every registration and forgets the token, which is returned so
    /// that the caller can have the operating system remove the hook.
    pub fn unhook(&mut self, registry: &mut Registry) -> (token: HookToken)
        requires
            old(self).wf(),
            old(self).token() is Some,
        ensures
            final(self).wf(),
            final(self).hid_type() == old(self).hid_type(),
            old(self).token() == Some(token),
            final(self).token() is None,
            final(self).keys() == Seq::<u64>::empty(),
            releases_all(
                old(registry).live(old(self).hid_type()),
                final(registry).live(old(self).hid_type()),
                old(self).keys(),
            ),
            final(registry).live(old(self).hid_type().other()) == old(registry).live(
                old(self).hid_type().other(),
            ),
    {
        self.clear_global_callbacks(registry);
        assert(self.callbacks.len() == self.keys().len());
        let token = self.raw.unwrap();
        self.raw = None;
        token
    }

    /// Ends every registration. The hook stays installed or not, as it was.
    pub fn clear_global_callbacks(&mut self, registry: &mut Registry)
        requires
            old(self).wf(),
        ensures
            final(self).wf(),
            final(self).hid_type() == old(self).hid_type(),
            final(self).token() == old(self).token(),
            final(self).keys() == Seq::<u64>::empty(),
            releases_all(
                old(registry).live(old(self).hid_type()),
                final(registry).live(old(self).hid_type()),
                old(self).keys(),
            ),
            final(registry).live(old(self).hid_type().other()) == old(registry).live(
                old(self).hid_type().other(),
            ),
    {
        while self.callbacks.len() > 0
            invariant
                self.wf(),
                self.hid_type() == old(self).hid_type(),
                self.token() == old(self).token(),
                self.keys().len() <= old(self).keys().len(),
                self.keys() == old(self).keys().take(self.keys().len() as int),
                registry.live(old(self).hid_type()) == old(registry).live(
                    old(self).hid_type(),
                ).remove_keys(old(self).keys().skip(self.keys().len() as int).to_set()),
                registry.live(old(self).hid_type().other()) == old(registry).live(
                    old(self).hid_type().other(),
                ),
            decreases self.callbacks.len(),
        {
            let ghost before = registry.live(self.hid_type);
            let ghost rest = self.keys().len() - 1;
            let ghost held = self.keys();
            let handle = self.callbacks.pop().unwrap();
            handle.release(registry);
            proof {
                let all = old(self).keys();
                assert(held[rest] == all.take(rest + 1)[rest]);
                lemma_releases_one_more(old(registry).live(self.hid_type), before, all, rest);
            }
        }
        assert(old(self).keys().skip(0) == old(self).keys());
    }
}

} // verus!
