//! The state of the library as its contracts see it, and the steps that the
//! lifecycle functions take on it.
use crate::callback::HidCallback;
use crate::error::Error;
use crate::hid_type::HidType;
use crate::hook::HookRequest;
use crate::hook::HookToken;
use vstd::prelude::*;

verus! {

/// `post` is `pre` with `callback` registered under `key`, which was vacant.
pub open spec fn registers(
    pre: Map<u64, HidCallback>,
    post: Map<u64, HidCallback>,
    key: u64,
    callback: HidCallback,
) -> bool {
    &&& !pre.contains_key(key)
    &&& post == pre.insert(key, callback)
}

/// `post` is `pre` with each of `callbacks` registered under the key at the
/// same position of `keys`. The keys were vacant and differ from one another,
/// and what `pre` held is kept as it was.
pub open spec fn registers_all(
    pre: Map<u64, HidCallback>,
    post: Map<u64, HidCallback>,
    keys: Seq<u64>,
    callbacks: Seq<HidCallback>,
) -> bool {
    &&& keys.len() == callbacks.len()
    &&& keys.no_duplicates()
    &&& forall|i: int|
        0 <= i < keys.len() ==> !pre.contains_key(#[trigger] keys[i]) && post.contains_key(keys[i])
            && post[keys[i]] == callbacks[i]
    &&& forall|key: u64| #[trigger]
        pre.contains_key(key) ==> post.contains_key(key) && post[key] == pre[key]
    &&& forall|key: u64| #[trigger]
        post.contains_key(key) ==> pre.contains_key(key) || keys.contains(key)
}

/// Registering one more callback under a vacant key extends what
/// [`registers_all`] says.
pub proof fn lemma_registers_one_more(
    pre: Map<u64, HidCallback>,
    mid: Map<u64, HidCallback>,
    post: Map<u64, HidCallback>,
    keys: Seq<u64>,
    callbacks: Seq<HidCallback>,
    key: u64,
    callback: HidCallback,
)
    requires
        registers_all(pre, mid, keys, callbacks),
        registers(mid, post, key, callback),
    ensures
        registers_all(pre, post, keys.push(key), callbacks.push(callback)),
{
    let more = keys.push(key);
    assert forall|i: int| 0 <= i < more.len() implies !pre.contains_key(#[trigger] more[i])
        && post.contains_key(more[i]) && post[more[i]] == callbacks.push(callback)[i] by {}
    assert forall|k: u64| #[trigger] post.contains_key(k) implies pre.contains_key(k)
        || more.contains(k) by {
        if k == key {
            assert(more[keys.len() as int] == k);
        } else if !pre.contains_key(k) {
            let at = choose|at: int| 0 <= at < keys.len() && keys[at] == k;
            assert(more[at] == k);
        }
    }
    assert forall|i: int, j: int| 0 <= i < j < more.len() implies more[i] != more[j] by {}
}

/// `post` is `pre` without the registrations under `keys`.
pub open spec fn releases_all(
    pre: Map<u64, HidCallback>,
    post: Map<u64, HidCallback>,
    keys: Seq<u64>,
) -> bool {
    post == pre.remove_keys(keys.to_set())
}

/// Ending the registration under `keys[from]` extends what has been released
/// from the keys after `from` to the keys from `from` on.
pub proof fn lemma_releases_one_more(
    pre: Map<u64, HidCallback>,
    mid: Map<u64, HidCallback>,
    keys: Seq<u64>,
    from: int,
)
    requires
        0 <= from < keys.len(),
        releases_all(pre, mid, keys.skip(from + 1)),
    ensures
        releases_all(pre, mid.remove(keys[from]), keys.skip(from)),
{
    let tail = keys.skip(from + 1);
    let wider = keys.skip(from);
    assert forall|key: u64| wider.contains(key) <==> tail.contains(key) || key == keys[from] by {
        if wider.contains(key) {
            let at = choose|at: int| 0 <= at < wider.len() && wider[at] == key;
            if at > 0 {
                assert(tail[at - 1] == key);
            }
        }
        if tail.contains(key) {
            let at = choose|at: int| 0 <= at < tail.len() && tail[at] == key;
            assert(wider[at + 1] == key);
        }
        if key == keys[from] {
            assert(wider[0] == key);
        }
    }
    assert(mid.remove(keys[from]) =~= pre.remove_keys(wider.to_set()));
}

/// One monitor's state for one device kind.
pub struct Lifecycle {
    /// The token of the installed hook, if one is installed.
    pub token: Option<HookToken>,
    /// The callbacks that the monitor knows, in the order they were added.
    pub known: Seq<HidCallback>,
    /// The registry keys of the monitor's live registrations.
    pub keys: Seq<u64>,
}

impl Lifecycle {
    /// The state of a new monitor: no hook, no callback.
    pub open spec fn idle() -> Lifecycle {
        Lifecycle { token: None, known: Seq::empty(), keys: Seq::empty() }
    }

    /// Whether the hook is installed.
    pub open spec fn installed(self) -> bool {
        self.token is Some
    }

    /// While the hook is installed every known callback has a registration,
    /// and while it is not there is none.
    pub open spec fn wf(self) -> bool {
        if self.installed() {
            self.keys.len() == self.known.len()
        } else {
            self.keys.len() == 0
        }
    }

    /// Every registration of the monitor is in `live`, under its own key and
    /// with the callback it was made for.
    pub open spec fn attached(self, live: Map<u64, HidCallback>) -> bool {
        &&& self.keys.len() <= self.known.len()
        &&& self.keys.no_duplicates()
        &&& forall|i: int|
            0 <= i < self.keys.len() ==> live.contains_key(#[trigger] self.keys[i])
                && live[self.keys[i]] == self.known[i]
    }

    /// What enabling asks of the operating system: an installation, unless
    /// the hook is installed already.
    pub open spec fn enable_request(self, hid_type: HidType) -> HookRequest {
        if self.installed() {
            HookRequest::Nothing
        } else {
            HookRequest::Install(hid_type)
        }
    }

    /// What disabling asks of the operating system: the removal of the
    /// installed hook, if there is one.
    pub open spec fn disable_request(self) -> HookRequest {
        match self.token {
            Some(token) => HookRequest::Uninstall(token),
            None => HookRequest::Nothing,
        }
    }

    /// The step taken when the operating system has answered a request to
    /// install. On success the token is kept and every known callback is
    /// registered; on failure nothing changes.
    pub open spec fn install_step(
        self,
        live: Map<u64, HidCallback>,
        installed: Result<HookToken, Error>,
        next: Lifecycle,
        next_live: Map<u64, HidCallback>,
    ) -> bool {
        match installed {
            Ok(token) => {
                &&& next.token == Some(token)
                &&& next.known == self.known
                &&& registers_all(live, next_live, next.keys, self.known)
            },
            Err(_) => next == self && next_live == live,
        }
    }

    /// The step taken by disabling: every registration ends and the hook
    /// counts as removed. The known callbacks stay known.
    pub open spec fn disable_step(
        self,
        live: Map<u64, HidCallback>,
        next: Lifecycle,
        next_live: Map<u64, HidCallback>,
    ) -> bool {
        &&& next.token is None
        &&& next.known == self.known
        &&& next.keys == Seq::<u64>::empty()
        &&& releases_all(live, next_live, self.keys)
    }

    /// The step taken by adding a callback: it becomes known, and live at
    /// once if the hook is installed.
    pub open spec fn add_step(
        self,
        live: Map<u64, HidCallback>,
        callback: HidCallback,
        next: Lifecycle,
        next_live: Map<u64, HidCallback>,
    ) -> bool {
        &&& next.token == self.token
        &&& next.known == self.known.push(callback)
        &&& if self.installed() {
            &&& next.keys.len() == self.keys.len() + 1
            &&& next.keys.drop_last() == self.keys
            &&& registers(live, next_live, next.keys.last(), callback)
        } else {
            &&& next.keys == self.keys
            &&& next_live == live
        }
    }

    /// The step taken by clearing: every registration ends and no callback
    /// stays known. The hook stays as it was.
    pub open spec fn clear_step(
        self,
        live: Map<u64, HidCallback>,
        next: Lifecycle,
        next_live: Map<u64, HidCallback>,
    ) -> bool {
        &&& next.token == self.token
        &&& next.known == Seq::<HidCallback>::empty()
        &&& next.keys == Seq::<u64>::empty()
        &&& releases_all(live, next_live, self.keys)
    }

    /// Any step that a monitor can take: the answer to a request to install
    /// while no hook is installed, disabling, adding a callback, or clearing.
    pub open spec fn step(
        self,
        live: Map<u64, HidCallback>,
        next: Lifecycle,
        next_live: Map<u64, HidCallback>,
    ) -> bool {
        ||| !self.installed() && exists|installed: Result<HookToken, Error>| #[trigger]
            self.install_step(live, installed, next, next_live)
        ||| self.disable_step(live, next, next_live)
        ||| exists|callback: HidCallback| #[trigger]
            self.add_step(live, callback, next, next_live)
        ||| self.clear_step(live, next, next_live)
    }
}

} // verus!
