//! What holds of every run of the registry and the lifecycle, proved from
//! the steps of [`crate::model`].
use crate::callback::HidCallback;
use crate::error::Error;
use crate::hid_type::HidType;
use crate::hook::HookRequest;
use crate::hook::HookToken;
use crate::model::registers;
use crate::model::registers_all;
use crate::model::releases_all;
use crate::model::Lifecycle;
use vstd::prelude::*;

verus! {

/// No key of `left` is a key of `right`.
pub open spec fn disjoint(left: Seq<u64>, right: Seq<u64>) -> bool {
    forall|i: int, j: int|
        0 <= i < left.len() && 0 <= j < right.len() ==> #[trigger] left[i] != #[trigger] right[j]
}

/// Registering never overwrites: every earlier registration is still there
/// with its callback, and the table has grown by exactly one.
pub proof fn theorem_insert_keeps_entries(
    pre: Map<u64, HidCallback>,
    post: Map<u64, HidCallback>,
    key: u64,
    callback: HidCallback,
)
    requires
        pre.dom().finite(),
        registers(pre, post, key, callback),
    ensures
        post.dom().finite(),
        post.len() == pre.len() + 1,
        post.contains_key(key) && post[key] == callback,
        forall|other: u64| #[trigger]
            pre.contains_key(other) ==> post.contains_key(other) && post[other] == pre[other],
{
}

/// Removing a key that is not registered changes nothing.
pub proof fn theorem_remove_absent_is_noop(pre: Map<u64, HidCallback>, key: u64)
    requires
        !pre.contains_key(key),
    ensures
        pre.remove(key) == pre,
{
}

/// A registration ends by removing its key, and removing it once more
/// changes nothing.
pub proof fn theorem_remove_twice(pre: Map<u64, HidCallback>, key: u64)
    ensures
        !pre.remove(key).contains_key(key),
        pre.remove(key).remove(key) == pre.remove(key),
{
}

/// A new monitor is well formed, and attached to whatever the registry
/// holds: it has no registration.
pub proof fn theorem_idle_is_wf(live: Map<u64, HidCallback>)
    ensures
        Lifecycle::idle().wf(),
        Lifecycle::idle().attached(live),
{
}

/// Every step of the lifecycle keeps a state well formed.
pub proof fn theorem_steps_keep_wf(
    pre: Lifecycle,
    live: Map<u64, HidCallback>,
    next: Lifecycle,
    next_live: Map<u64, HidCallback>,
)
    requires
        pre.wf(),
        pre.step(live, next, next_live),
    ensures
        next.wf(),
{
}

/// Every step that a monitor takes leaves it attached to the registry: each
/// of its registrations is live, under its own key and with the callback it
/// was made for.
pub proof fn theorem_steps_keep_attached(
    pre: Lifecycle,
    live: Map<u64, HidCallback>,
    next: Lifecycle,
    next_live: Map<u64, HidCallback>,
)
    requires
        pre.wf(),
        pre.attached(live),
        pre.step(live, next, next_live),
    ensures
        next.attached(next_live),
{
    if pre.installed() && exists|callback: HidCallback| #[trigger]
        pre.add_step(live, callback, next, next_live) {
        assert forall|i: int| 0 <= i < next.keys.len() implies next_live.contains_key(
            #[trigger] next.keys[i],
        ) && next_live[next.keys[i]] == next.known[i] by {
            if i < pre.keys.len() {
                assert(next.keys[i] == next.keys.drop_last()[i]);
                assert(live.contains_key(pre.keys[i]));
            }
        }
        assert forall|i: int, j: int| 0 <= i < j < next.keys.len() implies next.keys[i]
            != next.keys[j] by {
            assert(next.keys[i] == next.keys.drop_last()[i]);
            assert(live.contains_key(pre.keys[i]));
            if j < pre.keys.len() {
                assert(next.keys[j] == next.keys.drop_last()[j]);
            }
        }
    }
}

/// Enabling twice installs once: after an installation has succeeded,
/// enabling again asks nothing of the operating system, so the
/// registrations stay as the first call left them.
pub proof fn theorem_enable_is_idempotent(
    pre: Lifecycle,
    live: Map<u64, HidCallback>,
    token: HookToken,
    next: Lifecycle,
    next_live: Map<u64, HidCallback>,
    hid_type: HidType,
)
    requires
        !pre.installed(),
        pre.install_step(live, Ok(token), next, next_live),
    ensures
        pre.enable_request(hid_type) == HookRequest::Install(hid_type),
        next.installed(),
        next.enable_request(hid_type) == HookRequest::Nothing,
{
}

/// Disabling while no hook is installed asks nothing of the operating system
/// and changes nothing. So does disabling a second time.
pub proof fn theorem_disable_is_idempotent(
    pre: Lifecycle,
    live: Map<u64, HidCallback>,
    next: Lifecycle,
    next_live: Map<u64, HidCallback>,
)
    requires
        pre.wf(),
        pre.disable_step(live, next, next_live),
    ensures
        !pre.installed() ==> pre.disable_request() == HookRequest::Nothing,
        !pre.installed() ==> next == pre && next_live == live,
        next.disable_request() == HookRequest::Nothing,
        next.disable_step(next_live, next, next_live),
{
    assert(Seq::<u64>::empty().to_set() =~= Set::<u64>::empty());
    assert(next_live.remove_keys(Set::<u64>::empty()) =~= next_live);
    if !pre.installed() {
        assert(pre.keys =~= Seq::<u64>::empty());
    }
}

/// After an installation has succeeded, every callback that the monitor
/// knows is live under a key of its own.
pub proof fn theorem_enable_activates_known(
    pre: Lifecycle,
    live: Map<u64, HidCallback>,
    token: HookToken,
    next: Lifecycle,
    next_live: Map<u64, HidCallback>,
)
    requires
        pre.install_step(live, Ok(token), next, next_live),
    ensures
        next.attached(next_live),
        next.keys.len() == pre.known.len(),
        forall|i: int|
            0 <= i < pre.known.len() ==> next_live.contains_key(#[trigger] next.keys[i])
                && next_live[next.keys[i]] == pre.known[i],
{
}

/// Enable, disable, enable: after the disabling the registry is what it was
/// before the first enabling, so it holds none of the monitor's
/// registrations; the second enabling asks for an installation again, and
/// when that succeeds every known callback is live once more.
pub proof fn theorem_round_trip(
    start: Lifecycle,
    live: Map<u64, HidCallback>,
    first: HookToken,
    enabled: Lifecycle,
    enabled_live: Map<u64, HidCallback>,
    disabled: Lifecycle,
    disabled_live: Map<u64, HidCallback>,
    second: HookToken,
    again: Lifecycle,
    again_live: Map<u64, HidCallback>,
    hid_type: HidType,
)
    requires
        !start.installed(),
        start.install_step(live, Ok(first), enabled, enabled_live),
        enabled.disable_step(enabled_live, disabled, disabled_live),
        disabled.install_step(disabled_live, Ok(second), again, again_live),
    ensures
        enabled.disable_request() == HookRequest::Uninstall(first),
        disabled_live == live,
        forall|i: int|
            0 <= i < enabled.keys.len() ==> !disabled_live.contains_key(#[trigger] enabled.keys[i]),
        disabled.enable_request(hid_type) == HookRequest::Install(hid_type),
        again.installed(),
        again.known == start.known,
        again.attached(again_live),
        again.keys.len() == start.known.len(),
{
    lemma_release_undoes_register(live, enabled_live, enabled.keys, start.known, disabled_live);
}

/// Releasing the keys under which callbacks were registered gives back the
/// table from before.
pub proof fn lemma_release_undoes_register(
    pre: Map<u64, HidCallback>,
    mid: Map<u64, HidCallback>,
    keys: Seq<u64>,
    callbacks: Seq<HidCallback>,
    post: Map<u64, HidCallback>,
)
    requires
        registers_all(pre, mid, keys, callbacks),
        releases_all(mid, post, keys),
    ensures
        post == pre,
{
    assert forall|key: u64| post.contains_key(key) <==> pre.contains_key(key) by {
        if pre.contains_key(key) && keys.contains(key) {
            let at = choose|at: int| 0 <= at < keys.len() && keys[at] == key;
            assert(!pre.contains_key(keys[at]));
        }
    }
    assert(post =~= pre);
}

/// A callback added while the hook is installed is live when the call
/// returns, under the newest key of the monitor.
pub proof fn theorem_add_while_installed_is_live(
    pre: Lifecycle,
    live: Map<u64, HidCallback>,
    callback: HidCallback,
    next: Lifecycle,
    next_live: Map<u64, HidCallback>,
)
    requires
        pre.installed(),
        pre.add_step(live, callback, next, next_live),
    ensures
        next.known.last() == callback,
        !live.contains_key(next.keys.last()),
        next_live.contains_key(next.keys.last()),
        next_live[next.keys.last()] == callback,
{
}

/// A callback added while no hook is installed is not registered: the
/// registry stays as it was. It goes live when an installation next
/// succeeds.
pub proof fn theorem_add_while_uninstalled_waits(
    pre: Lifecycle,
    live: Map<u64, HidCallback>,
    callback: HidCallback,
    added: Lifecycle,
    added_live: Map<u64, HidCallback>,
    token: HookToken,
    enabled: Lifecycle,
    enabled_live: Map<u64, HidCallback>,
)
    requires
        pre.wf(),
        !pre.installed(),
        pre.add_step(live, callback, added, added_live),
        added.install_step(added_live, Ok(token), enabled, enabled_live),
    ensures
        added_live == live,
        added.keys.len() == 0,
        enabled.keys.len() == pre.known.len() + 1,
        enabled_live.contains_key(enabled.keys.last()),
        enabled_live[enabled.keys.last()] == callback,
{
    let last = enabled.keys.len() - 1;
    assert(added.known[last] == callback);
}

/// The registrations of one monitor stay live, each under its key and with
/// its callback, whatever step another monitor takes on the same registry,
/// as long as the two own different keys. The keys that the other monitor
/// owns afterwards are again different from the first monitor's.
pub proof fn theorem_other_monitor_steps_leave_registrations(
    bystander: Lifecycle,
    actor: Lifecycle,
    live: Map<u64, HidCallback>,
    next: Lifecycle,
    next_live: Map<u64, HidCallback>,
)
    requires
        bystander.attached(live),
        disjoint(actor.keys, bystander.keys),
        actor.wf(),
        actor.step(live, next, next_live),
    ensures
        bystander.attached(next_live),
        disjoint(next.keys, bystander.keys),
{
    assert forall|j: int| 0 <= j < bystander.keys.len() implies next_live.contains_key(
        #[trigger] bystander.keys[j],
    ) && next_live[bystander.keys[j]] == bystander.known[j] by {
        let key = bystander.keys[j];
        assert(live.contains_key(key));
        if actor.keys.contains(key) {
            let at = choose|at: int| 0 <= at < actor.keys.len() && actor.keys[at] == key;
            assert(actor.keys[at] != bystander.keys[j]);
        }
    }
    assert forall|i: int, j: int|
        0 <= i < next.keys.len() && 0 <= j < bystander.keys.len() implies #[trigger] next.keys[i]
        != #[trigger] bystander.keys[j] by {
        assert(live.contains_key(bystander.keys[j]));
        if actor.installed() && i < actor.keys.len() && exists|callback: HidCallback| #[trigger]
            actor.add_step(live, callback, next, next_live) {
            assert(next.keys[i] == next.keys.drop_last()[i]);
        }
    }
}

/// Two monitors on one registry: when both have been enabled, the callbacks
/// of both are live, so an event reaches both. Disabling the first ends its
/// registrations and leaves those of the second as they were.
pub proof fn theorem_monitors_are_isolated(
    first: Lifecycle,
    second: Lifecycle,
    live: Map<u64, HidCallback>,
    first_token: HookToken,
    first_enabled: Lifecycle,
    one_live: Map<u64, HidCallback>,
    second_token: HookToken,
    second_enabled: Lifecycle,
    both_live: Map<u64, HidCallback>,
    first_disabled: Lifecycle,
    rest_live: Map<u64, HidCallback>,
)
    requires
        first.wf(),
        !first.installed(),
        second.wf(),
        !second.installed(),
        first.install_step(live, Ok(first_token), first_enabled, one_live),
        second.install_step(one_live, Ok(second_token), second_enabled, both_live),
        first_enabled.disable_step(both_live, first_disabled, rest_live),
    ensures
        first_enabled.attached(both_live),
        second_enabled.attached(both_live),
        disjoint(first_enabled.keys, second_enabled.keys),
        second_enabled.attached(rest_live),
        forall|i: int|
            0 <= i < first_enabled.keys.len() ==> !rest_live.contains_key(
                #[trigger] first_enabled.keys[i],
            ),
{
    assert(first.install_step(live, Ok::<HookToken, Error>(first_token), first_enabled, one_live));
    assert(second.install_step(
        one_live,
        Ok::<HookToken, Error>(second_token),
        second_enabled,
        both_live,
    ));
    theorem_steps_keep_wf(first, live, first_enabled, one_live);
    theorem_enable_activates_known(first, live, first_token, first_enabled, one_live);
    theorem_other_monitor_steps_leave_registrations(
        first_enabled,
        second,
        one_live,
        second_enabled,
        both_live,
    );
    theorem_enable_activates_known(second, one_live, second_token, second_enabled, both_live);
    theorem_other_monitor_steps_leave_registrations(
        second_enabled,
        first_enabled,
        both_live,
        first_disabled,
        rest_live,
    );
    assert forall|i: int| 0 <= i < first_enabled.keys.len() implies !rest_live.contains_key(
        #[trigger] first_enabled.keys[i],
    ) by {
        assert(first_enabled.keys.contains(first_enabled.keys[i]));
    }
}

} // verus!
