use crate::callback::HidCallback;
use crate::hid_type::HidType;
use std::collections::HashMap;
use vstd::prelude::*;
use vstd::std_specs::iter::IteratorSpec;

verus! {

broadcast use vstd::std_specs::hash::group_hash_axioms;

/// How often [`Registry::insert`] draws a random key before it falls back on
/// [`Registry::first_vacant`].
pub const RANDOM_DRAWS: u64 = u64::MAX;

/// A random 64-bit key.
///
/// Calls `rand::random`, which draws from the thread's generator. Nothing
/// is promised of the value: every `u64` may come back, and two calls may
/// give the same. The generator panics if the operating system cannot seed
/// it when a thread first uses it.
#[verifier::external_body]
fn random_key() -> u64 {
    rand::random::<u64>()
}

/// The live callbacks of a process: one table per device kind, from an opaque
/// key to the callback registered under it.
///
/// A key stands for one registration while it lasts. It may be handed out
/// again after the registration has ended.
pub struct Registry {
    keybd: HashMap<u64, HidCallback>,
    mouse: HashMap<u64, HidCallback>,
}

impl Registry {
    /// The table of one device kind.
    pub closed spec fn live(self, hid_type: HidType) -> Map<u64, HidCallback> {
        match hid_type {
            HidType::Keyboard => self.keybd@,
            HidType::Mouse => self.mouse@,
        }
    }

    /// A registry with no registration.
    pub fn new() -> (registry: Self)
        ensures
            registry.live(HidType::Keyboard) == Map::<u64, HidCallback>::empty(),
            registry.live(HidType::Mouse) == Map::<u64, HidCallback>::empty(),
    {
        Registry { keybd: HashMap::new(), mouse: HashMap::new() }
    }

    /// The number of live registrations of one device kind.
    pub fn len(&self, hid_type: HidType) -> (count: usize)
        ensures
            self.live(hid_type).dom().finite(),
            count == self.live(hid_type).len(),
    {
        match hid_type {
            HidType::Keyboard => self.keybd.len(),
            HidType::Mouse => self.mouse.len(),
        }
    }

    /// Whether a key is taken.
    pub fn contains(&self, hid_type: HidType, key: u64) -> (taken: bool)
        ensures
            taken == self.live(hid_type).contains_key(key),
    {
        match hid_type {
            HidType::Keyboard => self.keybd.contains_key(&key),
            HidType::Mouse => self.mouse.contains_key(&key),
        }
    }

    /// Registers `callback` under `key` if the key is vacant, and hands the
    /// callback back if it is taken. An entry is never overwritten.
    pub fn insert_at(
        &mut self,
        hid_type: HidType,
        key: u64,
        callback: HidCallback,
    ) -> (rejected: Option<HidCallback>)
        ensures
            final(self).live(hid_type.other()) == old(self).live(hid_type.other()),
            old(self).live(hid_type).contains_key(key) ==> rejected == Some(callback),
            old(self).live(hid_type).contains_key(key)
                ==> final(self).live(hid_type) == old(self).live(hid_type),
            !old(self).live(hid_type).contains_key(key) ==> rejected is None,
            !old(self).live(hid_type).contains_key(key)
                ==> final(self).live(hid_type) == old(self).live(hid_type).insert(key, callback),
    {
        if self.contains(hid_type, key) {
            return Some(callback);
        }
        match hid_type {
            HidType::Keyboard => {
                self.keybd.insert(key, callback);
            },
            HidType::Mouse => {
                self.mouse.insert(key, callback);
            },
        }
        None
    }

    /// The least key that is vacant.
    pub fn first_vacant(&self, hid_type: HidType) -> (key: u64)
        ensures
            !self.live(hid_type).contains_key(key),
            forall|below: u64| below < key ==> self.live(hid_type).contains_key(below),
    {
        let count = self.len(hid_type);
        let mut key: u64 = 0;
        while self.contains(hid_type, key)
            invariant
                count == self.live(hid_type).len(),
                self.live(hid_type).dom().finite(),
                key <= count,
                forall|below: u64| below < key ==> self.live(hid_type).contains_key(below),
            decreases count - key,
        {
            proof {
                lemma_prefix_fits(self.live(hid_type).dom(), (key + 1) as nat);
            }
            key = key + 1;
        }
        key
    }

    /// Registers `callback` under a key that was vacant, and returns the key.
    ///
    /// Keys are drawn at random until one is vacant. After [`RANDOM_DRAWS`]
    /// draws that all hit a taken key, the least vacant key is used, so that
    /// the call returns on every registry.
    pub fn insert(&mut self, hid_type: HidType, callback: HidCallback) -> (key: u64)
        ensures
            !old(self).live(hid_type).contains_key(key),
            final(self).live(hid_type) == old(self).live(hid_type).insert(key, callback),
            final(self).live(hid_type.other()) == old(self).live(hid_type.other()),
    {
        let mut pending = callback;
        let mut draws: u64 = 0;
        while draws < RANDOM_DRAWS
            invariant
                self.live(hid_type) == old(self).live(hid_type),
                self.live(hid_type.other()) == old(self).live(hid_type.other()),
                pending == callback,
            decreases RANDOM_DRAWS - draws,
        {
            let key = random_key();
            match self.insert_at(hid_type, key, pending) {
                None => {
                    return key;
                },
                Some(rejected) => {
                    pending = rejected;
                },
            }
            draws = draws + 1;
        }
        let key = self.first_vacant(hid_type);
        self.insert_at(hid_type, key, pending);
        key
    }

    /// The live registrations of one device kind, copied out: each key once,
    /// with its callback, in no particular order.
    pub fn snapshot(&self, hid_type: HidType) -> (entries: Vec<(u64, HidCallback)>)
        ensures
            entries.len() == self.live(hid_type).len(),
            forall|i: int|
                0 <= i < entries.len() ==> self.live(hid_type).contains_key(
                    (#[trigger] entries[i]).0,
                ) && self.live(hid_type)[entries[i].0] == entries[i].1,
            forall|i: int, j: int|
                0 <= i < j < entries.len() ==> (#[trigger] entries[i]).0 != (#[trigger] entries[j]).0,
            forall|key: u64| #[trigger]
                self.live(hid_type).contains_key(key) ==> exists|i: int|
                    0 <= i < entries.len() && (#[trigger] entries[i]).0 == key,
    {
        match hid_type {
            HidType::Keyboard => copy_out(&self.keybd),
            HidType::Mouse => copy_out(&self.mouse),
        }
    }

    /// Ends the registration under `key`. Where there is none, nothing happens.
    pub fn remove(&mut self, hid_type: HidType, key: u64)
        ensures
            final(self).live(hid_type) == old(self).live(hid_type).remove(key),
            final(self).live(hid_type.other()) == old(self).live(hid_type.other()),
            !old(self).live(hid_type).contains_key(key)
                ==> final(self).live(hid_type) == old(self).live(hid_type),
    {
        match hid_type {
            HidType::Keyboard => {
                self.keybd.remove(&key);
            },
            HidType::Mouse => {
                self.mouse.remove(&key);
            },
        }
    }
}

/// Copies a table out, entry by entry.
fn copy_out(table: &HashMap<u64, HidCallback>) -> (entries: Vec<(u64, HidCallback)>)
    ensures
        entries.len() == table@.len(),
        forall|i: int|
            0 <= i < entries.len() ==> table@.contains_key((#[trigger] entries[i]).0)
                && table@[entries[i].0] == entries[i].1,
        forall|i: int, j: int|
            0 <= i < j < entries.len() ==> (#[trigger] entries[i]).0 != (#[trigger] entries[j]).0,
        forall|key: u64| #[trigger]
            table@.contains_key(key) ==> exists|i: int|
                0 <= i < entries.len() && (#[trigger] entries[i]).0 == key,
{
    let mut entries: Vec<(u64, HidCallback)> = Vec::new();
    let ghost pairs = table.iter().remaining();
    for pair in it: table.iter()
        invariant
            it.seq() == pairs,
            pairs.no_duplicates(),
            forall|key: u64| #[trigger]
                table@.contains_key(key) ==> pairs.contains((&key, &table@[key])),
            entries.len() == it.index(),
            forall|i: int|
                0 <= i < entries.len() ==> (#[trigger] entries[i]).0 == *it.seq()[i].0
                    && entries[i].1 == *it.seq()[i].1,
    {
        let (key, callback) = pair;
        entries.push((*key, callback.clone()));
    }
    assert forall|key: u64| #[trigger] table@.contains_key(key) implies exists|i: int|
        0 <= i < entries.len() && (#[trigger] entries[i]).0 == key by {
        let pair = (&key, &table@[key]);
        let at = choose|at: int| 0 <= at < pairs.len() && pairs[at] == pair;
        assert(entries[at].0 == key);
    }
    assert forall|i: int, j: int| 0 <= i < j < entries.len() implies (#[trigger] entries[i]).0
        != (#[trigger] entries[j]).0 by {
        if entries[i].0 == entries[j].0 {
            assert(entries[i].1 == table@[entries[i].0] && entries[j].1 == table@[entries[j].0]);
            assert(pairs[i] == pairs[j]);
        }
    }
    entries
}

/// If a finite set of keys holds every key below `bound`, it has at least
/// `bound` elements.
proof fn lemma_prefix_fits(keys: Set<u64>, bound: nat)
    requires
        keys.finite(),
        bound <= u64::MAX + 1,
        forall|below: u64| below < bound ==> keys.contains(below),
    ensures
        bound <= keys.len(),
    decreases bound,
{
    if bound > 0 {
        let last = (bound - 1) as u64;
        lemma_prefix_fits(keys.remove(last), (bound - 1) as nat);
    }
}

} // verus!
