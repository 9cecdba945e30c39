//! Dictionaries keyed by a participant's public signing key.
//!
//! A dictionary keeps its entries in the order in which their keys first
//! came, and no key occurs twice.

use vstd::prelude::*;
use vstd::std_specs::cmp::{PartialEqSpec, PartialEqSpecImpl};
use crate::bytes::same_bytes;
use crate::crypto::{PublicEncryptKey, PublicSigningKey};
use crate::mask::EncryptedMaskSeed;

verus! {

/// No two entries of the sequence have the same key.
pub open spec fn distinct_keys<V>(entries: Seq<(PublicSigningKey, V)>) -> bool {
    forall|i: int, j: int| 0 <= i < j < entries.len() ==> entries[i].0 != entries[j].0
}

/// No entry of the sequence has the key `key`.
pub open spec fn lacks_key<V>(entries: Seq<(PublicSigningKey, V)>, key: PublicSigningKey) -> bool {
    forall|i: int| 0 <= i < entries.len() ==> (#[trigger] entries[i]).0 != key
}

/// The keys of the entries, in their order.
pub open spec fn spec_keys<V>(entries: Seq<(PublicSigningKey, V)>) -> Seq<PublicSigningKey> {
    Seq::new(entries.len(), |i: int| entries[i].0)
}

/// Whether two keys are the same key.
pub fn same_key(a: &PublicSigningKey, b: &PublicSigningKey) -> (same: bool)
    ensures
        same == (*a == *b),
{
    let same = same_bytes(a.bytes.as_slice(), b.bytes.as_slice());
    proof {
        if same {
            assert(a.bytes =~= b.bytes);
        }
    }
    same
}

/// Whether every entry of `one` is an entry of `other`, with the same
/// key and an equal value.
pub open spec fn spec_entries_within<V: PartialEq>(
    one: Seq<(PublicSigningKey, V)>,
    other: Seq<(PublicSigningKey, V)>,
) -> bool {
    forall|i: int|
        0 <= i < one.len() ==> exists|j: int|
            0 <= j < other.len() && (#[trigger] other[j]).0 == (#[trigger] one[i]).0
                && one[i].1.eq_spec(&other[j].1)
}

/// A dictionary from public signing keys to values of type `V`.
///
/// Two dictionaries are equal when they have as many entries and every
/// entry of the one is an entry of the other, in whatever order the keys
/// came.
#[derive(Debug)]
pub struct Dict<V> {
    entries: Vec<(PublicSigningKey, V)>,
}

/// From sum participants to their ephemeral public keys.
pub type SumDict = Dict<PublicEncryptKey>;

/// From participants to encrypted mask seeds.
pub type SeedDict = Dict<EncryptedMaskSeed>;

/// The seeds one update participant encrypted, by sum participant.
pub type LocalSeedDict = SeedDict;

/// The seeds encrypted for one sum participant, by update participant.
pub type UpdateSeedDict = SeedDict;

impl<V> View for Dict<V> {
    type V = Seq<(PublicSigningKey, V)>;

    closed spec fn view(&self) -> Seq<(PublicSigningKey, V)> {
        self.entries@
    }
}

impl<V> Dict<V> {
    #[verifier::type_invariant]
    closed spec fn keys_are_distinct(&self) -> bool {
        distinct_keys(self.entries@)
    }
}

impl<V: Copy + PartialEq> PartialEq for Dict<V> {
    fn eq(&self, other: &Self) -> (equal: bool) {
        let n = self.len();
        let m = other.len();
        if n != m {
            return false;
        }
        let mut i: usize = 0;
        while i < n
            invariant
                i <= n,
                n == self@.len(),
                distinct_keys(other@),
                V::obeys_eq_spec() ==> spec_entries_within(self@.subrange(0, i as int), other@),
            decreases n - i,
        {
            let entry = self.entry(i);
            let equal = match other.get(&entry.0) {
                Some(value) => entry.1 == value,
                None => false,
            };
            if !equal {
                proof {
                    if V::obeys_eq_spec() && spec_entries_within(self@, other@) {
                        let j = choose|j: int|
                            0 <= j < other@.len() && (#[trigger] other@[j]).0 == self@[i as int].0
                                && self@[i as int].1.eq_spec(&other@[j].1);
                        assert(!lacks_key(other@, entry.0));
                        let k = choose|k: int|
                            0 <= k < other@.len() && other@[k] == (entry.0, other@[k].1)
                                && !entry.1.eq_spec(&other@[k].1);
                        if j < k {
                            assert(other@[j].0 != other@[k].0);
                        } else if k < j {
                            assert(other@[k].0 != other@[j].0);
                        }
                        assert(false);
                    }
                }
                return false;
            }
            proof {
                if V::obeys_eq_spec() {
                    let next = self@.subrange(0, i + 1);
                    assert forall|a: int| 0 <= a < next.len() implies exists|j: int|
                        0 <= j < other@.len() && (#[trigger] other@[j]).0 == (#[trigger] next[a]).0
                            && next[a].1.eq_spec(&other@[j].1) by {
                        if a < i {
                            assert(self@.subrange(0, i as int)[a] == next[a]);
                        }
                    }
                }
            }
            i += 1;
        }
        assert(self@.subrange(0, n as int) =~= self@);
        true
    }
}

impl<V: Copy + PartialEq> PartialEqSpecImpl for Dict<V> {
    open spec fn obeys_eq_spec() -> bool {
        V::obeys_eq_spec()
    }

    open spec fn eq_spec(&self, other: &Self) -> bool {
        self@.len() == other@.len() && spec_entries_within(self@, other@)
    }
}

impl<V: Copy + Eq> Eq for Dict<V> {

}

impl<V: Copy> Clone for Dict<V> {
    /// A dictionary with the same entries in the same order.
    fn clone(&self) -> (copy: Self)
        ensures
            copy@ == self@,
    {
        proof {
            use_type_invariant(self);
        }
        let n = self.entries.len();
        let mut entries: Vec<(PublicSigningKey, V)> = Vec::new();
        let mut i: usize = 0;
        while i < n
            invariant
                i <= n,
                n == self.entries@.len(),
                entries@ == self.entries@.subrange(0, i as int),
            decreases n - i,
        {
            entries.push(self.entries[i]);
            i += 1;
            assert(entries@ =~= self.entries@.subrange(0, i as int));
        }
        assert(entries@ =~= self.entries@);
        Dict { entries }
    }
}

impl<V: Copy> Dict<V> {
    /// The empty dictionary.
    pub fn new() -> (dict: Self)
        ensures
            dict@ == Seq::<(PublicSigningKey, V)>::empty(),
    {
        Dict { entries: Vec::new() }
    }

    /// Number of entries. No key occurs twice among them.
    pub fn len(&self) -> (len: usize)
        ensures
            len == self@.len(),
            distinct_keys(self@),
    {
        proof {
            use_type_invariant(self);
        }
        self.entries.len()
    }

    /// Whether the dictionary has no entry.
    pub fn is_empty(&self) -> (empty: bool)
        ensures
            empty == (self@.len() == 0),
    {
        self.entries.len() == 0
    }

    /// The entry at `index`, counting in the order in which the keys came.
    pub fn entry(&self, index: usize) -> (entry: (PublicSigningKey, V))
        requires
            index < self@.len(),
        ensures
            entry == self@[index as int],
    {
        self.entries[index]
    }

    /// The value under `key`, if the dictionary has that key.
    pub fn get(&self, key: &PublicSigningKey) -> (value: Option<V>)
        ensures
            match value {
                Some(v) => exists|i: int| 0 <= i < self@.len() && self@[i] == (*key, v),
                None => lacks_key(self@, *key),
            },
    {
        let n = self.entries.len();
        let mut i: usize = 0;
        while i < n
            invariant
                i <= n,
                n == self.entries@.len(),
                forall|k: int| 0 <= k < i ==> (#[trigger] self.entries@[k]).0 != *key,
            decreases n - i,
        {
            let entry = self.entries[i];
            if same_key(&entry.0, key) {
                assert(self@[i as int] == (*key, entry.1));
                return Some(entry.1);
            }
            i += 1;
        }
        None
    }

    /// Puts `value` under `key`. A key that the dictionary already has
    /// keeps its place and gets the new value, and the old value is
    /// returned; a new key goes to the end.
    pub fn insert(&mut self, key: PublicSigningKey, value: V) -> (previous: Option<V>)
        ensures
            lacks_key(old(self)@, key) ==> previous is None && final(self)@ == old(self)@.push(
                (key, value),
            ),
            forall|i: int|
                0 <= i < old(self)@.len() && (#[trigger] old(self)@[i]).0 == key ==> previous
                    == Some(old(self)@[i].1) && final(self)@ == old(self)@.update(
                    i,
                    (key, value),
                ),
    {
        proof {
            use_type_invariant(&*self);
        }
        let mut taken = Dict { entries: Vec::new() };
        core::mem::swap(self, &mut taken);
        let mut entries = taken.entries;
        let ghost before = entries@;
        let n = entries.len();
        let mut i: usize = 0;
        while i < n
            invariant
                i <= n,
                n == entries@.len(),
                entries@ == before,
                before == old(self)@,
                distinct_keys(before),
                forall|k: int| 0 <= k < i ==> (#[trigger] before[k]).0 != key,
            decreases n - i,
        {
            let entry = entries[i];
            if same_key(&entry.0, &key) {
                entries[i] = (key, value);
                proof {
                    assert(entries@ =~= before.update(i as int, (key, value)));
                    assert forall|a: int, b: int| 0 <= a < b < entries@.len() implies entries@[a].0
                        != entries@[b].0 by {
                        assert(before[a].0 != before[b].0);
                    }
                    assert forall|k: int| 0 <= k < before.len() && (#[trigger] before[k]).0
                        == key implies k == i by {
                        if k < i {
                            assert(before[k].0 != before[i as int].0);
                        } else if k > i {
                            assert(before[i as int].0 != before[k].0);
                        }
                    }
                }
                *self = Dict { entries };
                return Some(entry.1);
            }
            i += 1;
        }
        entries.push((key, value));
        proof {
            assert forall|a: int, b: int| 0 <= a < b < entries@.len() implies entries@[a].0
                != entries@[b].0 by {
                if b < n {
                    assert(before[a].0 != before[b].0);
                } else {
                    assert(before[a].0 != key);
                }
            }
        }
        *self = Dict { entries };
        None
    }
}

} // verus!
