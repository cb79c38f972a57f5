//! Stake table snapshots, the node identity registry, and the remapping
//! of a quorum certificate's voter bitmap from stake-table order into
//! identity order.

use vstd::prelude::*;
use crate::bits::VoterBits;
use crate::bits::{bits_of, empty_bits, push_bit, bit_count, bit_at};

verus! {

/// One entry of a stake table snapshot: a validator's key, its stake, and
/// the key it signs light client state with.
pub struct StakeTableEntry {
    pub key: Vec<u8>,
    pub stake: u128,
    pub state_key: Vec<u8>,
}

/// The stake table as currently known.  Only the snapshot taken at the start
/// of the last epoch is read; it is `None` while that snapshot is not
/// available yet.
pub struct StakeTable {
    pub last_epoch_start: Option<Vec<StakeTableEntry>>,
}

/// Descriptive data of one validator, keyed by its public key.
pub struct NodeIdentity {
    pub public_key: Vec<u8>,
    pub name: Option<String>,
}

impl NodeIdentity {
    pub fn public_key(&self) -> (r: &Vec<u8>)
        ensures
            r@ == self.public_key@,
    {
        &self.public_key
    }
}

/// The keys of a snapshot's entries, in the snapshot's order.
pub open spec fn entry_keys(entries: Seq<StakeTableEntry>) -> Seq<Seq<u8>> {
    entries.map_values(|e: StakeTableEntry| e.key@)
}

/// The entries that the snapshot enumerates: none while it is unavailable.
pub open spec fn snapshot_keys(table: StakeTable) -> Seq<Seq<u8>> {
    match table.last_epoch_start {
        Some(entries) => entry_keys(entries@),
        None => Seq::empty(),
    }
}

/// `key` voted: some position within both the bitmap and the key list has
/// its bit set and holds `key`.
pub open spec fn voted(raw: Seq<bool>, keys: Seq<Seq<u8>>, key: Seq<u8>) -> bool {
    exists|j: int| 0 <= j < raw.len() && j < keys.len() && raw[j] && keys[j] == key
}

/// The identity-order bitmap: bit `i` tells whether the `i`-th registered
/// key voted.
pub open spec fn remapped(raw: Seq<bool>, keys: Seq<Seq<u8>>, registry: Seq<Seq<u8>>) -> Seq<bool> {
    Seq::new(registry.len(), |i: int| voted(raw, keys, registry[i]))
}

/// The keys of the registry, in registration order.
pub open spec fn registry_keys(registry: Seq<(Vec<u8>, NodeIdentity)>) -> Seq<Seq<u8>> {
    registry.map_values(|p: (Vec<u8>, NodeIdentity)| p.0@)
}

/// Compares two keys byte by byte.
pub fn keys_equal(a: &Vec<u8>, b: &Vec<u8>) -> (r: bool)
    ensures
        r == (a@ == b@),
{
    if a.len() != b.len() {
        return false;
    }
    let mut i: usize = 0;
    while i < a.len()
        invariant
            a.len() == b.len(),
            i <= a.len(),
            forall|k: int| 0 <= k < i ==> a@[k] == b@[k],
        decreases a.len() - i,
    {
        if a[i] != b[i] {
            return false;
        }
        i = i + 1;
    }
    assert(a@ =~= b@);
    true
}

/// `key` voted among the first `n` positions.
pub open spec fn voted_within(raw: Seq<bool>, keys: Seq<Seq<u8>>, n: int, key: Seq<u8>) -> bool {
    exists|j: int| 0 <= j < n && j < raw.len() && j < keys.len() && raw[j] && keys[j] == key
}

/// `key` is one of the keys that `list` refers to.
pub open spec fn listed(list: Seq<&Vec<u8>>, key: Seq<u8>) -> bool {
    exists|m: int| 0 <= m < list.len() && list[m]@ == key
}

/// Collects the keys of the entries whose paired bit is set, pairing bit `j`
/// with entry `j` up to the shorter of the two.
pub fn keys_that_voted<'a>(raw: &VoterBits, entries: &'a Vec<StakeTableEntry>) -> (r: Vec<&'a Vec<u8>>)
    ensures
        forall|key: Seq<u8>|
            #[trigger] voted(bits_of(*raw), entry_keys(entries@), key) == listed(r@, key),
{
    let ghost raw_bits = bits_of(*raw);
    let ghost keys = entry_keys(entries@);
    let n_bits = bit_count(raw);
    let mut out: Vec<&'a Vec<u8>> = Vec::new();
    let mut j: usize = 0;
    while j < n_bits && j < entries.len()
        invariant
            raw_bits == bits_of(*raw),
            keys == entry_keys(entries@),
            n_bits == raw_bits.len(),
            j <= n_bits,
            j <= entries.len(),
            forall|key: Seq<u8>|
                #[trigger] voted_within(raw_bits, keys, j as int, key) == listed(out@, key),
        decreases entries.len() - j,
    {
        let bit = bit_at(raw, j);
        let ghost before = out@;
        if bit {
            out.push(&entries[j].key);
        }
        assert(keys[j as int] == entries@[j as int].key@);
        assert(bit ==> out@ == before.push(&entries@[j as int].key));
        assert(!bit ==> out@ == before);
        assert forall|key: Seq<u8>|
            #[trigger] voted_within(raw_bits, keys, j + 1, key) == listed(out@, key) by {
            if voted_within(raw_bits, keys, j + 1, key) {
                let k = choose|k: int|
                    0 <= k < j + 1 && k < raw_bits.len() && k < keys.len() && raw_bits[k] && keys[k] == key;
                if k < j {
                    assert(voted_within(raw_bits, keys, j as int, key));
                    let m = choose|m: int| 0 <= m < before.len() && before[m]@ == key;
                    assert(out@[m] == before[m]);
                } else {
                    assert(bit);
                    assert(out@[before.len() as int]@ == key);
                }
            }
            if listed(out@, key) {
                let m = choose|m: int| 0 <= m < out@.len() && out@[m]@ == key;
                if m < before.len() {
                    assert(before[m] == out@[m]);
                    assert(listed(before, key));
                    assert(voted_within(raw_bits, keys, j as int, key));
                    let k = choose|k: int|
                        0 <= k < j && k < raw_bits.len() && k < keys.len() && raw_bits[k] && keys[k] == key;
                    assert(0 <= k < j + 1 && k < raw_bits.len() && k < keys.len() && raw_bits[k] && keys[k] == key);
                } else {
                    assert(raw_bits[j as int] && keys[j as int] == key);
                }
            }
        }
        j = j + 1;
    }
    assert forall|key: Seq<u8>|
        #[trigger] voted(raw_bits, keys, key) == voted_within(raw_bits, keys, j as int, key) by {
        if voted(raw_bits, keys, key) {
            let k = choose|k: int| 0 <= k < raw_bits.len() && k < keys.len() && raw_bits[k] && keys[k] == key;
            assert(k < j);
        }
    }
    out
}

/// Whether `key` is among `set`.
pub fn contains_key(set: &Vec<&Vec<u8>>, key: &Vec<u8>) -> (r: bool)
    ensures
        r == listed(set@, key@),
{
    let mut m: usize = 0;
    while m < set.len()
        invariant
            m <= set.len(),
            forall|k: int| 0 <= k < m ==> (#[trigger] set[k])@ != key@,
        decreases set.len() - m,
    {
        if keys_equal(set[m], key) {
            return true;
        }
        m = m + 1;
    }
    false
}

/// Remaps a voter bitmap in stake-table order into one in identity
/// order: bit `i` of the result is set exactly when the `i`-th registered key
/// is the key of an entry whose paired bit of `raw` is set.  Bits and entries
/// are paired by position up to the shorter of the two; the rest is ignored.
pub fn remap_voters(
    raw: &VoterBits,
    entries: &Vec<StakeTableEntry>,
    registry: &Vec<(Vec<u8>, NodeIdentity)>,
) -> (r: VoterBits)
    ensures
        bits_of(r) == remapped(bits_of(*raw), entry_keys(entries@), registry_keys(registry@)),
{
    let voters = keys_that_voted(raw, entries);
    let ghost keys = entry_keys(entries@);
    let ghost reg = registry_keys(registry@);
    let mut out = empty_bits(registry.len());
    let mut i: usize = 0;
    while i < registry.len()
        invariant
            i <= registry.len(),
            reg == registry_keys(registry@),
            keys == entry_keys(entries@),
            forall|key: Seq<u8>|
                #[trigger] voted(bits_of(*raw), keys, key) == listed(voters@, key),
            bits_of(out) == remapped(bits_of(*raw), keys, reg.take(i as int)),
        decreases registry.len() - i,
    {
        let member = contains_key(&voters, &registry[i].0);
        push_bit(&mut out, member);
        assert(bits_of(out) =~= remapped(bits_of(*raw), keys, reg.take(i + 1)));
        i = i + 1;
    }
    assert(reg.take(i as int) =~= reg);
    out
}

/// With no raw voters, the identity-order bitmap has one bit per registered
/// key, and none is set.
pub proof fn lemma_no_voters(keys: Seq<Seq<u8>>, registry: Seq<Seq<u8>>)
    ensures
        remapped(Seq::<bool>::empty(), keys, registry).len() == registry.len(),
        forall|i: int|
            0 <= i < registry.len() ==> !#[trigger] remapped(Seq::<bool>::empty(), keys, registry)[i],
{
}

/// Bits and entries are paired only over the shorter of the two: cutting
/// both to that length changes nothing.
pub proof fn lemma_pairing_truncated(raw: Seq<bool>, keys: Seq<Seq<u8>>, registry: Seq<Seq<u8>>)
    ensures
        remapped(raw, keys, registry) == remapped(
            raw.take(if raw.len() <= keys.len() { raw.len() as int } else { keys.len() as int }),
            keys.take(if raw.len() <= keys.len() { raw.len() as int } else { keys.len() as int }),
            registry,
        ),
{
    let n = if raw.len() <= keys.len() { raw.len() as int } else { keys.len() as int };
    let raw2 = raw.take(n);
    let keys2 = keys.take(n);
    assert forall|key: Seq<u8>| #[trigger] voted(raw, keys, key) == voted(raw2, keys2, key) by {
        if voted(raw, keys, key) {
            let j = choose|j: int| 0 <= j < raw.len() && j < keys.len() && raw[j] && keys[j] == key;
            assert(raw2[j] && keys2[j] == key);
        }
        if voted(raw2, keys2, key) {
            let j = choose|j: int| 0 <= j < raw2.len() && j < keys2.len() && raw2[j] && keys2[j] == key;
            assert(raw[j] && keys[j] == key);
        }
    }
    assert(remapped(raw, keys, registry) =~= remapped(raw2, keys2, registry));
}

} // verus!
