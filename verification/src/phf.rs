//! A compile-time perfect hash map from names to values: the lookup hashes
//! the name with SipHash-1-3, picks a displacement pair by the hash, and
//! probes exactly one entry.

use std::hash::Hasher;
use vstd::prelude::*;

use crate::strings::str_eq;

verus! {

/// SipHash-1-3, keyed with `0` and `key`, of the UTF-8 bytes of `text`, as
/// `siphasher::sip::SipHasher13` computes it.
pub uninterp spec fn sip13_hash(text: Seq<char>, key: u64) -> u64;

/// Hashes the UTF-8 bytes of `x` with `siphasher::sip::SipHasher13`
/// (keys `0` and `key`): `new_with_keys`, one `write` of the bytes, then
/// `finish`. The contract only names the result: it is `sip13_hash` of
/// the text and the key, the same for the same arguments.
#[verifier::external_body]
pub(crate) fn hash(x: &str, key: u64) -> (h: u64)
    ensures
        h == sip13_hash(x@, key),
{
    let mut hasher = siphasher::sip::SipHasher13::new_with_keys(0, key);
    hasher.write(x.as_bytes());
    hasher.finish()
}

/// The three 21-bit fields of a hash, from the lowest bits up.
pub open spec fn spec_split(hash: u64) -> (u32, u32, u32) {
    (
        (hash % 0x20_0000) as u32,
        ((hash / 0x20_0000) % 0x20_0000) as u32,
        ((hash / 0x400_0000_0000) % 0x20_0000) as u32,
    )
}

/// Splits a hash into three 21-bit fields `(g, f1, f2)`.
pub fn split(hash: u64) -> (r: (u32, u32, u32))
    ensures
        r == spec_split(hash),
        r.0 < 0x20_0000 && r.1 < 0x20_0000 && r.2 < 0x20_0000,
{
    let mask: u64 = 0x1f_ffff;
    let g = hash & mask;
    let f1 = (hash >> 21u64) & mask;
    let f2 = (hash >> 42u64) & mask;
    assert(g == hash % 0x20_0000) by (bit_vector)
        requires
            g == hash & mask,
            mask == 0x1f_ffffu64,
    ;
    assert(f1 == (hash / 0x20_0000) % 0x20_0000) by (bit_vector)
        requires
            f1 == (hash >> 21u64) & mask,
            mask == 0x1f_ffffu64,
    ;
    assert(f2 == (hash / 0x400_0000_0000) % 0x20_0000) by (bit_vector)
        requires
            f2 == (hash >> 42u64) & mask,
            mask == 0x1f_ffffu64,
    ;
    (g as u32, f1 as u32, f2 as u32)
}

/// The displaced position `d2 + f1 * d1 + f2`.
pub open spec fn spec_displace(f1: u32, f2: u32, d1: u32, d2: u32) -> int {
    d2 + f1 * d1 + f2
}

/// Computes `d2 + f1 * d1 + f2`.
pub fn displace(f1: u32, f2: u32, d1: u32, d2: u32) -> (r: u32)
    requires
        spec_displace(f1, f2, d1, d2) <= u32::MAX,
    ensures
        r == spec_displace(f1, f2, d1, d2),
{
    assert(0 <= f1 * d1 <= d2 + f1 * d1 + f2) by (nonlinear_arith)
        requires
            d2 + f1 * d1 + f2 <= u32::MAX,
    ;
    d2 + f1 * d1 + f2
}

/// No displacement pair can overflow `displace` for any 21-bit `f1`, `f2`.
pub open spec fn disps_fit(disps: Seq<(u32, u32)>) -> bool {
    forall|i: int|
        0 <= i < disps.len() ==> 0x1f_ffff * (#[trigger] disps[i]).0 + disps[i].1 + 0x1f_ffff
            <= u32::MAX
}

/// The entry index that a hash selects in a table of `len` entries.
pub open spec fn spec_get_index(hash: u64, disps: Seq<(u32, u32)>, len: nat) -> int {
    let (g, f1, f2) = spec_split(hash);
    let d = disps[g as int % disps.len() as int];
    spec_displace(f1, f2, d.0, d.1) % len as int
}

/// Picks the entry index for `hash` in a table of `len` entries.
pub fn get_index(hash: u64, disps: &[(u32, u32)], len: usize) -> (r: u32)
    requires
        0 < disps@.len() <= u32::MAX,
        0 < len <= u32::MAX,
        disps_fit(disps@),
    ensures
        r == spec_get_index(hash, disps@, len as nat),
        r < len,
{
    let (g, f1, f2) = split(hash);
    let n = disps.len() as u32;
    let (d1, d2) = disps[(g % n) as usize];
    proof {
        let d = disps@[(g % n) as int];
        assert(0x1f_ffff * d.0 + d.1 + 0x1f_ffff <= u32::MAX);
        assert(f1 * d1 <= 0x1f_ffff * d1) by (nonlinear_arith)
            requires
                f1 < 0x20_0000,
        ;
    }
    displace(f1, f2, d1, d2) % (len as u32)
}

/// A value that a table holds, with an equality test whose result is
/// spec equality.
pub trait TableValue: Sized + Copy {
    fn same_as(&self, other: &Self) -> (r: bool)
        ensures
            r == (*self == *other),
    ;
}

/// A perfect hash map from `&'static str` names to values.
pub struct NameMap<V: 'static> {
    pub key: u64,
    pub disps: Vec<(u32, u32)>,
    pub entries: Vec<(&'static str, V)>,
}

impl<V: TableValue> NameMap<V> {
    /// The table has displacements and entries, and no lookup can
    /// overflow.
    pub open spec fn wf(&self) -> bool {
        &&& 0 < self.disps@.len() <= u32::MAX
        &&& 0 < self.entries@.len() <= u32::MAX
        &&& disps_fit(self.disps@)
    }

    /// The name of entry `i`.
    pub open spec fn name_at(&self, i: int) -> Seq<char> {
        self.entries@[i].0@
    }

    /// The value of entry `i`.
    pub open spec fn value_at(&self, i: int) -> V {
        self.entries@[i].1
    }

    /// The only entry that a lookup of `text` probes.
    pub open spec fn index_of(&self, text: Seq<char>) -> int {
        spec_get_index(sip13_hash(text, self.key), self.disps@, self.entries@.len())
    }

    /// What a lookup of `text` returns when the name hashes to `h`: the
    /// value of the entry that `h` selects when its name is `text`, else
    /// nothing.
    pub open spec fn lookup_with_hash(&self, text: Seq<char>, h: u64) -> Option<V> {
        let i = spec_get_index(h, self.disps@, self.entries@.len());
        if self.name_at(i) == text {
            Some(self.value_at(i))
        } else {
            None
        }
    }

    /// What a lookup of `text` returns.
    pub open spec fn lookup(&self, text: Seq<char>) -> Option<V> {
        self.lookup_with_hash(text, sip13_hash(text, self.key))
    }

    /// Every entry is found at its own place: the hash parameters are
    /// perfect for the table's names.
    pub open spec fn is_perfect(&self) -> bool {
        forall|i: int| 0 <= i < self.entries@.len() ==> #[trigger] self.index_of(self.name_at(i)) == i
    }

    /// Checks that the hash parameters are perfect for the table's names:
    /// hashes every name and compares the place it selects with its own.
    pub fn check_perfect(&self) -> (r: bool)
        requires
            self.wf(),
        ensures
            r == self.is_perfect(),
    {
        let mut i: usize = 0;
        while i < self.entries.len()
            invariant
                self.wf(),
                i <= self.entries@.len(),
                forall|j: int| 0 <= j < i ==> #[trigger] self.index_of(self.name_at(j)) == j,
            decreases self.entries@.len() - i,
        {
            let h = hash(self.entries[i].0, self.key);
            let index = get_index(h, self.disps.as_slice(), self.entries.len());
            if index as usize != i {
                assert(self.index_of(self.name_at(i as int)) != i);
                return false;
            }
            i += 1;
        }
        true
    }

    /// Looks `key` up.
    pub fn get(&self, key: &str) -> (r: Option<&V>)
        requires
            self.wf(),
        ensures
            r matches Some(v) ==> self.lookup(key@) == Some(*v),
            r is None ==> self.lookup(key@) is None,
    {
        let h = hash(key, self.key);
        self.get_with_hash(key, h)
    }

    /// Looks `key` up, given the hash `h` of `key` under the table's key.
    pub fn get_with_hash(&self, key: &str, h: u64) -> (r: Option<&V>)
        requires
            self.wf(),
        ensures
            r matches Some(v) ==> self.lookup_with_hash(key@, h) == Some(*v),
            r is None ==> self.lookup_with_hash(key@, h) is None,
    {
        let index = get_index(h, self.disps.as_slice(), self.entries.len());
        let entry = &self.entries[index as usize];
        let b = entry.0;
        if str_eq(b, key) {
            Some(&entry.1)
        } else {
            None
        }
    }

    /// The name of the first entry that holds `value`.
    pub fn key(&self, value: &V) -> (r: &'static str)
        requires
            exists|i: int| 0 <= i < self.entries@.len() && self.value_at(i) == *value,
        ensures
            exists|i: int|
                0 <= i < self.entries@.len() && self.value_at(i) == *value && r@ == self.name_at(i)
                    && forall|k: int| 0 <= k < i ==> self.value_at(k) != *value,
    {
        let mut i: usize = 0;
        while i < self.entries.len()
            invariant
                i <= self.entries@.len(),
                exists|j: int| 0 <= j < self.entries@.len() && self.value_at(j) == *value,
                forall|k: int| 0 <= k < i ==> self.value_at(k) != *value,
            decreases self.entries@.len() - i,
        {
            if self.entries[i].1.same_as(value) {
                let r = self.entries[i].0;
                assert(self.value_at(i as int) == *value && r@ == self.name_at(i as int));
                return r;
            }
            i += 1;
        }
        proof {
            let j = choose|j: int| 0 <= j < self.entries@.len() && self.value_at(j) == *value;
            assert(self.value_at(j) != *value);
        }
        self.entries[0].0
    }
}

} // verus!
