//! The in-memory key/value mapping owned by the host-function table's
//! handler state.
//!
//! Bindings are appended; the latest binding for a key is authoritative,
//! so the store behaves as a map from byte-sequence keys to byte-sequence
//! values.  It lives exactly as long as its session.

use vstd::prelude::*;

verus! {

/// The value bound to `k` in the binding sequence `s`, the latest binding
/// winning.
pub open spec fn kv_lookup(s: Seq<(Vec<u8>, Vec<u8>)>, k: Seq<u8>) -> Option<Seq<u8>>
    decreases s.len(),
{
    if s.len() == 0 {
        None
    } else if s.last().0@ == k {
        Some(s.last().1@)
    } else {
        kv_lookup(s.drop_last(), k)
    }
}

pub struct KvStore {
    entries: Vec<(Vec<u8>, Vec<u8>)>,
}

impl KvStore {
    /// The binding sequence, oldest first.
    pub closed spec fn entries_seq(&self) -> Seq<(Vec<u8>, Vec<u8>)> {
        self.entries@
    }

    /// The value bound to `k`, if any.
    pub open spec fn lookup(&self, k: Seq<u8>) -> Option<Seq<u8>> {
        kv_lookup(self.entries_seq(), k)
    }

    /// An empty store: no key is bound.
    pub fn new() -> (s: KvStore)
        ensures
            forall|k: Seq<u8>| #[trigger] s.lookup(k) is None,
    {
        let s = KvStore { entries: Vec::new() };
        proof {
            assert forall|k: Seq<u8>| #[trigger] s.lookup(k) is None by {
                assert(s.entries_seq().len() == 0);
            }
        }
        s
    }

    /// Binds `key` to `value`, replacing any earlier binding.
    pub fn insert(&mut self, key: Vec<u8>, value: Vec<u8>)
        ensures
            forall|k: Seq<u8>|
                #[trigger] final(self).lookup(k) == if k == key@ {
                    Some(value@)
                } else {
                    old(self).lookup(k)
                },
    {
        let ghost before = self.entries@;
        self.entries.push((key, value));
        proof {
            let after = self.entries@;
            assert(after.drop_last() =~= before);
            assert forall|k: Seq<u8>|
                #[trigger] self.lookup(k) == if k == after.last().0@ {
                    Some(after.last().1@)
                } else {
                    kv_lookup(before, k)
                } by {
                assert(after.len() > 0);
            }
        }
    }

    /// Looks `key` up, returning a copy of the bound value.
    pub fn get(&self, key: &Vec<u8>) -> (r: Option<Vec<u8>>)
        ensures
            match r {
                Some(v) => self.lookup(key@) == Some(v@),
                None => self.lookup(key@) is None,
            },
    {
        let n = self.entries.len();
        proof {
            assert(self.entries@.take(n as int) =~= self.entries@);
        }
        let mut i: usize = n;
        while i > 0
            invariant
                0 <= i <= n,
                n == self.entries@.len(),
                self.lookup(key@) == kv_lookup(self.entries@.take(i as int), key@),
            decreases i,
        {
            proof {
                let t = self.entries@.take(i as int);
                assert(t.len() == i);
                assert(t.last() == self.entries@[i - 1]);
                assert(t.drop_last() =~= self.entries@.take(i - 1));
            }
            let hit = bytes_eq(&self.entries[i - 1].0, key);
            if hit {
                let out = clone_bytes(&self.entries[i - 1].1);
                return Some(out);
            }
            i -= 1;
        }
        proof {
            assert(self.entries@.take(0).len() == 0);
        }
        None
    }
}

/// Byte-vector equality, decided element-wise.
pub fn bytes_eq(a: &Vec<u8>, b: &Vec<u8>) -> (r: bool)
    ensures
        r == (a@ == b@),
{
    if a.len() != b.len() {
        proof {
            assert(a@.len() != b@.len());
        }
        return false;
    }
    let n = a.len();
    let mut i: usize = 0;
    while i < n
        invariant
            0 <= i <= n,
            n == a@.len(),
            n == b@.len(),
            forall|j: int| 0 <= j < i ==> a@[j] == b@[j],
        decreases n - i,
    {
        if a[i] != b[i] {
            return false;
        }
        i += 1;
    }
    proof {
        assert(a@ =~= b@);
    }
    true
}

/// An owned copy of a byte vector.
pub fn clone_bytes(v: &Vec<u8>) -> (r: Vec<u8>)
    ensures
        r@ == v@,
{
    let n = v.len();
    let mut out: Vec<u8> = Vec::new();
    let mut i: usize = 0;
    while i < n
        invariant
            0 <= i <= n,
            n == v@.len(),
            out@.len() == i,
            forall|j: int| 0 <= j < i ==> out@[j] == v@[j],
        decreases n - i,
    {
        out.push(v[i]);
        i += 1;
    }
    proof {
        assert(out@ =~= v@);
    }
    out
}

} // verus!
