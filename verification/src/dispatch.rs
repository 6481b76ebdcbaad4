//! The host-function table and its dispatch by slot index.
//!
//! Arguments arrive as a sequence of dynamically typed values; each
//! handler validates every argument's kind and never coerces silently.  A
//! slot with no handler traps with `UndefinedImportInvoked`; a handler's
//! own domain failure surfaces as `HostSignaledAbort`; no guest-controlled
//! input can panic the host.  Handler effects are not transactional: a
//! trap after a partial host-side effect leaves that effect observable.

use vstd::prelude::*;
use crate::codec::{bits_of_i32, i32_from_bits, i32_of_bits, u32_of_i32};
use crate::memory::{write_range, LinearMemory};
use crate::resolver::{DB_GET_INDEX, DB_PUT_INDEX, MULT_TWO_INDEX};
use crate::store::{kv_lookup, KvStore};
use crate::trap::TrapKind;
use crate::values::{args_match, Value, ValueKind};

verus! {

/// The bytes read from `mem` starting at `off`, stopping at the first NUL
/// byte, at the end of the buffer, or after `max` bytes, whichever comes
/// first.
pub open spec fn scan_key(mem: Seq<u8>, off: int, max: int) -> Seq<u8>
    decreases max,
{
    if max <= 0 || off < 0 || off >= mem.len() || mem[off] == 0 {
        Seq::empty()
    } else {
        seq![mem[off]] + scan_key(mem, off + 1, max - 1)
    }
}

/// If the `k` bytes from `off` are nonzero and the next byte is NUL, the
/// scan returns exactly those `k` bytes.
pub proof fn lemma_scan_key_terminated(mem: Seq<u8>, off: int, max: int, k: int)
    requires
        0 <= off,
        0 <= k < max,
        off + k < mem.len(),
        forall|j: int| 0 <= j < k ==> #[trigger] mem[off + j] != 0,
        mem[off + k] == 0,
    ensures
        scan_key(mem, off, max) == mem.subrange(off, off + k),
    decreases k,
{
    if k == 0 {
        assert(scan_key(mem, off, max) =~= mem.subrange(off, off));
    } else {
        assert(mem[off + 0] != 0);
        assert forall|j: int| 0 <= j < k - 1 implies #[trigger] mem[off + 1 + j] != 0 by {
            assert(mem[off + (j + 1)] != 0);
        }
        lemma_scan_key_terminated(mem, off + 1, max - 1, k - 1);
        assert(seq![mem[off]] + mem.subrange(off + 1, off + k) =~= mem.subrange(off, off + k));
    }
}

/// The signed value of argument `j`, which must be a 32-bit integer.
pub open spec fn i32_arg(args: Seq<Value>, j: int) -> i32 {
    args[j]->I32_0
}

/// The unsigned reading of argument `j`'s 32-bit pattern (the ABI carries
/// pointers and lengths as 32-bit integers).
pub open spec fn u32_arg(args: Seq<Value>, j: int) -> nat {
    u32_of_i32(i32_arg(args, j))
}

/// Doubles its operand.  The host function registered for `mult_two`.
pub fn my_mult_two(x: i32) -> (r: i32)
    requires
        -0x4000_0000 <= x < 0x4000_0000,
    ensures
        r == 2 * x,
{
    x * 2
}

/// The host side of one session: the bound linear memory and the handler
/// state of the host-function table (here, the key/value store of the
/// marshaling example).  Both live exactly as long as the session.
pub struct HostExternals {
    pub memory: LinearMemory,
    pub storage: KvStore,
}

impl HostExternals {
    /// A host-function table over the given memory, with an empty store.
    pub fn with_params(memory: LinearMemory) -> (r: HostExternals)
        ensures
            r.memory == memory,
            forall|k: Seq<u8>| #[trigger] r.storage.lookup(k) is None,
    {
        HostExternals { memory, storage: KvStore::new() }
    }

    /// Reads a key from memory at `offset`: bytes up to the first NUL, the
    /// end of memory, or `max_len` bytes, whichever comes first.
    pub fn read_key(&self, offset: u32, max_len: usize) -> (r: Vec<u8>)
        ensures
            r@ == scan_key(self.memory.bytes(), offset as int, max_len as int),
    {
        let len = self.memory.size_bytes();
        let mut v: Vec<u8> = Vec::new();
        let mut i: usize = offset as usize;
        while i < len && self.memory.get_byte(i) > 0 && v.len() < max_len
            invariant
                len == self.memory.bytes().len(),
                i == offset as int + v@.len(),
                v@.len() <= max_len,
                scan_key(self.memory.bytes(), offset as int, max_len as int) == v@ + scan_key(
                    self.memory.bytes(),
                    i as int,
                    max_len - v@.len(),
                ),
            decreases max_len - v@.len(),
        {
            let b = self.memory.get_byte(i);
            proof {
                assert(scan_key(self.memory.bytes(), i as int, max_len - v@.len())
                    == seq![self.memory.bytes()[i as int]] + scan_key(
                    self.memory.bytes(),
                    i as int + 1,
                    max_len - v@.len() - 1,
                ));
                assert((v@ + (seq![self.memory.bytes()[i as int]] + scan_key(
                    self.memory.bytes(),
                    i as int + 1,
                    max_len - v@.len() - 1,
                ))) =~= (v@.push(self.memory.bytes()[i as int]) + scan_key(
                    self.memory.bytes(),
                    i as int + 1,
                    max_len - v@.len() - 1,
                )));
            }
            v.push(b);
            i += 1;
        }
        proof {
            assert(scan_key(self.memory.bytes(), i as int, max_len - v@.len())
                =~= Seq::<u8>::empty());
            assert(v@ + Seq::<u8>::empty() =~= v@);
        }
        v
    }

    /// Dispatches one host call by slot index, validating argument kinds,
    /// and returns the handler's typed result or a trap.
    ///
    /// - `db_get(key_ptr, dst_ptr, max_len)` scans the key at `key_ptr`
    ///   (at most 64 bytes, NUL-terminated), looks it up, copies at most
    ///   `max_len` bytes of the value to `dst_ptr` and returns the copied
    ///   length; an unset key returns length `0`, the documented
    ///   "not found" sentinel, not an error.
    /// - `db_put(key_ptr, val_ptr, len)` scans the key the same way and
    ///   binds it to the `len` bytes at `val_ptr`.
    /// - `mult_two(x)` doubles `x`; a doubling that cannot be represented
    ///   is a handler failure, surfaced as `HostSignaledAbort`.
    ///
    /// A memory access outside the current size traps with
    /// `MemoryAccessOutOfBounds`; a wrongly typed argument traps with
    /// `TypeMismatch`; an unregistered slot traps with
    /// `UndefinedImportInvoked`.
    pub fn invoke_index(&mut self, index: usize, args: &Vec<Value>) -> (r: Result<
        Option<Value>,
        TrapKind,
    >)
        ensures
            final(self).memory.spec_maximum_pages() == old(self).memory.spec_maximum_pages(),
            final(self).memory.bytes().len() == old(self).memory.bytes().len(),
            old(self).memory.wf() ==> final(self).memory.wf(),
            index != DB_GET_INDEX && index != DB_PUT_INDEX && index != MULT_TWO_INDEX ==> r
                == Err::<Option<Value>, TrapKind>(TrapKind::UndefinedImportInvoked) && *final(self)
                == *old(self),
            index == MULT_TWO_INDEX && !args_match(args@, seq![ValueKind::I32]) ==> r
                == Err::<Option<Value>, TrapKind>(TrapKind::TypeMismatch) && *final(self)
                == *old(self),
            index == MULT_TWO_INDEX && args_match(args@, seq![ValueKind::I32]) ==> {
                &&& *final(self) == *old(self)
                &&& -0x4000_0000 <= i32_arg(args@, 0) < 0x4000_0000 ==> r == Ok::<
                    Option<Value>,
                    TrapKind,
                >(Some(Value::I32((2 * i32_arg(args@, 0)) as i32)))
                &&& !(-0x4000_0000 <= i32_arg(args@, 0) < 0x4000_0000) ==> (r matches Err(t)
                    && t matches TrapKind::HostSignaledAbort(_))
            },
            (index == DB_GET_INDEX || index == DB_PUT_INDEX) && !args_match(
                args@,
                seq![ValueKind::I32, ValueKind::I32, ValueKind::I32],
            ) ==> r == Err::<Option<Value>, TrapKind>(TrapKind::TypeMismatch) && *final(self)
                == *old(self),
            index == DB_GET_INDEX && args_match(
                args@,
                seq![ValueKind::I32, ValueKind::I32, ValueKind::I32],
            ) ==> {
                let mem = old(self).memory.bytes();
                let key = scan_key(mem, u32_arg(args@, 0) as int, 64);
                let dst = u32_arg(args@, 1) as int;
                let maxl = u32_arg(args@, 2) as int;
                &&& final(self).storage == old(self).storage
                &&& match kv_lookup(old(self).storage.entries_seq(), key) {
                    None => r == Ok::<Option<Value>, TrapKind>(Some(Value::I32(0)))
                        && final(self).memory == old(self).memory,
                    Some(v) => {
                        let n = if maxl < v.len() { maxl } else { v.len() as int };
                        if dst + n <= mem.len() {
                            &&& r == Ok::<Option<Value>, TrapKind>(Some(Value::I32(i32_of_bits(
                                n as nat,
                            ) as i32)))
                            &&& final(self).memory.bytes() == write_range(
                                mem,
                                dst,
                                v.take(n),
                            )
                        } else {
                            &&& r == Err::<Option<Value>, TrapKind>(
                                TrapKind::MemoryAccessOutOfBounds,
                            )
                            &&& final(self).memory == old(self).memory
                        }
                    },
                }
            },
            index == DB_PUT_INDEX && args_match(
                args@,
                seq![ValueKind::I32, ValueKind::I32, ValueKind::I32],
            ) ==> {
                let mem = old(self).memory.bytes();
                let key = scan_key(mem, u32_arg(args@, 0) as int, 64);
                let src = u32_arg(args@, 1) as int;
                let len = u32_arg(args@, 2) as int;
                &&& final(self).memory == old(self).memory
                &&& if src + len <= mem.len() {
                    &&& r == Ok::<Option<Value>, TrapKind>(None)
                    &&& forall|k: Seq<u8>|
                        #[trigger] final(self).storage.lookup(k) == if k == key {
                            Some(mem.subrange(src, src + len))
                        } else {
                            old(self).storage.lookup(k)
                        }
                } else {
                    &&& r == Err::<Option<Value>, TrapKind>(TrapKind::MemoryAccessOutOfBounds)
                    &&& final(self).storage == old(self).storage
                }
            },
    {
        if index == DB_GET_INDEX {
            if args.len() != 3 {
                return Err(TrapKind::TypeMismatch);
            }
            let a0 = match args[0] {
                Value::I32(x) => x,
                _ => {
                    proof {
                        assert(args@[0].spec_kind() != ValueKind::I32);
                        assert(seq![ValueKind::I32, ValueKind::I32, ValueKind::I32][0] == ValueKind::I32);
                        assert(!args_match(args@, seq![ValueKind::I32, ValueKind::I32, ValueKind::I32]));
                    }
                    return Err(TrapKind::TypeMismatch)
                },
            };
            let a1 = match args[1] {
                Value::I32(x) => x,
                _ => {
                    proof {
                        assert(args@[1].spec_kind() != ValueKind::I32);
                        assert(seq![ValueKind::I32, ValueKind::I32, ValueKind::I32][1] == ValueKind::I32);
                        assert(!args_match(args@, seq![ValueKind::I32, ValueKind::I32, ValueKind::I32]));
                    }
                    return Err(TrapKind::TypeMismatch)
                },
            };
            let a2 = match args[2] {
                Value::I32(x) => x,
                _ => {
                    proof {
                        assert(args@[2].spec_kind() != ValueKind::I32);
                        assert(seq![ValueKind::I32, ValueKind::I32, ValueKind::I32][2] == ValueKind::I32);
                        assert(!args_match(args@, seq![ValueKind::I32, ValueKind::I32, ValueKind::I32]));
                    }
                    return Err(TrapKind::TypeMismatch)
                },
            };
            proof {
                assert(args_match(args@, seq![ValueKind::I32, ValueKind::I32, ValueKind::I32]));
            }
            let key_ptr = bits_of_i32(a0);
            let dst_ptr = bits_of_i32(a1);
            let max_len = bits_of_i32(a2);
            let key = self.read_key(key_ptr, 64);
            let val = self.storage.get(&key);
            match val {
                Some(v) => {
                    let n: usize = if (max_len as usize) < v.len() {
                        max_len as usize
                    } else {
                        v.len()
                    };
                    let mut tv: Vec<u8> = Vec::new();
                    let mut i: usize = 0;
                    while i < n
                        invariant
                            0 <= i <= n,
                            n <= v@.len(),
                            tv@.len() == i,
                            forall|j: int| 0 <= j < i ==> tv@[j] == v@[j],
                        decreases n - i,
                    {
                        tv.push(v[i]);
                        i += 1;
                    }
                    proof {
                        assert(tv@ =~= v@.take(n as int));
                    }
                    match self.memory.write(dst_ptr, &tv) {
                        Ok(()) => Ok(Some(Value::I32(i32_from_bits(n as u32)))),
                        Err(_) => Err(TrapKind::MemoryAccessOutOfBounds),
                    }
                },
                None => Ok(Some(Value::I32(0))),
            }
        } else if index == DB_PUT_INDEX {
            if args.len() != 3 {
                return Err(TrapKind::TypeMismatch);
            }
            let a0 = match args[0] {
                Value::I32(x) => x,
                _ => {
                    proof {
                        assert(args@[0].spec_kind() != ValueKind::I32);
                        assert(seq![ValueKind::I32, ValueKind::I32, ValueKind::I32][0] == ValueKind::I32);
                        assert(!args_match(args@, seq![ValueKind::I32, ValueKind::I32, ValueKind::I32]));
                    }
                    return Err(TrapKind::TypeMismatch)
                },
            };
            let a1 = match args[1] {
                Value::I32(x) => x,
                _ => {
                    proof {
                        assert(args@[1].spec_kind() != ValueKind::I32);
                        assert(seq![ValueKind::I32, ValueKind::I32, ValueKind::I32][1] == ValueKind::I32);
                        assert(!args_match(args@, seq![ValueKind::I32, ValueKind::I32, ValueKind::I32]));
                    }
                    return Err(TrapKind::TypeMismatch)
                },
            };
            let a2 = match args[2] {
                Value::I32(x) => x,
                _ => {
                    proof {
                        assert(args@[2].spec_kind() != ValueKind::I32);
                        assert(seq![ValueKind::I32, ValueKind::I32, ValueKind::I32][2] == ValueKind::I32);
                        assert(!args_match(args@, seq![ValueKind::I32, ValueKind::I32, ValueKind::I32]));
                    }
                    return Err(TrapKind::TypeMismatch)
                },
            };
            proof {
                assert(args_match(args@, seq![ValueKind::I32, ValueKind::I32, ValueKind::I32]));
            }
            let key_ptr = bits_of_i32(a0);
            let val_ptr = bits_of_i32(a1);
            let len = bits_of_i32(a2);
            let key = self.read_key(key_ptr, 64);
            match self.memory.read(val_ptr, len) {
                Ok(v) => {
                    self.storage.insert(key, v);
                    Ok(None)
                },
                Err(_) => Err(TrapKind::MemoryAccessOutOfBounds),
            }
        } else if index == MULT_TWO_INDEX {
            if args.len() != 1 {
                return Err(TrapKind::TypeMismatch);
            }
            let x = match args[0] {
                Value::I32(x) => x,
                _ => {
                    proof {
                        assert(args@[0].spec_kind() != ValueKind::I32);
                        assert(seq![ValueKind::I32][0] == ValueKind::I32);
                        assert(!args_match(args@, seq![ValueKind::I32]));
                    }
                    return Err(TrapKind::TypeMismatch)
                },
            };
            proof {
                assert(args_match(args@, seq![ValueKind::I32]));
            }
            if -0x4000_0000 <= x && x < 0x4000_0000 {
                Ok(Some(Value::I32(my_mult_two(x))))
            } else {
                Err(TrapKind::HostSignaledAbort("mult_two operand out of range".to_owned()))
            }
        } else {
            Err(TrapKind::UndefinedImportInvoked)
        }
    }
}

} // verus!
