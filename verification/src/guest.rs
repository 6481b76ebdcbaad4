//! The demonstration guest entry points, expressed over the sandbox
//! boundary.
//!
//! These are the module exports the sessions run: a unit increment, a
//! quadrupling that calls the imported `mult_two` twice, a recursive
//! summation, and the key/value pair `put_int`/`get_int` that marshal
//! keys and values through linear memory and call the imported `db_put`
//! and `db_get`.

use vstd::prelude::*;
use crate::codec::{
    i32_from_le_bytes, key_field, key_repr, key_to_str, le_bytes_of_i32, le_decode_i32,
    le_encode_i32, lemma_key_field_shape,
};
use crate::dispatch::{lemma_scan_key_terminated, HostExternals};
use crate::memory::{lemma_write_then_read, write_range};
use crate::resolver::{DB_GET_INDEX, DB_PUT_INDEX, MULT_TWO_INDEX};
use crate::store::kv_lookup;
use crate::trap::TrapKind;
use crate::values::Value;
use vstd::pervasive::unreached;

verus! {

/// Offset of the key scratch field in guest memory.
pub const KEY_PTR: u32 = 0;

/// Offset of the value scratch field in guest memory.
pub const VAL_PTR: u32 = 16;

/// Adds one.
pub fn add_one(x: i32) -> (r: i32)
    requires
        x < 0x7fff_ffff,
    ensures
        r == x + 1,
{
    x + 1
}

/// The summation the recursive export computes: `x + (x+1) + ... + n`
/// when `x <= n`, and `x` itself otherwise.
pub open spec fn spec_rec(x: int, n: int) -> int
    decreases n - x,
{
    if x < n {
        x + spec_rec(x + 1, n)
    } else {
        x
    }
}

/// Twice the summation, in closed form.
pub proof fn lemma_rec_closed(x: int, n: int)
    requires
        0 <= x <= n,
    ensures
        2 * spec_rec(x, n) == n * (n + 1) - x * (x - 1),
    decreases n - x,
{
    if x == n {
        assert(2 * n == n * (n + 1) - n * (n - 1)) by (nonlinear_arith);
    } else {
        lemma_rec_closed(x + 1, n);
        assert(2 * spec_rec(x, n) == n * (n + 1) - x * (x - 1)) by (nonlinear_arith)
            requires
                2 * spec_rec(x + 1, n) == n * (n + 1) - (x + 1) * x,
                spec_rec(x, n) == x + spec_rec(x + 1, n),
        ;
    }
}

/// The summation stays within 32-bit range for every start in `[0, n]`
/// with `n` at most 65535.
pub proof fn lemma_rec_bounds(x: int, n: int)
    requires
        0 <= x <= n <= 65535,
    ensures
        0 <= spec_rec(x, n) <= 0x7fff_8000,
{
    lemma_rec_closed(x, n);
    assert(0 <= x * (x - 1) && x * (x - 1) <= n * (n + 1) && n * (n + 1) <= 65535 * 65536)
        by (nonlinear_arith)
        requires
            0 <= x <= n <= 65535,
    ;
}

/// Law: invoked from 1, the recursive export computes the triangular
/// number, the mathematically correct sum `1 + 2 + ... + n`.
pub proof fn lemma_rec_sum(n: int)
    requires
        1 <= n,
    ensures
        spec_rec(1, n) == n * (n + 1) / 2,
{
    lemma_rec_closed(1, n);
}

/// The recursive summation export, exactly as the guest defines it.
pub fn rec(x: i32, n: i32) -> (r: i32)
    requires
        0 <= x,
        n <= 65535,
    ensures
        r as int == spec_rec(x as int, n as int),
    decreases n - x,
{
    if x < n {
        proof {
            lemma_rec_bounds(x as int, n as int);
            lemma_rec_bounds(x as int + 1, n as int);
        }
        let rest = rec(x + 1, n);
        x + rest
    } else {
        x
    }
}

/// Quadruples `x` by calling the imported `mult_two` twice through the
/// host-function table.  A host-side doubling failure surfaces as the
/// handler's abort trap.
pub fn mult_four(ext: &mut HostExternals, x: i32) -> (r: Result<i32, TrapKind>)
    ensures
        *final(ext) == *old(ext),
        -0x2000_0000 <= x < 0x2000_0000 ==> r == Ok::<i32, TrapKind>((4 * x) as i32),
        !(-0x2000_0000 <= x < 0x2000_0000) ==> (r matches Err(t) && t
            matches TrapKind::HostSignaledAbort(_)),
{
    let mut args: Vec<Value> = Vec::new();
    args.push(Value::I32(x));
    proof {
        assert(args@ =~= seq![Value::I32(x)]);
        assert(crate::values::args_match(args@, seq![crate::values::ValueKind::I32]));
    }
    let r1 = ext.invoke_index(MULT_TWO_INDEX, &args);
    let y = match r1 {
        Ok(Some(Value::I32(y))) => y,
        Err(t) => {
            return Err(t);
        },
        _ => unreached(),
    };
    let mut args2: Vec<Value> = Vec::new();
    args2.push(Value::I32(y));
    proof {
        assert(args2@ =~= seq![Value::I32(y)]);
        assert(crate::values::args_match(args2@, seq![crate::values::ValueKind::I32]));
    }
    let r2 = ext.invoke_index(MULT_TWO_INDEX, &args2);
    match r2 {
        Ok(Some(Value::I32(z))) => Ok(z),
        Err(t) => Err(t),
        _ => unreached(),
    }
}

/// Stores `value` under `key`: writes the encoded key and the
/// little-endian value into the scratch fields of linear memory, then
/// calls the imported `db_put`.  A memory too small for the scratch
/// fields traps; the key write may then already be visible (handler
/// effects are not transactional).
pub fn put_int(ext: &mut HostExternals, key: u32, value: i32) -> (r: Result<(), TrapKind>)
    ensures
        final(ext).memory.spec_maximum_pages() == old(ext).memory.spec_maximum_pages(),
        final(ext).memory.bytes().len() == old(ext).memory.bytes().len(),
        old(ext).memory.wf() ==> final(ext).memory.wf(),
        old(ext).memory.bytes().len() < 16 ==> r == Err::<(), TrapKind>(
            TrapKind::MemoryAccessOutOfBounds,
        ) && *final(ext) == *old(ext),
        16 <= old(ext).memory.bytes().len() < 20 ==> {
            &&& r == Err::<(), TrapKind>(TrapKind::MemoryAccessOutOfBounds)
            &&& final(ext).memory.bytes() == write_range(
                old(ext).memory.bytes(),
                0,
                key_field(key),
            )
            &&& final(ext).storage == old(ext).storage
        },
        old(ext).memory.bytes().len() >= 20 ==> {
            &&& r == Ok::<(), TrapKind>(())
            &&& final(ext).memory.bytes() == write_range(
                write_range(old(ext).memory.bytes(), 0, key_field(key)),
                16,
                le_bytes_of_i32(value),
            )
            &&& forall|k: Seq<u8>|
                #[trigger] final(ext).storage.lookup(k) == if k == key_repr(key) {
                    Some(le_bytes_of_i32(value))
                } else {
                    old(ext).storage.lookup(k)
                }
        },
{
    let key_bytes = key_to_str(key);
    match ext.memory.write(KEY_PTR, &key_bytes) {
        Err(_) => {
            return Err(TrapKind::MemoryAccessOutOfBounds);
        },
        Ok(()) => {},
    }
    let val_bytes = le_encode_i32(value);
    match ext.memory.write(VAL_PTR, &val_bytes) {
        Err(_) => {
            return Err(TrapKind::MemoryAccessOutOfBounds);
        },
        Ok(()) => {},
    }
    let ghost mem2 = ext.memory.bytes();
    proof {
        lemma_key_field_shape(key);
        assert forall|j: int| 0 <= j < 15 implies #[trigger] mem2[0 + j] != 0 by {
            assert(mem2[j] == key_field(key)[j]);
        }
        assert(mem2[0int + 15] == 0);
        lemma_scan_key_terminated(mem2, 0, 64, 15);
        assert(mem2.subrange(0, 15) =~= key_repr(key));
    }
    let mut args: Vec<Value> = Vec::new();
    args.push(Value::I32(0));
    args.push(Value::I32(16));
    args.push(Value::I32(4));
    proof {
        assert(args@ =~= seq![Value::I32(0), Value::I32(16), Value::I32(4)]);
        assert(crate::values::args_match(
            args@,
            seq![
                crate::values::ValueKind::I32,
                crate::values::ValueKind::I32,
                crate::values::ValueKind::I32,
            ],
        ));
    }
    let r = ext.invoke_index(DB_PUT_INDEX, &args);
    proof {
        lemma_write_then_read(
            write_range(old(ext).memory.bytes(), 0, key_field(key)),
            16,
            le_bytes_of_i32(value),
        );
        assert(mem2.subrange(16, 20) =~= le_bytes_of_i32(value));
    }
    match r {
        Ok(_) => Ok(()),
        Err(_) => unreached(),
    }
}

/// Reads the value stored under `key`: writes the encoded key into the
/// scratch field, calls the imported `db_get`, and decodes the four bytes
/// it copied back.  An unset key (the handler's zero-length sentinel), or
/// a stored value shorter than four bytes, fails the guest's length
/// assertion, which surfaces as an unreachable-code trap.
pub fn get_int(ext: &mut HostExternals, key: u32) -> (r: Result<i32, TrapKind>)
    ensures
        final(ext).memory.spec_maximum_pages() == old(ext).memory.spec_maximum_pages(),
        final(ext).memory.bytes().len() == old(ext).memory.bytes().len(),
        old(ext).memory.wf() ==> final(ext).memory.wf(),
        final(ext).storage == old(ext).storage,
        old(ext).memory.bytes().len() < 16 ==> r == Err::<i32, TrapKind>(
            TrapKind::MemoryAccessOutOfBounds,
        ) && *final(ext) == *old(ext),
        old(ext).memory.bytes().len() >= 16 ==> {
            let mem1 = write_range(old(ext).memory.bytes(), 0, key_field(key));
            match kv_lookup(old(ext).storage.entries_seq(), key_repr(key)) {
                None => final(ext).memory.bytes() == mem1 && r == Err::<i32, TrapKind>(
                    TrapKind::Unreachable,
                ),
                Some(v) => {
                    let n = if 4 <= v.len() { 4int } else { v.len() as int };
                    if 16 + n <= mem1.len() {
                        &&& final(ext).memory.bytes() == write_range(mem1, 16, v.take(n))
                        &&& n == 4 ==> (r matches Ok(w) && w as int == i32_from_le_bytes(
                            v.take(4),
                        ))
                        &&& n < 4 ==> r == Err::<i32, TrapKind>(TrapKind::Unreachable)
                    } else {
                        &&& r == Err::<i32, TrapKind>(TrapKind::MemoryAccessOutOfBounds)
                        &&& final(ext).memory.bytes() == mem1
                    }
                },
            }
        },
{
    let key_bytes = key_to_str(key);
    match ext.memory.write(KEY_PTR, &key_bytes) {
        Err(_) => {
            return Err(TrapKind::MemoryAccessOutOfBounds);
        },
        Ok(()) => {},
    }
    let ghost mem1 = ext.memory.bytes();
    proof {
        lemma_key_field_shape(key);
        assert forall|j: int| 0 <= j < 15 implies #[trigger] mem1[0 + j] != 0 by {
            assert(mem1[j] == key_field(key)[j]);
        }
        assert(mem1[0int + 15] == 0);
        lemma_scan_key_terminated(mem1, 0, 64, 15);
        assert(mem1.subrange(0, 15) =~= key_repr(key));
    }
    let mut args: Vec<Value> = Vec::new();
    args.push(Value::I32(0));
    args.push(Value::I32(16));
    args.push(Value::I32(4));
    proof {
        assert(args@ =~= seq![Value::I32(0), Value::I32(16), Value::I32(4)]);
        assert(crate::values::args_match(
            args@,
            seq![
                crate::values::ValueKind::I32,
                crate::values::ValueKind::I32,
                crate::values::ValueKind::I32,
            ],
        ));
    }
    let r1 = ext.invoke_index(DB_GET_INDEX, &args);
    match r1 {
        Ok(Some(Value::I32(read_size))) => {
            if read_size == 4 {
                proof {
                    let v = kv_lookup(
                        old(ext).storage.entries_seq(),
                        key_repr(key),
                    )->Some_0;
                    let n = if 4 <= v.len() { 4int } else { v.len() as int };
                    lemma_write_then_read(mem1, 16, v.take(n));
                    assert(v.take(4) =~= v.take(n));
                }
                match ext.memory.read(VAL_PTR, 4) {
                    Ok(b) => Ok(le_decode_i32(&b)),
                    Err(_) => unreached(),
                }
            } else {
                Err(TrapKind::Unreachable)
            }
        },
        Ok(_) => unreached(),
        Err(t) => Err(t),
    }
}

} // verus!
