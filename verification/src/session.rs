//! The execution session: one module instantiation, one linear memory,
//! one host-function table, composed behind "invoke an export by name
//! with typed arguments".
//!
//! The instruction-level interpreter is an external collaborator; the
//! session consumes only its guarantee that invoking an export runs to a
//! typed completion, a classified trap, or exhaustion of its call-depth
//! guard.  The demonstration module's exports are `add_one`,
//! `mult_four`, `rec`, `put_int` and `get_int`; invoking any other name
//! is a resolution-level failure, not a trap.  One session runs at most
//! one invocation at a time, on the calling thread.

use vstd::prelude::*;
use vstd::arithmetic::div_mod::{lemma_add_mod_noop, lemma_small_mod};
use vstd::pervasive::unreached;
use crate::codec::{
    bits_of_i32, i32_from_bits, i32_from_le_bytes, key_field, key_repr, le_bytes_of_i32,
    lemma_bits_are_mod, lemma_wrap_identity, wrap_i32,
};
use crate::dispatch::{i32_arg, u32_arg, HostExternals};
use crate::guest::{add_one, get_int, mult_four, put_int, spec_rec};
use crate::memory::write_range;
use crate::resolver::ImportResolver;
use crate::store::kv_lookup;
use crate::trap::{HostErrorKind, InvokeOutcome, TrapKind};
use crate::values::{args_match, str_eq, Value, ValueKind};

verus! {

/// The interpreter's call-depth guard, modeled as the largest frame
/// count the recursive export may need before it traps.
pub const CALL_DEPTH_LIMIT: u32 = 64000;

/// Frames the recursive export needs when invoked with `(x, n)`.
pub open spec fn rec_frames(x: int, n: int) -> int {
    if x < n {
        n - x + 1
    } else {
        1
    }
}

/// Runs the recursive summation as the external interpreter would: to
/// completion with 32-bit wrap-around semantics if its frame count stays
/// within the call-depth guard, to a stack-overflow trap otherwise.
fn run_rec(x: i32, n: i32) -> (r: Result<i32, TrapKind>)
    ensures
        rec_frames(x as int, n as int) > CALL_DEPTH_LIMIT ==> r == Err::<i32, TrapKind>(
            TrapKind::StackOverflow,
        ),
        rec_frames(x as int, n as int) <= CALL_DEPTH_LIMIT ==> (r matches Ok(w) && w as int
            == wrap_i32(spec_rec(x as int, n as int))),
{
    if x >= n {
        proof {
            lemma_wrap_identity(x as int);
        }
        return Ok(x);
    }
    let frames: i64 = (n as i64) - (x as i64) + 1;
    if frames > (CALL_DEPTH_LIMIT as i64) {
        return Err(TrapKind::StackOverflow);
    }
    let ghost total = spec_rec(x as int, n as int);
    let mut i: i32 = x;
    let mut acc: u32 = 0;
    proof {
        lemma_small_mod(0, 0x1_0000_0000);
    }
    while i < n
        invariant
            x <= i <= n,
            total == spec_rec(x as int, n as int),
            acc as int == (total - spec_rec(i as int, n as int)) % 0x1_0000_0000,
        decreases n - i,
    {
        let b = bits_of_i32(i);
        let acc64: u64 = (acc as u64) + (b as u64);
        let newacc: u32 = (acc64 % 0x1_0000_0000u64) as u32;
        proof {
            lemma_bits_are_mod(i);
            lemma_add_mod_noop(
                total - spec_rec(i as int, n as int),
                i as int,
                0x1_0000_0000,
            );
            assert(spec_rec(i as int, n as int) == i + spec_rec(i as int + 1, n as int));
        }
        acc = newacc;
        i += 1;
    }
    let b = bits_of_i32(n);
    let acc64: u64 = (acc as u64) + (b as u64);
    let newacc: u32 = (acc64 % 0x1_0000_0000u64) as u32;
    proof {
        lemma_bits_are_mod(n);
        lemma_add_mod_noop(total - spec_rec(n as int, n as int), n as int, 0x1_0000_0000);
        assert(spec_rec(n as int, n as int) == n);
        assert(newacc as int == total % 0x1_0000_0000);
    }
    Ok(i32_from_bits(newacc))
}

/// One sandbox session.  It owns exactly one linear memory (possibly the
/// zero-sized dummy) and one host-function table with its handler state;
/// both are created at instantiation and dropped with the session.
pub struct ExecutionSession {
    pub externals: HostExternals,
}

impl ExecutionSession {
    /// Builds the session from a resolver that has driven import
    /// resolution: takes ownership of the bound memory (or of the
    /// zero-sized dummy if the module imported none) and starts with an
    /// empty handler state.
    pub fn instantiate(resolver: &mut ImportResolver) -> (s: ExecutionSession)
        requires
            old(resolver).wf(),
        ensures
            final(resolver).wf(),
            final(resolver).spec_memory() is None,
            s.externals.memory.wf(),
            old(resolver).spec_memory() matches Some(m) ==> s.externals.memory == m,
            old(resolver).spec_memory() is None ==> s.externals.memory.bytes().len() == 0,
            forall|k: Seq<u8>| #[trigger] s.externals.storage.lookup(k) is None,
    {
        let memory = resolver.memory_ref();
        ExecutionSession { externals: HostExternals::with_params(memory) }
    }

    /// Invokes a named export with typed arguments and classifies the
    /// outcome: a typed completion, a classified trap, or a host error
    /// for a name the module does not export.  Arguments whose kinds do
    /// not match the export's signature trap with `TypeMismatch` and are
    /// never coerced.
    pub fn invoke_export(&mut self, name: &str, args: &Vec<Value>) -> (r: InvokeOutcome)
        ensures
            name@ == "add_one"@ ==> {
                &&& *final(self) == *old(self)
                &&& !args_match(args@, seq![ValueKind::I32]) ==> r == InvokeOutcome::Trapped(
                    TrapKind::TypeMismatch,
                )
                &&& args_match(args@, seq![ValueKind::I32]) ==> r == InvokeOutcome::Completed(
                    Some(Value::I32(wrap_i32(i32_arg(args@, 0) + 1) as i32)),
                )
            },
            name@ == "rec"@ ==> {
                &&& *final(self) == *old(self)
                &&& !args_match(args@, seq![ValueKind::I32, ValueKind::I32]) ==> r
                    == InvokeOutcome::Trapped(TrapKind::TypeMismatch)
                &&& args_match(args@, seq![ValueKind::I32, ValueKind::I32]) ==> {
                    let x = i32_arg(args@, 0);
                    let n = i32_arg(args@, 1);
                    if rec_frames(x as int, n as int) > CALL_DEPTH_LIMIT {
                        r == InvokeOutcome::Trapped(TrapKind::StackOverflow)
                    } else {
                        r == InvokeOutcome::Completed(
                            Some(Value::I32(wrap_i32(spec_rec(x as int, n as int)) as i32)),
                        )
                    }
                }
            },
            name@ == "mult_four"@ ==> {
                &&& *final(self) == *old(self)
                &&& !args_match(args@, seq![ValueKind::I32]) ==> r == InvokeOutcome::Trapped(
                    TrapKind::TypeMismatch,
                )
                &&& args_match(args@, seq![ValueKind::I32]) ==> {
                    let x = i32_arg(args@, 0);
                    &&& -0x2000_0000 <= x < 0x2000_0000 ==> r == InvokeOutcome::Completed(
                        Some(Value::I32((4 * x) as i32)),
                    )
                    &&& !(-0x2000_0000 <= x < 0x2000_0000) ==> (r matches InvokeOutcome::Trapped(
                        t,
                    ) && t matches TrapKind::HostSignaledAbort(_))
                }
            },
            name@ == "put_int"@ ==> {
                &&& final(self).externals.memory.spec_maximum_pages() == old(
                    self,
                ).externals.memory.spec_maximum_pages()
                &&& final(self).externals.memory.bytes().len() == old(
                    self,
                ).externals.memory.bytes().len()
                &&& !args_match(args@, seq![ValueKind::I32, ValueKind::I32]) ==> r
                    == InvokeOutcome::Trapped(TrapKind::TypeMismatch) && *final(self) == *old(self)
                &&& args_match(args@, seq![ValueKind::I32, ValueKind::I32]) ==> {
                    let key = u32_arg(args@, 0) as u32;
                    let value = i32_arg(args@, 1);
                    let mem = old(self).externals.memory.bytes();
                    &&& mem.len() < 16 ==> r == InvokeOutcome::Trapped(
                        TrapKind::MemoryAccessOutOfBounds,
                    ) && *final(self) == *old(self)
                    &&& 16 <= mem.len() < 20 ==> {
                        &&& r == InvokeOutcome::Trapped(TrapKind::MemoryAccessOutOfBounds)
                        &&& final(self).externals.memory.bytes() == write_range(
                            mem,
                            0,
                            key_field(key),
                        )
                        &&& final(self).externals.storage == old(self).externals.storage
                    }
                    &&& mem.len() >= 20 ==> {
                        &&& r == InvokeOutcome::Completed(None)
                        &&& final(self).externals.memory.bytes() == write_range(
                            write_range(mem, 0, key_field(key)),
                            16,
                            le_bytes_of_i32(value),
                        )
                        &&& forall|k: Seq<u8>|
                            #[trigger] final(self).externals.storage.lookup(k) == if k
                                == key_repr(key) {
                                Some(le_bytes_of_i32(value))
                            } else {
                                old(self).externals.storage.lookup(k)
                            }
                    }
                }
            },
            name@ == "get_int"@ ==> {
                &&& final(self).externals.memory.spec_maximum_pages() == old(
                    self,
                ).externals.memory.spec_maximum_pages()
                &&& final(self).externals.memory.bytes().len() == old(
                    self,
                ).externals.memory.bytes().len()
                &&& final(self).externals.storage == old(self).externals.storage
                &&& !args_match(args@, seq![ValueKind::I32]) ==> r == InvokeOutcome::Trapped(
                    TrapKind::TypeMismatch,
                ) && *final(self) == *old(self)
                &&& args_match(args@, seq![ValueKind::I32]) ==> {
                    let key = u32_arg(args@, 0) as u32;
                    let mem = old(self).externals.memory.bytes();
                    &&& mem.len() < 16 ==> r == InvokeOutcome::Trapped(
                        TrapKind::MemoryAccessOutOfBounds,
                    ) && *final(self) == *old(self)
                    &&& mem.len() >= 16 ==> {
                        let mem1 = write_range(mem, 0, key_field(key));
                        match kv_lookup(old(self).externals.storage.entries_seq(), key_repr(key)) {
                            None => final(self).externals.memory.bytes() == mem1 && r
                                == InvokeOutcome::Trapped(TrapKind::Unreachable),
                            Some(v) => {
                                let n = if 4 <= v.len() { 4int } else { v.len() as int };
                                if 16 + n <= mem1.len() {
                                    &&& final(self).externals.memory.bytes() == write_range(
                                        mem1,
                                        16,
                                        v.take(n),
                                    )
                                    &&& n == 4 ==> r == InvokeOutcome::Completed(
                                        Some(Value::I32(i32_from_le_bytes(v.take(4)) as i32)),
                                    )
                                    &&& n < 4 ==> r == InvokeOutcome::Trapped(TrapKind::Unreachable)
                                } else {
                                    &&& r == InvokeOutcome::Trapped(
                                        TrapKind::MemoryAccessOutOfBounds,
                                    )
                                    &&& final(self).externals.memory.bytes() == mem1
                                }
                            },
                        }
                    }
                }
            },
            !(name@ == "add_one"@ || name@ == "rec"@ || name@ == "mult_four"@ || name@
                == "put_int"@ || name@ == "get_int"@) ==> {
                &&& *final(self) == *old(self)
                &&& r matches InvokeOutcome::HostError(e) && e matches
                    HostErrorKind::UnknownExport(s) && s@ == name@
            },
    {
        proof {
            reveal_strlit("add_one");
            reveal_strlit("rec");
            reveal_strlit("mult_four");
            reveal_strlit("put_int");
            reveal_strlit("get_int");
            assert("add_one"@.len() == 7);
            assert("rec"@.len() == 3);
            assert("mult_four"@.len() == 9);
            assert("put_int"@.len() == 7);
            assert("get_int"@.len() == 7);
            assert("add_one"@[0] == 'a');
            assert("put_int"@[0] == 'p');
            assert("get_int"@[0] == 'g');
        }
        if str_eq(name, "add_one") {
            if args.len() != 1 {
                proof {
                    assert(seq![ValueKind::I32].len() == 1);
                }
                return InvokeOutcome::Trapped(TrapKind::TypeMismatch);
            }
            let x = match args[0] {
                Value::I32(x) => x,
                _ => {
                    proof {
                        assert(args@[0].spec_kind() != ValueKind::I32);
                        assert(seq![ValueKind::I32][0] == ValueKind::I32);
                        assert(!args_match(args@, seq![ValueKind::I32]));
                    }
                    return InvokeOutcome::Trapped(TrapKind::TypeMismatch)
                },
            };
            let y: i32 = if x == 0x7fff_ffffi32 {
                proof {
                    lemma_small_mod(0x8000_0000, 0x1_0000_0000);
                }
                -0x8000_0000i32
            } else {
                proof {
                    lemma_wrap_identity(x as int + 1);
                }
                add_one(x)
            };
            InvokeOutcome::Completed(Some(Value::I32(y)))
        } else if str_eq(name, "rec") {
            if args.len() != 2 {
                proof {
                    assert(seq![ValueKind::I32, ValueKind::I32].len() == 2);
                }
                return InvokeOutcome::Trapped(TrapKind::TypeMismatch);
            }
            let x = match args[0] {
                Value::I32(x) => x,
                _ => {
                    proof {
                        assert(args@[0].spec_kind() != ValueKind::I32);
                        assert(seq![ValueKind::I32, ValueKind::I32][0] == ValueKind::I32);
                        assert(!args_match(args@, seq![ValueKind::I32, ValueKind::I32]));
                    }
                    return InvokeOutcome::Trapped(TrapKind::TypeMismatch)
                },
            };
            let n = match args[1] {
                Value::I32(n) => n,
                _ => {
                    proof {
                        assert(args@[1].spec_kind() != ValueKind::I32);
                        assert(seq![ValueKind::I32, ValueKind::I32][1] == ValueKind::I32);
                        assert(!args_match(args@, seq![ValueKind::I32, ValueKind::I32]));
                    }
                    return InvokeOutcome::Trapped(TrapKind::TypeMismatch)
                },
            };
            match run_rec(x, n) {
                Ok(w) => InvokeOutcome::Completed(Some(Value::I32(w))),
                Err(t) => InvokeOutcome::Trapped(t),
            }
        } else if str_eq(name, "mult_four") {
            if args.len() != 1 {
                proof {
                    assert(seq![ValueKind::I32].len() == 1);
                }
                return InvokeOutcome::Trapped(TrapKind::TypeMismatch);
            }
            let x = match args[0] {
                Value::I32(x) => x,
                _ => {
                    proof {
                        assert(args@[0].spec_kind() != ValueKind::I32);
                        assert(seq![ValueKind::I32][0] == ValueKind::I32);
                        assert(!args_match(args@, seq![ValueKind::I32]));
                    }
                    return InvokeOutcome::Trapped(TrapKind::TypeMismatch)
                },
            };
            match mult_four(&mut self.externals, x) {
                Ok(v) => InvokeOutcome::Completed(Some(Value::I32(v))),
                Err(t) => InvokeOutcome::Trapped(t),
            }
        } else if str_eq(name, "put_int") {
            if args.len() != 2 {
                proof {
                    assert(seq![ValueKind::I32, ValueKind::I32].len() == 2);
                }
                return InvokeOutcome::Trapped(TrapKind::TypeMismatch);
            }
            let a0 = match args[0] {
                Value::I32(x) => x,
                _ => {
                    proof {
                        assert(args@[0].spec_kind() != ValueKind::I32);
                        assert(seq![ValueKind::I32, ValueKind::I32][0] == ValueKind::I32);
                        assert(!args_match(args@, seq![ValueKind::I32, ValueKind::I32]));
                    }
                    return InvokeOutcome::Trapped(TrapKind::TypeMismatch)
                },
            };
            let a1 = match args[1] {
                Value::I32(x) => x,
                _ => {
                    proof {
                        assert(args@[1].spec_kind() != ValueKind::I32);
                        assert(seq![ValueKind::I32, ValueKind::I32][1] == ValueKind::I32);
                        assert(!args_match(args@, seq![ValueKind::I32, ValueKind::I32]));
                    }
                    return InvokeOutcome::Trapped(TrapKind::TypeMismatch)
                },
            };
            let key = bits_of_i32(a0);
            match put_int(&mut self.externals, key, a1) {
                Ok(()) => InvokeOutcome::Completed(None),
                Err(t) => InvokeOutcome::Trapped(t),
            }
        } else if str_eq(name, "get_int") {
            if args.len() != 1 {
                proof {
                    assert(seq![ValueKind::I32].len() == 1);
                }
                return InvokeOutcome::Trapped(TrapKind::TypeMismatch);
            }
            let a0 = match args[0] {
                Value::I32(x) => x,
                _ => {
                    proof {
                        assert(args@[0].spec_kind() != ValueKind::I32);
                        assert(seq![ValueKind::I32][0] == ValueKind::I32);
                        assert(!args_match(args@, seq![ValueKind::I32]));
                    }
                    return InvokeOutcome::Trapped(TrapKind::TypeMismatch)
                },
            };
            let key = bits_of_i32(a0);
            match get_int(&mut self.externals, key) {
                Ok(v) => InvokeOutcome::Completed(Some(Value::I32(v))),
                Err(t) => InvokeOutcome::Trapped(t),
            }
        } else {
            InvokeOutcome::HostError(HostErrorKind::UnknownExport(name.to_owned()))
        }
    }
}

/// Invokes the recursive export as the host driver does, from 1 to `n`,
/// and unpacks the 32-bit result.  A stack overflow is handed back to
/// the caller to catch; the session survives it.
pub fn call_rec(session: &mut ExecutionSession, n: i32) -> (r: Result<i32, TrapKind>)
    ensures
        *final(session) == *old(session),
        rec_frames(1, n as int) <= CALL_DEPTH_LIMIT ==> (r matches Ok(w) && w as int == wrap_i32(
            spec_rec(1, n as int),
        )),
        rec_frames(1, n as int) > CALL_DEPTH_LIMIT ==> r == Err::<i32, TrapKind>(
            TrapKind::StackOverflow,
        ),
{
    let mut args: Vec<Value> = Vec::new();
    args.push(Value::I32(1));
    args.push(Value::I32(n));
    proof {
        assert(args@ =~= seq![Value::I32(1), Value::I32(n)]);
        assert(args_match(args@, seq![ValueKind::I32, ValueKind::I32]));
    }
    match session.invoke_export("rec", &args) {
        InvokeOutcome::Completed(Some(Value::I32(v))) => Ok(v),
        InvokeOutcome::Trapped(t) => Err(t),
        _ => unreached(),
    }
}

} // verus!
