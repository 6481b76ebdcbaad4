//! Import resolution: binding a module's declared imports to host
//! capabilities, or failing the instantiation.
//!
//! The resolver serves one host namespace, `"env"`, with a fixed table of
//! known host functions.  Its policy for function imports is
//! validate-always: the module's declared signature must equal the host
//! handler's actual signature exactly, or resolution fails loudly at
//! instantiation time rather than corrupting values silently at call time.
//! The resolver is also the sole owner of linear-memory allocation: a
//! resolved memory import is retained here until the session takes it.

use vstd::prelude::*;
use crate::memory::{LinearMemory, CEILING_PAGES, PAGE_SIZE};
use crate::trap::HostErrorKind;
use crate::values::{str_eq, Signature, ValueKind};

verus! {

/// Slot of the host function serving `db_get` imports.
pub const DB_GET_INDEX: usize = 1001;

/// Slot of the host function serving `db_put` imports.
pub const DB_PUT_INDEX: usize = 1002;

/// Slot of the host function serving `mult_two` imports.
pub const MULT_TWO_INDEX: usize = 1337;

/// Slot handed out for `unused_fn` imports; no handler is registered for
/// it, so dispatching it traps.
pub const UNUSED_FN_INDEX: usize = 123;

/// The slot bound to a known import field name, if any.
pub open spec fn host_slot_of(field: Seq<char>) -> Option<usize> {
    if field == "mult_two"@ {
        Some(MULT_TWO_INDEX)
    } else if field == "db_get"@ {
        Some(DB_GET_INDEX)
    } else if field == "db_put"@ {
        Some(DB_PUT_INDEX)
    } else if field == "unused_fn"@ {
        Some(UNUSED_FN_INDEX)
    } else {
        None
    }
}

/// The parameter kinds of the host function behind a known field name.
pub open spec fn host_params_of(field: Seq<char>) -> Seq<ValueKind> {
    if field == "mult_two"@ {
        seq![ValueKind::I32]
    } else if field == "db_get"@ || field == "db_put"@ {
        seq![ValueKind::I32, ValueKind::I32, ValueKind::I32]
    } else {
        seq![ValueKind::F32]
    }
}

/// The return kind of the host function behind a known field name.
pub open spec fn host_ret_of(field: Seq<char>) -> Option<ValueKind> {
    if field == "mult_two"@ || field == "db_get"@ {
        Some(ValueKind::I32)
    } else if field == "db_put"@ {
        None
    } else {
        Some(ValueKind::F32)
    }
}

/// A resolved function import: a stable slot plus the signature it was
/// bound with.  Slot-to-handler bindings never change within a session.
#[derive(Debug)]
pub struct FuncBinding {
    pub slot: usize,
    pub signature: Signature,
}

/// Whether a requested memory import fits the host's limit: the declared
/// initial size must fit, and a declared maximum no larger than the limit
/// is required (a module that declares none is treated as asking for more
/// than any host allows).
pub open spec fn memory_within_limits(
    max_allowed: u32,
    initial: u32,
    maximum: Option<u32>,
) -> bool {
    &&& initial <= max_allowed
    &&& match maximum {
        Some(m) => m <= max_allowed && initial <= m,
        None => false,
    }
}

pub struct ImportResolver {
    max_memory: u32,
    memory: Option<LinearMemory>,
}

impl ImportResolver {
    /// The configured page limit for memory imports.
    pub closed spec fn spec_max_memory(&self) -> u32 {
        self.max_memory
    }

    /// The memory bound by a resolved memory import, if one was resolved
    /// and not yet taken.
    pub closed spec fn spec_memory(&self) -> Option<LinearMemory> {
        self.memory
    }

    /// Any bound memory is well formed and the limit is within the host
    /// ceiling.
    pub open spec fn wf(&self) -> bool {
        &&& match self.spec_memory() {
            Some(m) => m.wf(),
            None => true,
        }
        &&& self.spec_max_memory() <= CEILING_PAGES
    }

    /// A resolver allowing at most `max_memory` pages of guest memory.
    /// The limit must lie within the host's page ceiling.
    pub fn with_limit(max_memory: u32) -> (r: ImportResolver)
        requires
            max_memory <= CEILING_PAGES,
        ensures
            r.wf(),
            r.spec_max_memory() == max_memory,
            r.spec_memory() is None,
    {
        ImportResolver { max_memory, memory: None }
    }

    /// Resolves a function import: the field name must be in the known
    /// table under the `"env"` namespace, and the declared signature must
    /// equal the host's (validate-always policy).  An unknown namespace or
    /// field fails with `UnknownImport`; a signature difference fails with
    /// `SignatureMismatch`.  Both are fatal to instantiation.
    pub fn resolve_func(
        &self,
        namespace: &str,
        field_name: &str,
        signature: &Signature,
    ) -> (r: Result<FuncBinding, HostErrorKind>)
        ensures
            r is Ok <==> namespace@ == "env"@ && host_slot_of(field_name@) is Some
                && signature.params@ == host_params_of(field_name@)
                && signature.ret == host_ret_of(field_name@),
            r matches Ok(b) ==> {
                &&& Some(b.slot) == host_slot_of(field_name@)
                &&& b.signature.params@ == host_params_of(field_name@)
                &&& b.signature.ret == host_ret_of(field_name@)
            },
            (namespace@ != "env"@ || host_slot_of(field_name@) is None)
                ==> (r matches Err(HostErrorKind::UnknownImport(ns, f)) && ns@ == namespace@
                    && f@ == field_name@),
            (namespace@ == "env"@ && host_slot_of(field_name@) is Some && !(
                signature.params@ == host_params_of(field_name@)
                && signature.ret == host_ret_of(field_name@)
            )) ==> (r matches Err(HostErrorKind::SignatureMismatch(f)) && f@ == field_name@),
    {
        if !str_eq(namespace, "env") {
            return Err(
                HostErrorKind::UnknownImport(namespace.to_owned(), field_name.to_owned()),
            );
        }
        let mut params: Vec<ValueKind> = Vec::new();
        let ret: Option<ValueKind>;
        let slot: usize;
        if str_eq(field_name, "mult_two") {
            params.push(ValueKind::I32);
            ret = Some(ValueKind::I32);
            slot = MULT_TWO_INDEX;
        } else if str_eq(field_name, "db_get") {
            params.push(ValueKind::I32);
            params.push(ValueKind::I32);
            params.push(ValueKind::I32);
            ret = Some(ValueKind::I32);
            slot = DB_GET_INDEX;
        } else if str_eq(field_name, "db_put") {
            params.push(ValueKind::I32);
            params.push(ValueKind::I32);
            params.push(ValueKind::I32);
            ret = None;
            slot = DB_PUT_INDEX;
        } else if str_eq(field_name, "unused_fn") {
            params.push(ValueKind::F32);
            ret = Some(ValueKind::F32);
            slot = UNUSED_FN_INDEX;
        } else {
            return Err(
                HostErrorKind::UnknownImport(namespace.to_owned(), field_name.to_owned()),
            );
        }
        proof {
            assert(params@ =~= host_params_of(field_name@));
        }
        let expected = Signature::new(params, ret);
        if !signature.compatible(&expected) {
            return Err(HostErrorKind::SignatureMismatch(field_name.to_owned()));
        }
        Ok(FuncBinding { slot, signature: expected })
    }

    /// Resolves a memory import.  The single supported field name is
    /// `"memory"` in the `"env"` namespace; a second resolution for one
    /// session fails with `UnsupportedMultipleMemories`; a request beyond
    /// the configured limit (or without a declared maximum) fails with
    /// `MemoryLimitExceeded`.  On success the resolver allocates and
    /// retains the memory, zero-filled, capped at the declared maximum.
    pub fn resolve_memory(
        &mut self,
        field_name: &str,
        initial_pages: u32,
        maximum_pages: Option<u32>,
    ) -> (r: Result<(), HostErrorKind>)
        requires
            old(self).wf(),
        ensures
            final(self).wf(),
            final(self).spec_max_memory() == old(self).spec_max_memory(),
            field_name@ != "memory"@ ==> (r matches Err(HostErrorKind::UnknownImport(ns, f))
                && ns@ == "env"@ && f@ == field_name@ && *final(self) == *old(self)),
            field_name@ == "memory"@ && old(self).spec_memory() is Some
                ==> r == Err::<(), HostErrorKind>(HostErrorKind::UnsupportedMultipleMemories)
                    && *final(self) == *old(self),
            field_name@ == "memory"@ && old(self).spec_memory() is None && !memory_within_limits(
                old(self).spec_max_memory(),
                initial_pages,
                maximum_pages,
            ) ==> r == Err::<(), HostErrorKind>(HostErrorKind::MemoryLimitExceeded)
                && *final(self) == *old(self),
            field_name@ == "memory"@ && old(self).spec_memory() is None && memory_within_limits(
                old(self).spec_max_memory(),
                initial_pages,
                maximum_pages,
            ) ==> {
                &&& r is Ok
                &&& final(self).spec_memory() matches Some(m)
                    && m.spec_maximum_pages() == maximum_pages
                    && m.bytes().len() == initial_pages as nat * PAGE_SIZE as nat
                    && (forall|i: int| 0 <= i < m.bytes().len() ==> m.bytes()[i] == 0u8)
            },
            r is Ok <==> field_name@ == "memory"@ && old(self).spec_memory() is None
                && memory_within_limits(
                old(self).spec_max_memory(),
                initial_pages,
                maximum_pages,
            ),
    {
        if !str_eq(field_name, "memory") {
            return Err(HostErrorKind::UnknownImport("env".to_owned(), field_name.to_owned()));
        }
        if self.memory.is_some() {
            return Err(HostErrorKind::UnsupportedMultipleMemories);
        }
        let fits: bool = match maximum_pages {
            Some(m) => initial_pages <= self.max_memory && m <= self.max_memory
                && initial_pages <= m,
            None => false,
        };
        if !fits {
            return Err(HostErrorKind::MemoryLimitExceeded);
        }
        let mem = LinearMemory::new(initial_pages, maximum_pages);
        self.memory = Some(mem);
        Ok(())
    }

    /// The page count the module's memory import was granted, zero when no
    /// memory import was resolved (or the memory was already taken).
    pub fn memory_size(&self) -> (r: Result<u32, HostErrorKind>)
        requires
            self.wf(),
        ensures
            r matches Ok(n) && n as nat == match self.spec_memory() {
                Some(m) => m.spec_pages(),
                None => 0,
            },
    {
        match &self.memory {
            Some(m) => Ok(m.current_pages()),
            None => Ok(0u32),
        }
    }

    /// Hands the bound memory to the caller, transferring ownership (the
    /// buffer has a single owner for the session's lifetime).  If the
    /// module never imported memory, a zero-sized dummy is returned so the
    /// caller always holds a memory instance.
    pub fn memory_ref(&mut self) -> (m: LinearMemory)
        requires
            old(self).wf(),
        ensures
            final(self).wf(),
            final(self).spec_memory() is None,
            final(self).spec_max_memory() == old(self).spec_max_memory(),
            m.wf(),
            old(self).spec_memory() matches Some(bound) ==> m == bound,
            old(self).spec_memory() is None ==> m.bytes().len() == 0
                && m.spec_maximum_pages() == Some(0u32),
    {
        let taken = self.memory.take();
        match taken {
            Some(m) => m,
            None => LinearMemory::new(0u32, Some(0u32)),
        }
    }
}

} // verus!
