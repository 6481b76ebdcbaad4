//! Dynamically typed values and function signatures at the sandbox boundary.

use vstd::prelude::*;

verus! {

/// The closed set of value kinds a guest value can have.
#[derive(Debug, Clone, Copy, PartialEq, Eq, Structural)]
pub enum ValueKind {
    I32,
    I64,
    F32,
    F64,
}

/// A dynamically typed value crossing the boundary.  Floating-point values
/// are carried opaquely as their raw bit patterns: this layer never does
/// float arithmetic, it only moves the bits.
#[derive(Debug, Clone, Copy, PartialEq, Eq, Structural)]
pub enum Value {
    I32(i32),
    I64(i64),
    F32Bits(u32),
    F64Bits(u64),
}

impl Value {
    /// The kind of this value.
    pub open spec fn spec_kind(&self) -> ValueKind {
        match *self {
            Value::I32(_) => ValueKind::I32,
            Value::I64(_) => ValueKind::I64,
            Value::F32Bits(_) => ValueKind::F32,
            Value::F64Bits(_) => ValueKind::F64,
        }
    }

    /// Returns the kind of this value.
    pub fn kind(&self) -> (k: ValueKind)
        ensures
            k == self.spec_kind(),
    {
        match *self {
            Value::I32(_) => ValueKind::I32,
            Value::I64(_) => ValueKind::I64,
            Value::F32Bits(_) => ValueKind::F32,
            Value::F64Bits(_) => ValueKind::F64,
        }
    }
}

/// An ordered sequence of parameter kinds plus an optional single return
/// kind.
#[derive(Debug)]
pub struct Signature {
    pub params: Vec<ValueKind>,
    pub ret: Option<ValueKind>,
}

impl Signature {
    /// Builds a signature from its parts.
    pub fn new(params: Vec<ValueKind>, ret: Option<ValueKind>) -> (s: Signature)
        ensures
            s.params@ == params@,
            s.ret == ret,
    {
        Signature { params, ret }
    }

    /// Two signatures are compatible iff the parameter sequences are equal
    /// element-wise and the return kinds match (including both absent).
    pub open spec fn spec_compatible(&self, other: &Signature) -> bool {
        self.params@ == other.params@ && self.ret == other.ret
    }

    /// Decides signature compatibility.
    pub fn compatible(&self, other: &Signature) -> (r: bool)
        ensures
            r == self.spec_compatible(other),
    {
        if self.params.len() != other.params.len() {
            proof {
                assert(self.params@.len() != other.params@.len());
            }
            return false;
        }
        let n = self.params.len();
        let mut i: usize = 0;
        while i < n
            invariant
                0 <= i <= n,
                n == self.params@.len(),
                n == other.params@.len(),
                forall|j: int| 0 <= j < i ==> self.params@[j] == other.params@[j],
            decreases n - i,
        {
            if self.params[i] != other.params[i] {
                return false;
            }
            i += 1;
        }
        proof {
            assert(self.params@ =~= other.params@);
        }
        match (self.ret, other.ret) {
            (None, None) => true,
            (Some(a), Some(b)) => a == b,
            _ => false,
        }
    }
}

/// Relies on `str`'s `==` (its `PartialEq` impl): two string slices are
/// equal exactly when their character sequences are.
#[verifier::external_body]
pub(crate) fn str_eq(a: &str, b: &str) -> (r: bool)
    ensures
        r == (a@ == b@),
{
    a == b
}

/// True iff the values' kinds match the expected kinds element-wise.
pub open spec fn args_match(args: Seq<Value>, kinds: Seq<ValueKind>) -> bool {
    args.len() == kinds.len() && forall|j: int|
        0 <= j < args.len() ==> args[j].spec_kind() == kinds[j]
}

} // verus!
