//! Classified outcomes of guest execution and of instantiation.

use vstd::prelude::*;
use crate::values::Value;

verus! {

/// A classified, terminal guest-execution fault.  A trap ends the current
/// invocation; it is never resumable.  `StackOverflow` is the one kind a
/// host is expected to catch and continue past; the others signal a
/// guest/host contract violation that is fatal to the session but never to
/// the host process.
#[derive(Debug, Clone, PartialEq, Eq)]
pub enum TrapKind {
    /// Guest reached unreachable code (including a failed guest assertion).
    Unreachable,
    /// The interpreter's call-depth guard was exceeded.
    StackOverflow,
    /// A memory access with `offset + length` beyond the current size.
    MemoryAccessOutOfBounds,
    /// An argument arrived with a value kind the handler does not expect.
    TypeMismatch,
    /// A slot index with no registered handler was dispatched.
    UndefinedImportInvoked,
    /// A host handler failed for a domain reason; the reason is diagnostic.
    HostSignaledAbort(String),
}

/// A failure of resolution or instantiation.  Unlike a [`TrapKind`], it
/// arises before any guest code runs: a session that sees one never reaches
/// the running state.
#[derive(Debug, Clone, PartialEq, Eq)]
pub enum HostErrorKind {
    /// The requested (namespace, field name) names no known host function.
    UnknownImport(String, String),
    /// A memory import asked for more pages than the host allows.
    MemoryLimitExceeded,
    /// A second memory import was requested for one session.
    UnsupportedMultipleMemories,
    /// The module's declared signature differs from the host handler's.
    SignatureMismatch(String),
    /// The invoked export name is not among the module's exports.
    UnknownExport(String),
}

/// Failure of a linear-memory operation.
#[derive(Debug, Clone, Copy, PartialEq, Eq, Structural)]
pub enum MemoryError {
    /// `offset + length` exceeds the current size.
    OutOfBounds,
    /// Growing would exceed the declared maximum (or the host ceiling).
    MaximumExceeded,
}

/// The terminal state of one export invocation.
#[derive(Debug, Clone, PartialEq, Eq)]
pub enum InvokeOutcome {
    /// The export ran to completion, with its typed return value if any.
    Completed(Option<Value>),
    /// The export was terminated by a classified runtime trap.
    Trapped(TrapKind),
    /// The invocation never started (a resolution-level failure).
    HostError(HostErrorKind),
}

} // verus!
