//! Host-embedding boundary for a bytecode sandbox.
//!
//! A trusted host loads an untrusted guest module, wires it to a restricted
//! set of host capabilities, executes exported entry points, and recovers
//! from guest faults without corrupting the host process.  The pieces are:
//!
//! - [`memory::LinearMemory`]: the owned, page-sized, bounds-checked byte
//!   buffer shared between host and guest for one session;
//! - [`resolver::ImportResolver`]: binds requested imports (functions by
//!   name and signature, memory by size limits) or fails instantiation;
//! - [`dispatch::HostExternals`]: the host-function table, invoked by slot
//!   index with dynamically typed arguments;
//! - [`trap`]: the classified, terminal outcomes of guest execution;
//! - [`session::ExecutionSession`]: composes the above and exposes
//!   "invoke an export by name with typed arguments";
//! - [`guest`] and [`codec`]: the key/value marshaling example built on the
//!   linear memory and the host-function table, with its wire formats.
//!
//! The bytecode parser, validator and instruction-level interpreter are
//! external collaborators: this crate only consumes their outcomes.

pub mod codec;
pub mod dispatch;
pub mod guest;
pub mod memory;
pub mod resolver;
pub mod session;
pub mod store;
pub mod trap;
pub mod values;
