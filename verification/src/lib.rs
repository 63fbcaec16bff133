//! Race-free, symlink-confined file opening.
//!
//! Given a directory and an untrusted path, the resolver walks the path
//! component by component and guarantees that the opened file lies beneath
//! that directory, whatever symlinks, `..` components or concurrent renames
//! the path runs into. The walk itself is a verified state machine: every
//! decision — how a path tokenizes, when a symlink may be expanded, when a
//! `..` must be re-verified, which error an outcome maps to — is made here
//! and proved against its contract. The machine asks its caller to perform
//! each system call and hands back the next decision for whatever the
//! kernel answered.
//!
//! The modules, roughly in the order a resolution touches them:
//! - [`flags`]: the lookup flags and the decoded open-flag word;
//! - [`path`]: the tokenizer that turns a byte path into a component
//!   queue, and the splicer that feeds symlink targets back into it;
//! - [`budget`]: the bounded symlink-expansion counter;
//! - [`resolver`]: the state machine itself, with its mathematical
//!   transition function;
//! - [`laws`]: what is proved of the machine — budget bounds, escape
//!   refusal, symlink discipline, mount confinement, determinism;
//! - [`errno`]: the canonical error set;
//! - [`meta`]: file identities and types as stat reports them;
//! - [`fastpath`]: the decisions of the single-syscall fast path;
//! - [`mntid`]: the mount-identity probes' parsing and classification;
//! - [`openopts`]: the open-options builder;
//! - [`dirplan`]: the path splitting of operations inside a directory.

pub mod budget;
pub mod dirplan;
pub mod errno;
pub mod fastpath;
pub mod flags;
pub mod laws;
pub mod meta;
pub mod mntid;
pub mod openopts;
pub mod path;
pub mod resolver;

pub use budget::{SymlinkCounter, DEFAULT_SYMLOOP_MAX};
pub use errno::Errno;
pub use flags::{AccessMode, LookupFlags, OpenFlags};
pub use meta::{FileId, FileType, MountId};
