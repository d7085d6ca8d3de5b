//! Fluent utilities for arbitrary values: a structural hash accessor, two
//! ownership-passing chaining combinators, and a symlink-aware existence
//! probe for filesystem paths.
//!
//! Each operation is a single, self-contained call: `hashcode` digests a
//! value's structural content, `bind` consumes a value and returns whatever
//! the supplied function makes of it, the `hold` pair lets a function look at
//! or mutate a value before handing it back, and `exists_symlink` reports
//! whether anything occupies a path without following a trailing symlink.

pub mod chain;
pub mod hash;
pub mod probe;

pub use chain::Bind;
pub use chain::Hold;
pub use hash::HashCode;
pub use probe::SymlinkExists;
