//! Content-addressed graph of typed, pure computations.
//!
//! The library decides everything that does not need the store or the
//! type/value service: which operands are usable, which binder names are
//! fresh, what the full application of an operator to its operands is, what a
//! publish has to write, which registry buckets a query keeps, whether a
//! re-derived node matches a received one, and how a state-machine slot moves.
pub mod builder;
pub mod discover;
pub mod entry;
pub mod expr;
pub mod publish;
pub mod session;
pub mod slot;
pub mod validate;
