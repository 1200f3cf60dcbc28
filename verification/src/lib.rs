//! Load-time overrides of dynamically linked functions.
//!
//! The crate turns the definition of an override into an exported wrapper
//! that can still reach the next definition of the same symbol in link
//! order, and it holds the rules that the wrapper follows at run time:
//! how the next symbol is resolved once, and how a thread is kept from
//! entering its own override twice.
pub mod text;
pub mod path;
pub mod tree;
pub mod rewrite;
pub mod error;
pub mod signature;
pub mod pointer_type;
pub mod args;
pub mod transform;
pub mod guard;
pub mod symbol;
pub mod handle;
