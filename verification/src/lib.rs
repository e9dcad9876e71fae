//! A static-analysis rule that finds places inside an interface
//! implementation block where code references a concrete type directly even
//! though the block binds an associated-type name to that very type, so the
//! reference could go through the associated name instead.
//!
//! The analysis makes two passes over each block: it first collects the
//! associated-type bindings, then walks every method body of the block for
//! type-path occurrences that structurally match a collected binding. Each
//! match becomes a [`tree::Finding`]. Blocks are independent: nothing
//! collected in one block is consulted while another is scanned.
pub mod clone;
pub mod index;
pub mod laws;
pub mod matcher;
pub mod model;
pub mod pipeline;
pub mod scanner;
pub mod tree;
pub mod walker;
