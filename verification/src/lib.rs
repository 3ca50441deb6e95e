//! A parser for MaterialX documents and a resolver for the inputs of their nodes.
//!
//! A document is read into an ordered tree of [`Element`]s. The inputs of a node are
//! then resolved to typed values by following the references between nodes.
pub mod ast;
pub mod data_types;
pub mod error;
pub mod literal;
pub mod message;
pub mod nodes;
pub mod sources;
pub mod standard_material;
pub mod text;


pub use ast::{Element, MaterialX};
pub use error::Error;
