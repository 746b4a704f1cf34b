//! Shared data types of the node: user-input validation, input shapes,
//! and generic HTTP resources.

pub mod inputs;
pub mod resource;
pub mod validate;
