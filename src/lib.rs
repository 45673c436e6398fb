//! Registry-driven reconstruction of dynamic values from a self-describing
//! input tree.

pub mod input;
pub mod registry;
pub mod value;
pub mod error;
pub mod processor;
pub mod decode;
pub mod deserializer;
pub mod laws;
