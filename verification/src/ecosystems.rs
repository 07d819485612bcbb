//! The ecosystems: what each supplies, the four that are built in, and the
//! registry that holds them.

pub mod go;
pub mod node;
pub mod python;
pub mod registry;
pub mod rust;
pub mod tables;
pub mod traits;
