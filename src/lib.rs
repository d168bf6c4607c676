//! Small demonstrations of language features (bindings, conversions, custom
//! types, block expressions). Each demonstration computes the lines it shows;
//! the contracts state those lines exactly.
pub mod text;
pub mod runner;
pub mod bindings;
pub mod conversion;
pub mod records;
pub mod enums;
pub mod list;
pub mod globals;
pub mod expressions;
pub mod custom_types;
