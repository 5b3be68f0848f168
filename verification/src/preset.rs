//! The utilities and variants that the generator starts with.

pub mod blocks;
pub mod helpers;
pub mod dynamics;
pub mod adder;
pub mod statics;
pub mod variants;
