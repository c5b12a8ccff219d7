//! The header fixer's options.

pub mod args;
pub mod mbc;
