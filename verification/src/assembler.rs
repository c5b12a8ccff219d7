//! The assembler's section manager and the values it exchanges with its driver.

pub mod attrs;
pub mod emission;
pub mod expr;
pub mod language;
pub mod names;
pub mod sections;
pub mod theorems;
