//! A custom filter operator, a few physical expressions and a random table
//! source, modelled on plain values so that their logic can be proved.

pub mod schema;
pub mod values;
pub mod operator;
pub mod kernels;
pub mod expr;
pub mod filter;
pub mod random_table;
