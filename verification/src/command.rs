//! What the commands decide: the data they work on and the rules they apply.

pub mod admin;
pub mod data;
pub mod general;
pub mod imp;
pub mod owner;
