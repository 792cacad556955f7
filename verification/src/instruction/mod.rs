pub mod add;
pub mod and;
pub mod branch;
pub mod shift;
