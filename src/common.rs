pub mod address;
pub mod hash;
