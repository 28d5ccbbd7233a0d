pub mod bits;
pub mod field;
pub mod zero_lib;
pub mod zero_orb;
pub mod client;
pub mod common_reference;
