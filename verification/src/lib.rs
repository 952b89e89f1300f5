//! Verified core of the star viewer: the fleet model, star naming, the star
//! catalogue, input decisions and GPU buffer layout arithmetic.
pub mod fleet;
pub mod naming;
pub mod catalog;
pub mod controls;
pub mod layout;
