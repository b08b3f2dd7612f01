//! A registry that binds a domain name to a controlling authority, a current
//! owner and a possession token, with the checks that guard each step of a
//! record's life.

pub mod key;
pub mod address;
pub mod marker;
pub mod registry;
pub mod lifecycle;
pub mod laws;
