//! What holds of the library as a whole, stated once and proved: of the
//! header rules, of the addresses, and of the bodies.

pub mod address;
pub mod header;
pub mod wire;
