//! Audio output device registry: reading a hardware inventory into an ordered
//! list of devices, and resolving what a user typed to one of them.

pub mod device;
pub mod error;
pub mod inventory;
pub mod json;
pub mod laws;
pub mod manager;
pub mod text;
