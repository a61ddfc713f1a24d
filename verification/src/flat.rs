//! The FlatBuffers wire format: how stored values are read back, how a buffer is
//! laid out while it is being built, and the builder that writes it.

pub mod builder;
pub mod layout;
pub mod objects;
pub mod wire;
