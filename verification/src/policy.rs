//! Value-function artifacts: their records, their binary codec and the checks on a
//! whole checkpoint.

pub mod checkpoint;
pub mod decode;
pub mod encode;
pub mod manifest;
pub mod records;
pub mod schema;
pub mod tables;
