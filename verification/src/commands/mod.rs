//! What the commands of the program decide, without their input and
//! output.

pub mod image;
pub mod listen;
pub mod send;
