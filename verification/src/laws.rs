//! What holds of operations as a whole, for every world that they are carried out in.

pub mod creation;
pub mod current;
pub mod descriptors;
pub mod destruction;
pub mod extensions;
pub mod framebuffers;
pub mod surfaces;
pub mod symbols;
pub mod values;
