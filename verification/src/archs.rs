//! The architectures that this library describes.

pub mod x86;
