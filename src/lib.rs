use vstd::prelude::*;

pub mod addr;
pub mod bytes;
pub mod kinds;
pub mod error;
pub mod elf;
pub mod loader;
pub mod render;
