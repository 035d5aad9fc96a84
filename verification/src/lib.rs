//! A program's version line: the version number, optionally followed by the
//! commit it was built from and the toolchain that built it.

pub mod cached;
pub mod version;
