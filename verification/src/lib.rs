//! A library for a self-instrumenting executable: an invocation counter is
//! persisted inside the executable's own resource section. The modules here
//! locate that counter by walking the resource directory tree, read and write
//! its eight-byte window, and compute the patched next-generation image; all
//! file handling stays with the caller.

pub mod bytes;
pub mod counter;
pub mod rsrc;
pub mod image;
