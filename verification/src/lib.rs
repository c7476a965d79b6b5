//! Logic of a small archiver: which codec an archive uses, how the tokens
//! of a creation command group source patterns and rename targets, and under
//! which name each source enters the archive.
//!
//! The library decides and the caller acts. Callers hand in what they found
//! on disk (whether a path exists, whether it is a directory) and carry out
//! the requests that the functions of this crate return: they walk the
//! streams of matches, and read and write the files. The library touches the
//! file system in one place only: compiling a source pattern asks whether the
//! directory in which the search will start is there.

pub mod codec;
pub mod directive;
pub mod error;
pub mod grammar;
pub mod path;
pub mod pattern;
pub mod report;
pub mod request;
pub mod text;
