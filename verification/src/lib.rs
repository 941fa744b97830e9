//! A verified host for the TypeScript compiler running in a V8 isolate: the
//! operations the compiler calls, the JSON replies it gets, the bundled declaration
//! files, the compiler options and start-up scripts, and the module plan of a V8
//! snapshot.

pub mod assets;
pub mod compiler;
pub mod json;
pub mod macro_args;
pub mod ops;
pub mod resolution;
pub mod snapshot;
pub mod source_file;
pub mod state;
pub mod text;
