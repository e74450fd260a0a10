//! Finds the functions of a Rust source file that a reloadable dynamic library exports, and
//! declares each of them by its signature alone.
//!
//! A function is exported when it stands at the top level of the file, is `pub` without
//! restriction and carries `#[no_mangle]`. Its declaration keeps the name, the parameters and
//! the return type; every parameter must be a plain name, so that a caller can be written
//! that hands the arguments on.
//!
//! The crate reads no file itself. [`locate`] says which file to read, the caller reads it and
//! reports what it found, and [`extract`] does the rest: [`syntax`] parses the text with `syn`,
//! [`filter`] chooses the exported functions, [`declare`] builds their declarations. Failures
//! are listed in [`error`]; [`laws`] holds what is proved of extraction as a whole. All
//! contracts are stated over the views of the types in [`model`].

pub mod declare;
pub mod error;
pub mod extract;
pub mod filter;
pub mod laws;
pub mod locate;
pub mod model;
pub mod syntax;

pub use crate::declare::ident_from_pat;
pub use crate::extract::read_unmangled_functions_from_file;
