//! Runtime evaluation of source fragments: a fragment is wrapped into a
//! compilation unit, built by the external compiler into a loadable module,
//! and its entry function is bound to a caller-declared signature. The same
//! machinery backs `defmacro!`, which compiles a macro's expansion routine and
//! installs it in a macro table.
//!
//! This crate holds the decisions of that pipeline: the text of the unit, the
//! compiler's arguments, the order of the build steps and how each outcome is
//! classified, the shape of a macro definition, and the macro table. Running the
//! compiler, touching the file system and loading native code is left to the
//! caller, which reports each outcome back as a plain value.
use vstd::prelude::*;

pub mod error;
pub mod unit;
pub mod pipeline;
pub mod table;
pub mod bridge;

pub use error::EvalError;
