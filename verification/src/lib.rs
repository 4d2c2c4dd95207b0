//! Configuration model for an embedded Python interpreter.
//!
//! A [`PythonConfig`] is a plain value that holds every switch the
//! interpreter is started with. Building one has no side effect: nothing is
//! read, written or called. The one step that can fail is turning text into
//! the NUL-terminated form that the interpreter's C interface takes, for the
//! path of a file to run and for the name of an extension module.

pub mod allocator;
pub mod config;
pub mod extension;
pub mod native_string;
pub mod run_mode;
pub mod terminfo;
pub mod text;

pub use crate::allocator::PythonRawAllocator;
pub use crate::config::PythonConfig;
pub use crate::extension::ExtensionModule;
pub use crate::extension::InitFunc;
pub use crate::extension::NameEncodingError;
pub use crate::native_string::NativeString;
pub use crate::native_string::NulError;
pub use crate::run_mode::PathEncodingError;
pub use crate::run_mode::PythonRunMode;
pub use crate::terminfo::TerminfoResolution;
