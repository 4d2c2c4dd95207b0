//! What the interpreter runs once it is up.

use vstd::prelude::*;
use vstd::utf8::encode_utf8;

use crate::native_string::is_first_nul;
use crate::native_string::NativeString;
use crate::text::text_of;

verus! {

/// The code to run by default. Exactly one of these holds at any time.
#[derive(Clone, Debug)]
pub enum PythonRunMode {
    /// Run nothing.
    Noop,
    /// Run a Python REPL.
    Repl,
    /// Run a Python module as the main module.
    Module { module: String },
    /// Evaluate Python code from a string.
    Eval { code: String },
    /// Execute Python code in a file.
    ///
    /// The path is kept NUL-terminated, as the interpreter's C interface
    /// takes it, so the only step that can fail is making this variant.
    File { path: NativeString },
}

/// A run mode as a mathematical value.
pub enum PythonRunModeView {
    Noop,
    Repl,
    Module { module: Seq<char> },
    Eval { code: Seq<char> },
    File { path: Seq<u8> },
}

impl PythonRunModeView {
    /// The file path as text: `Some` for a `File` whose path is valid UTF-8.
    pub open spec fn path_text(self) -> Option<Seq<char>> {
        match self {
            PythonRunModeView::File { path } => text_of(path),
            _ => None,
        }
    }
}

impl View for PythonRunMode {
    type V = PythonRunModeView;

    open spec fn view(&self) -> PythonRunModeView {
        match self {
            PythonRunMode::Noop => PythonRunModeView::Noop,
            PythonRunMode::Repl => PythonRunModeView::Repl,
            PythonRunMode::Module { module } => PythonRunModeView::Module { module: module@ },
            PythonRunMode::Eval { code } => PythonRunModeView::Eval { code: code@ },
            PythonRunMode::File { path } => PythonRunModeView::File { path: path@ },
        }
    }
}

/// Why a path cannot be handed to the interpreter: it holds a NUL.
#[derive(Clone, Copy, Debug, PartialEq, Eq, Structural)]
pub struct PathEncodingError {
    /// Index of the first NUL byte in the rejected path.
    pub nul_position: usize,
}

impl PythonRunMode {
    /// The mode that executes the file at `path`. Fails exactly when `path`
    /// holds a NUL character. The mode that was made holds the UTF-8 bytes
    /// of `path`, and its path reads back as `path`.
    pub fn file(path: &str) -> (made: Result<PythonRunMode, PathEncodingError>)
        ensures
            made is Err <==> path@.contains('\0'),
            made matches Ok(mode) ==> mode@ == (PythonRunModeView::File {
                path: encode_utf8(path@),
            }) && mode@.path_text() == Some(path@),
            made matches Err(e) ==> is_first_nul(encode_utf8(path@), e.nul_position as int),
    {
        match NativeString::new(path) {
            Ok(path) => Ok(PythonRunMode::File { path }),
            Err(e) => Err(PathEncodingError { nul_position: e.nul_position }),
        }
    }

    /// The mode that executes the file whose path is `path`, for a path that
    /// need not be UTF-8. Fails exactly when `path` holds a NUL byte.
    pub fn file_from_bytes(path: &[u8]) -> (made: Result<PythonRunMode, PathEncodingError>)
        ensures
            made is Err <==> path@.contains(0u8),
            made matches Ok(mode) ==> mode@ == (PythonRunModeView::File { path: path@ }),
            made matches Err(e) ==> is_first_nul(path@, e.nul_position as int),
    {
        match NativeString::from_bytes(path) {
            Ok(path) => Ok(PythonRunMode::File { path }),
            Err(e) => Err(PathEncodingError { nul_position: e.nul_position }),
        }
    }

    /// The path of a `File` mode as text. `None` for every other mode, and
    /// for a path that is not valid UTF-8.
    pub fn path_text(&self) -> (text: Option<&str>)
        ensures
            match text {
                Some(t) => self@.path_text() == Some(t@),
                None => self@.path_text() is None,
            },
    {
        match self {
            PythonRunMode::File { path } => path.to_str(),
            _ => None,
        }
    }
}

} // verus!
