//! Extension modules that are linked into the program and offered to the
//! interpreter by name.

use vstd::prelude::*;
use vstd::utf8::encode_utf8;

use crate::native_string::is_first_nul;
use crate::native_string::NativeString;
use crate::text::text_of;

verus! {

/// A handle on the C function that initializes an extension module.
///
/// The handle is the function's address. It is compared and passed on,
/// never called: whoever supplies it keeps the function alive for the whole
/// run of the program.
#[derive(Clone, Copy, Debug, PartialEq, Eq, Structural)]
pub struct InitFunc {
    address: usize,
}

impl View for InitFunc {
    type V = usize;

    closed spec fn view(&self) -> usize {
        self.address
    }
}

impl InitFunc {
    /// The handle on the function at `address`.
    pub fn from_address(address: usize) -> (handle: InitFunc)
        ensures
            handle@ == address,
    {
        InitFunc { address }
    }

    /// The address of the function.
    pub fn address(&self) -> (address: usize)
        ensures
            address == self@,
    {
        self.address
    }
}

/// An extra extension module to make available to the interpreter.
#[derive(Clone, Debug)]
pub struct ExtensionModule {
    /// Name of the extension module.
    pub name: NativeString,
    /// Extension module initialization function.
    pub init_func: InitFunc,
}

/// An extension module as a mathematical value.
pub struct ExtensionModuleView {
    pub name: Seq<u8>,
    pub init_func: usize,
}

impl View for ExtensionModule {
    type V = ExtensionModuleView;

    open spec fn view(&self) -> ExtensionModuleView {
        ExtensionModuleView { name: self.name@, init_func: self.init_func@ }
    }
}

impl DeepView for ExtensionModule {
    type V = ExtensionModuleView;

    open spec fn deep_view(&self) -> ExtensionModuleView {
        self@
    }
}

/// Why a name cannot be registered with the interpreter: it holds a NUL.
#[derive(Clone, Copy, Debug, PartialEq, Eq, Structural)]
pub struct NameEncodingError {
    /// Index of the first NUL byte in the rejected name.
    pub nul_position: usize,
}

impl ExtensionModule {
    /// Binds `name` to `init_func`. Fails exactly when `name` holds a NUL
    /// character. The module that was made holds the UTF-8 bytes of `name`,
    /// which read back as `name`, and the handle as given.
    pub fn new(name: &str, init_func: InitFunc) -> (made: Result<
        ExtensionModule,
        NameEncodingError,
    >)
        ensures
            made is Err <==> name@.contains('\0'),
            made matches Ok(module) ==> module@ == (ExtensionModuleView {
                name: encode_utf8(name@),
                init_func: init_func@,
            }) && text_of(module@.name) == Some(name@),
            made matches Err(e) ==> is_first_nul(encode_utf8(name@), e.nul_position as int),
    {
        match NativeString::new(name) {
            Ok(name) => Ok(ExtensionModule { name, init_func }),
            Err(e) => Err(NameEncodingError { nul_position: e.nul_position }),
        }
    }

    /// The name as text. `None` exactly when the name is not valid UTF-8.
    pub fn name_text(&self) -> (text: Option<&str>)
        ensures
            match text {
                Some(t) => text_of(self@.name) == Some(t@),
                None => text_of(self@.name) is None,
            },
    {
        self.name.to_str()
    }

    /// Whether `self` and `other` are registered under the same name. Two
    /// modules count as duplicates of each other by name alone.
    pub fn same_name(&self, other: &ExtensionModule) -> (same: bool)
        ensures
            same == (self@.name == other@.name),
    {
        self.name.same_bytes(&other.name)
    }
}

} // verus!
