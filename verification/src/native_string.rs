//! Byte strings in the form that C interfaces take: no NUL byte inside, and
//! one NUL byte at the end.

use vstd::prelude::*;
use vstd::slice::slice_subrange;
use vstd::slice::slice_to_vec;
use vstd::utf8::encode_utf8;
use vstd::utf8::encode_utf8_decode_utf8;
use vstd::utf8::valid_utf8;

use crate::text::lemma_text_encoding_nul;
use crate::text::lemma_text_round_trip;
use crate::text::text_of;

verus! {

/// Whether `position` is the index of the first NUL byte of `bytes`.
pub open spec fn is_first_nul(bytes: Seq<u8>, position: int) -> bool {
    &&& 0 <= position < bytes.len()
    &&& bytes[position] == 0
    &&& forall|i: int| 0 <= i < position ==> bytes[i] != 0
}

/// Why a byte sequence has no NUL-terminated form: it holds a NUL byte.
#[derive(Clone, Copy, Debug, PartialEq, Eq, Structural)]
pub struct NulError {
    /// Index of the first NUL byte in the rejected input.
    pub nul_position: usize,
}

/// Looks for the first NUL byte of `bytes`.
pub fn find_nul(bytes: &[u8]) -> (found: Option<usize>)
    ensures
        found is Some <==> bytes@.contains(0u8),
        found matches Some(p) ==> is_first_nul(bytes@, p as int),
{
    let mut i: usize = 0;
    while i < bytes.len()
        invariant
            i <= bytes@.len(),
            forall|j: int| 0 <= j < i ==> bytes@[j] != 0,
        decreases bytes@.len() - i,
    {
        if bytes[i] == 0 {
            return Some(i);
        }
        i += 1;
    }
    None
}

/// Whether two byte slices hold the same bytes.
pub fn bytes_equal(left: &[u8], right: &[u8]) -> (same: bool)
    ensures
        same == (left@ == right@),
{
    if left.len() != right.len() {
        return false;
    }
    let mut i: usize = 0;
    while i < left.len()
        invariant
            i <= left@.len(),
            left@.len() == right@.len(),
            forall|j: int| 0 <= j < i ==> left@[j] == right@[j],
        decreases left@.len() - i,
    {
        if left[i] != right[i] {
            return false;
        }
        i += 1;
    }
    assert(left@ =~= right@);
    true
}

/// The error of `core::str::from_utf8`, carried through unread.
#[verifier::external_type_specification]
#[verifier::external_body]
pub struct ExUtf8Error(core::str::Utf8Error);

/// `core::str::from_utf8`: succeeds exactly on valid UTF-8, and the string
/// slice it then returns is made of the very bytes it was given.
#[verifier::external_body]
fn str_from_utf8(bytes: &[u8]) -> (parsed: Result<&str, core::str::Utf8Error>)
    ensures
        parsed is Ok <==> valid_utf8(bytes@),
        parsed matches Ok(text) ==> encode_utf8(text@) == bytes@,
{
    core::str::from_utf8(bytes)
}

/// An owned byte string that ends in a NUL byte and holds no other.
///
/// Its view is the content, without the terminator.
#[derive(Debug)]
pub struct NativeString {
    bytes: Vec<u8>,
}

impl View for NativeString {
    type V = Seq<u8>;

    closed spec fn view(&self) -> Seq<u8> {
        self.bytes@.drop_last()
    }
}

impl Clone for NativeString {
    fn clone(&self) -> (copy: Self)
        ensures
            copy@ == self@,
    {
        proof {
            use_type_invariant(self);
        }
        NativeString { bytes: slice_to_vec(self.bytes.as_slice()) }
    }
}

impl NativeString {
    #[verifier::type_invariant]
    spec fn terminated(self) -> bool {
        is_first_nul(self.bytes@, self.bytes@.len() - 1)
    }

    /// Makes a native string of `bytes`. Fails exactly when `bytes` holds a
    /// NUL byte, and then tells where the first one is.
    pub fn from_bytes(bytes: &[u8]) -> (made: Result<NativeString, NulError>)
        ensures
            made is Err <==> bytes@.contains(0u8),
            made matches Ok(s) ==> s@ == bytes@,
            made matches Err(e) ==> is_first_nul(bytes@, e.nul_position as int),
    {
        match find_nul(bytes) {
            Some(p) => Err(NulError { nul_position: p }),
            None => {
                let mut owned = slice_to_vec(bytes);
                owned.push(0);
                proof {
                    assert(owned@.drop_last() =~= bytes@);
                    assert forall|i: int| 0 <= i < owned@.len() - 1 implies owned@[i] != 0 by {
                        assert(bytes@[i] == owned@[i]);
                        if bytes@[i] == 0 {
                            assert(bytes@.contains(0u8));
                        }
                    }
                }
                Ok(NativeString { bytes: owned })
            },
        }
    }

    /// Makes a native string of the UTF-8 bytes of `text`. Fails exactly when
    /// `text` holds a NUL character, and then tells at which byte the first
    /// one stands. A string that was made reads back as `text`.
    pub fn new(text: &str) -> (made: Result<NativeString, NulError>)
        ensures
            made is Err <==> text@.contains('\0'),
            made matches Ok(s) ==> s@ == encode_utf8(text@) && text_of(s@) == Some(text@),
            made matches Err(e) ==> is_first_nul(encode_utf8(text@), e.nul_position as int),
    {
        proof {
            lemma_text_encoding_nul(text@);
            lemma_text_round_trip(text@);
        }
        Self::from_bytes(text.as_bytes())
    }

    /// The content, without the terminator. It holds no NUL byte.
    pub fn as_bytes(&self) -> (content: &[u8])
        ensures
            content@ == self@,
            !self@.contains(0u8),
    {
        proof {
            use_type_invariant(self);
        }
        let all = self.bytes.as_slice();
        let content = slice_subrange(all, 0, all.len() - 1);
        proof {
            assert(content@ =~= self@);
            if self@.contains(0u8) {
                let k = choose|k: int| 0 <= k < self@.len() && self@[k] == 0;
                assert(self.bytes@[k] == 0);
            }
        }
        content
    }

    /// The content followed by the terminating NUL byte.
    pub fn as_bytes_with_nul(&self) -> (terminated: &[u8])
        ensures
            terminated@ == self@.push(0u8),
    {
        proof {
            use_type_invariant(self);
            assert(self.bytes@ =~= self@.push(0u8));
        }
        self.bytes.as_slice()
    }

    /// The content as text. `None` exactly when the content is not valid
    /// UTF-8.
    pub fn to_str(&self) -> (text: Option<&str>)
        ensures
            match text {
                Some(t) => text_of(self@) == Some(t@),
                None => text_of(self@) is None,
            },
    {
        match str_from_utf8(self.as_bytes()) {
            Ok(t) => {
                proof {
                    encode_utf8_decode_utf8(t@);
                }
                Some(t)
            },
            Err(_) => None,
        }
    }

    /// Number of bytes of the content.
    pub fn len(&self) -> (n: usize)
        ensures
            n == self@.len(),
    {
        proof {
            use_type_invariant(self);
        }
        self.bytes.len() - 1
    }

    /// Whether the content is empty.
    pub fn is_empty(&self) -> (empty: bool)
        ensures
            empty == (self@.len() == 0),
    {
        self.len() == 0
    }

    /// Whether `self` and `other` hold the same content.
    pub fn same_bytes(&self, other: &NativeString) -> (same: bool)
        ensures
            same == (self@ == other@),
    {
        bytes_equal(self.as_bytes(), other.as_bytes())
    }
}

} // verus!
