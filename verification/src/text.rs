//! Strings as the engine takes them: bytes without a zero byte.

use vstd::prelude::*;
use vstd::utf8::{decode_utf8, encode_utf8, valid_utf8};

verus! {

/// No byte of `bytes` is zero.
pub open spec fn nul_free(bytes: Seq<u8>) -> bool {
    forall|i: int| 0 <= i < bytes.len() ==> bytes[i] != 0
}

/// `at` is the place of the first zero byte of `bytes`.
pub open spec fn first_nul_at(bytes: Seq<u8>, at: int) -> bool {
    &&& 0 <= at < bytes.len()
    &&& bytes[at] == 0
    &&& forall|i: int| 0 <= i < at ==> bytes[i] != 0
}

/// A byte sequence has at most one first zero byte.
pub proof fn first_nul_unique(bytes: Seq<u8>, a: int, b: int)
    requires
        first_nul_at(bytes, a),
        first_nul_at(bytes, b),
    ensures
        a == b,
{
}

/// A byte sequence either has no zero byte or has a first one, never both.
pub proof fn nul_free_or_first_nul(bytes: Seq<u8>)
    ensures
        nul_free(bytes) <==> !exists|at: int| first_nul_at(bytes, at),
    decreases bytes.len(),
{
    if nul_free(bytes) {
        assert forall|at: int| !first_nul_at(bytes, at) by {}
    } else {
        let i = choose|i: int| 0 <= i < bytes.len() && bytes[i] == 0;
        first_nul_exists(bytes, i);
    }
}

proof fn first_nul_exists(bytes: Seq<u8>, i: int)
    requires
        0 <= i < bytes.len(),
        bytes[i] == 0,
    ensures
        exists|at: int| first_nul_at(bytes, at),
    decreases i,
{
    if exists|j: int| 0 <= j < i && bytes[j] == 0 {
        let j = choose|j: int| 0 <= j < i && bytes[j] == 0;
        first_nul_exists(bytes, j);
    } else {
        assert(first_nul_at(bytes, i));
    }
}

/// The place of the first zero byte in `bytes`, if it has one.
pub fn find_nul(bytes: &[u8]) -> (found: Option<usize>)
    ensures
        found is None <==> nul_free(bytes@),
        found is Some ==> first_nul_at(bytes@, found->0 as int),
{
    let mut i: usize = 0;
    while i < bytes.len()
        invariant
            i <= bytes.len(),
            forall|j: int| 0 <= j < i ==> bytes@[j] != 0,
        decreases bytes.len() - i,
    {
        if bytes[i] == 0 {
            return Some(i);
        }
        i += 1;
    }
    None
}

/// Why a byte string was refused: it holds a zero byte.
#[derive(Debug, PartialEq, Eq)]
pub struct NulError {
    position: usize,
    bytes: Vec<u8>,
}

/// What a `NulError` stands for.
pub ghost struct NulErrorView {
    pub position: int,
    pub bytes: Seq<u8>,
}

impl View for NulError {
    type V = NulErrorView;

    closed spec fn view(&self) -> NulErrorView {
        NulErrorView { position: self.position as int, bytes: self.bytes@ }
    }
}

impl NulError {
    /// The place of the first zero byte in the refused bytes.
    pub fn nul_position(&self) -> (at: usize)
        ensures
            at == self@.position,
    {
        self.position
    }

    /// The refused bytes, as they were handed in.
    pub fn into_vec(self) -> (bytes: Vec<u8>)
        ensures
            bytes@ == self@.bytes,
    {
        self.bytes
    }
}

/// A byte string that the engine can take: it holds no zero byte.
#[derive(Debug, PartialEq, Eq)]
pub struct CText {
    bytes: Vec<u8>,
}

impl View for CText {
    type V = Seq<u8>;

    closed spec fn view(&self) -> Seq<u8> {
        self.bytes@
    }
}

impl CText {
    /// What holds of every `CText` that the program holds.
    #[verifier::type_invariant]
    pub closed spec fn zero_free(&self) -> bool {
        nul_free(self.bytes@)
    }

    /// What [`CText::zero_free`] says: the bytes hold no zero byte.
    pub proof fn zero_free_bytes(&self)
        requires
            self.zero_free(),
        ensures
            nul_free(self@),
    {
    }

    /// Takes `bytes` if they hold no zero byte, and refuses them otherwise,
    /// naming the first zero byte.
    pub fn new(bytes: Vec<u8>) -> (made: Result<CText, NulError>)
        ensures
            made is Ok <==> nul_free(bytes@),
            made is Ok ==> made->Ok_0@ == bytes@,
            made is Err ==> made->Err_0@.bytes == bytes@ && first_nul_at(
                bytes@,
                made->Err_0@.position,
            ),
    {
        match find_nul(bytes.as_slice()) {
            Some(position) => Err(NulError { position, bytes }),
            None => Ok(CText { bytes }),
        }
    }

    /// Takes the UTF-8 bytes of `text` under the rule of [`CText::new`].
    pub fn from_text(text: &str) -> (made: Result<CText, NulError>)
        ensures
            made is Ok <==> nul_free(encode_utf8(text@)),
            made is Ok ==> made->Ok_0@ == encode_utf8(text@),
            made is Err ==> made->Err_0@.bytes == encode_utf8(text@) && first_nul_at(
                encode_utf8(text@),
                made->Err_0@.position,
            ),
    {
        CText::new(text.as_bytes_vec())
    }

    /// The bytes, none of which is zero.
    pub fn as_bytes(&self) -> (bytes: &[u8])
        ensures
            bytes@ == self@,
            nul_free(bytes@),
    {
        proof {
            use_type_invariant(self);
        }
        self.bytes.as_slice()
    }

    /// Gives the bytes up, none of which is zero.
    pub fn into_bytes(self) -> (bytes: Vec<u8>)
        ensures
            bytes@ == self@,
            nul_free(bytes@),
    {
        proof {
            use_type_invariant(&self);
        }
        self.bytes
    }
}

/// The letters of bytes that are all ASCII.
pub open spec fn ascii_text(bytes: Seq<u8>) -> Seq<char> {
    Seq::new(bytes.len(), |i: int| bytes[i] as char)
}

/// Bytes that are all ASCII are well-formed UTF-8, and decode letter for
/// letter.
pub proof fn ascii_decodes_as_itself(bytes: Seq<u8>)
    requires
        forall|i: int| 0 <= i < bytes.len() ==> bytes[i] < 0x80,
    ensures
        valid_utf8(bytes),
        decode_utf8(bytes) == ascii_text(bytes),
{
    let text = ascii_text(bytes);
    assert(vstd::utf8::is_ascii_chars(text)) by {
        assert forall|i: int| 0 <= i < text.len() implies '\0' <= #[trigger] text[i] <= '\u{7f}' by {
            let b = bytes[i];
            assert(b < 0x80);
            assert(b as char as u32 == b as u32);
        }
    }
    vstd::utf8::is_ascii_chars_encode_utf8(text);
    assert(encode_utf8(text) =~= bytes) by {
        assert forall|i: int| 0 <= i < bytes.len() implies encode_utf8(text)[i] == bytes[i] by {
            assert(text[i] as u8 == encode_utf8(text)[i]);
            assert(bytes[i] as char as u8 == bytes[i]);
        }
    }
    vstd::utf8::encode_utf8_valid_utf8(text);
    vstd::utf8::encode_utf8_decode_utf8(text);
}

/// The text that `String::from_utf8_lossy` makes of `bytes`: their decoding,
/// with each ill-formed stretch replaced by U+FFFD.
pub uninterp spec fn utf8_lossy(bytes: Seq<u8>) -> Seq<char>;

/// Decodes `bytes` with `String::from_utf8_lossy`. Trusted: the result is the
/// lossy decoding, which for well-formed UTF-8 is the plain decoding.
#[verifier::external_body]
pub(crate) fn decode_lossy(bytes: &[u8]) -> (text: String)
    ensures
        text@ == utf8_lossy(bytes@),
        valid_utf8(bytes@) ==> text@ == decode_utf8(bytes@),
{
    String::from_utf8_lossy(bytes).into_owned()
}

/// Asks `std::str::from_utf8` whether `bytes` are well-formed UTF-8. Trusted:
/// it succeeds on well-formed UTF-8 and on nothing else.
#[verifier::external_body]
pub(crate) fn is_utf8(bytes: &[u8]) -> (valid: bool)
    ensures
        valid == valid_utf8(bytes@),
{
    std::str::from_utf8(bytes).is_ok()
}

} // verus!
