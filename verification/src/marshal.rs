//! Scalar marshalling: text, byte buffers and paths in their null-terminated native form,
//! and native text read back into owned values.

use vstd::prelude::*;
use vstd::slice::*;
use vstd::string::*;
use vstd::utf8::*;

use crate::err::LibcryptErr;

verus! {

/// The error that `core::str::from_utf8` reports on bytes that are no valid UTF-8.
pub uninterp spec fn utf8_error_of(bytes: Seq<u8>) -> std::str::Utf8Error;

/// `core::str::from_utf8` accepts exactly the valid UTF-8 encodings and hands back the bytes
/// it was given, as text. On other bytes it returns an error that depends on the bytes alone.
pub assume_specification<'a>[ core::str::from_utf8 ](v: &'a [u8]) -> (r: Result<
    &'a str,
    std::str::Utf8Error,
>)
    ensures
        r is Ok <==> valid_utf8(v@),
        r matches Ok(s) ==> s.spec_bytes() == v@,
        r matches Err(e) ==> e == utf8_error_of(v@),
;

/// True when `i` is the position of the first terminator byte in `bytes`.
pub open spec fn is_first_nul(bytes: Seq<u8>, i: int) -> bool {
    &&& 0 <= i < bytes.len()
    &&& bytes[i] == 0
    &&& forall|j: int| 0 <= j < i ==> bytes[j] != 0
}

/// The position of the first terminator byte in `bytes`, or the length of `bytes` where
/// it holds none.
pub open spec fn nul_position(bytes: Seq<u8>) -> int
    decreases bytes.len(),
{
    if bytes.len() == 0 || bytes[0] == 0 {
        0
    } else {
        1 + nul_position(bytes.drop_first())
    }
}

/// The bytes in front of the first terminator byte: what a reader of null-terminated text
/// sees at the start of `bytes`.
pub open spec fn until_nul(bytes: Seq<u8>) -> Seq<u8> {
    bytes.subrange(0, nul_position(bytes))
}

/// The null-terminated form of a byte string: its bytes, where it holds no terminator byte;
/// else the failure that names the first one.
pub open spec fn marshal_spec(bytes: Seq<u8>) -> Result<Seq<u8>, LibcryptErr> {
    if bytes.contains(0u8) {
        Err(LibcryptErr::NullError(nul_position(bytes) as usize))
    } else {
        Ok(bytes)
    }
}

/// The null-terminated form of a path: as for text, once the path is known to be text.
pub open spec fn marshal_path_spec(path: Seq<u8>) -> Result<Seq<u8>, LibcryptErr> {
    if !valid_utf8(path) {
        Err(LibcryptErr::InvalidConversion)
    } else {
        marshal_spec(path)
    }
}

/// The text that a reader of null-terminated text finds at the start of `bytes`.
pub open spec fn unmarshal_spec(bytes: Seq<u8>) -> Result<Seq<char>, LibcryptErr> {
    if valid_utf8(until_nul(bytes)) {
        Ok(decode_utf8(until_nul(bytes)))
    } else {
        Err(LibcryptErr::Utf8Error(utf8_error_of(until_nul(bytes))))
    }
}

/// The position of the first terminator byte is in range, and it is the first.
pub proof fn lemma_nul_position(bytes: Seq<u8>)
    ensures
        0 <= nul_position(bytes) <= bytes.len(),
        forall|j: int| 0 <= j < nul_position(bytes) ==> bytes[j] != 0,
        nul_position(bytes) < bytes.len() ==> bytes[nul_position(bytes)] == 0,
        bytes.contains(0u8) <==> nul_position(bytes) < bytes.len(),
        !until_nul(bytes).contains(0u8),
    decreases bytes.len(),
{
    if bytes.len() == 0 || bytes[0] == 0 {
    } else {
        let rest = bytes.drop_first();
        lemma_nul_position(rest);
        assert forall|j: int| 0 <= j < nul_position(bytes) implies bytes[j] != 0 by {
            if j > 0 {
                assert(rest[j - 1] == bytes[j]);
            }
        }
        if nul_position(bytes) < bytes.len() {
            assert(rest[nul_position(rest)] == bytes[nul_position(bytes)]);
        }
    }
    let p = nul_position(bytes);
    if bytes.contains(0u8) {
        let i = choose|i: int| 0 <= i < bytes.len() && bytes[i] == 0u8;
        assert(p <= i);
    }
    if p < bytes.len() {
        assert(bytes[p] == 0u8);
    }
    let head = until_nul(bytes);
    if head.contains(0u8) {
        let i = choose|i: int| 0 <= i < head.len() && head[i] == 0u8;
        assert(bytes[i] == 0u8);
    }
}

/// A first terminator byte is at the position that `nul_position` names.
pub proof fn lemma_first_nul_unique(bytes: Seq<u8>, i: int)
    requires
        is_first_nul(bytes, i),
    ensures
        nul_position(bytes) == i,
{
    lemma_nul_position(bytes);
}

/// A reader of a byte string that holds no terminator byte, followed by a terminator, finds
/// that byte string.
pub proof fn lemma_terminated(content: Seq<u8>)
    requires
        !content.contains(0u8),
    ensures
        until_nul(content.push(0u8)) == content,
        nul_position(content.push(0u8)) == content.len(),
{
    let native = content.push(0u8);
    assert(is_first_nul(native, content.len() as int)) by {
        assert forall|j: int| 0 <= j < content.len() implies native[j] != 0 by {
            if native[j] == 0 {
                assert(content[j] == 0u8);
            }
        }
    }
    lemma_first_nul_unique(native, content.len() as int);
    assert(until_nul(native) =~= content);
}

/// Text that is written in its null-terminated form and read back is unchanged, byte for
/// byte and character for character.
pub proof fn lemma_text_round_trip(text: Seq<char>)
    requires
        !encode_utf8(text).contains(0u8),
    ensures
        marshal_spec(encode_utf8(text)) == Ok::<Seq<u8>, LibcryptErr>(encode_utf8(text)),
        until_nul(encode_utf8(text).push(0u8)) == encode_utf8(text),
        unmarshal_spec(encode_utf8(text).push(0u8)) == Ok::<Seq<char>, LibcryptErr>(text),
{
    lemma_terminated(encode_utf8(text));
    encode_utf8_valid_utf8(text);
    encode_utf8_decode_utf8(text);
}

/// A path that is written in its null-terminated form and read back is unchanged.
pub proof fn lemma_path_round_trip(path: Seq<u8>)
    requires
        marshal_path_spec(path) is Ok,
    ensures
        marshal_path_spec(path) == Ok::<Seq<u8>, LibcryptErr>(path),
        read_path_spec(Some(path)) == Ok::<Seq<u8>, LibcryptErr>(path),
        read_opt_path_spec(Some(path)) == Ok::<Option<Seq<u8>>, LibcryptErr>(Some(path)),
{
    lemma_terminated(path);
    decode_utf8_encode_utf8(path);
}

/// Text that is written in its null-terminated form is read back unchanged through a
/// pointer, whether the pointer has to be set or may be null.
pub proof fn lemma_text_pointer_round_trip(text: Seq<char>)
    requires
        marshal_spec(encode_utf8(text)) is Ok,
    ensures
        read_text_spec(Some(encode_utf8(text))) == Ok::<Seq<char>, LibcryptErr>(text),
        read_opt_text_spec(Some(encode_utf8(text))) == Ok::<Option<Seq<char>>, LibcryptErr>(
            Some(text),
        ),
{
    lemma_text_round_trip(text);
}

/// A byte string in its null-terminated native form. It owns its storage, so an address
/// taken from it stays valid for as long as the value is kept.
#[derive(Debug)]
pub struct NativeText {
    bytes: Vec<u8>,
}

impl View for NativeText {
    type V = Seq<u8>;

    /// The bytes in front of the terminator.
    closed spec fn view(&self) -> Seq<u8> {
        self.bytes@.drop_last()
    }
}

impl NativeText {
    #[verifier::type_invariant]
    spec fn well_formed(self) -> bool {
        &&& self.bytes@.len() >= 1
        &&& self.bytes@.last() == 0
        &&& forall|i: int| 0 <= i < self.bytes@.len() - 1 ==> self.bytes@[i] != 0
    }

    /// The bytes as native code reads them: the content, then the terminator.
    pub open spec fn with_nul(self) -> Seq<u8> {
        self@.push(0u8)
    }

    /// Gives the null-terminated form of `bytes`. Fails, with the position of the first
    /// terminator byte, where `bytes` holds one.
    pub fn new(bytes: &[u8]) -> (r: Result<NativeText, LibcryptErr>)
        ensures
            match r {
                Ok(c) => marshal_spec(bytes@) == Ok::<Seq<u8>, LibcryptErr>(c@),
                Err(e) => marshal_spec(bytes@) == Err::<Seq<u8>, LibcryptErr>(e),
            },
    {
        let n = find_nul(bytes);
        proof {
            lemma_nul_position(bytes@);
        }
        if n < bytes.len() {
            Err(LibcryptErr::NullError(n))
        } else {
            let mut buffer = slice_to_vec(bytes);
            buffer.push(0u8);
            let c = NativeText { bytes: buffer };
            assert(c@ =~= bytes@);
            Ok(c)
        }
    }

    /// Reads null-terminated text at the start of `bytes`: the content ends in front of the
    /// first terminator byte, or with `bytes` where there is none.
    pub fn from_ptr(bytes: &[u8]) -> (r: NativeText)
        ensures
            r@ == until_nul(bytes@),
    {
        let n = find_nul(bytes);
        proof {
            lemma_nul_position(bytes@);
        }
        let mut buffer = slice_to_vec(slice_subrange(bytes, 0, n));
        buffer.push(0u8);
        let c = NativeText { bytes: buffer };
        assert(c@ =~= until_nul(bytes@));
        c
    }

    /// The length of the content, without the terminator.
    pub fn len(&self) -> (r: usize)
        ensures
            r == self@.len(),
    {
        proof {
            use_type_invariant(self);
        }
        self.bytes.len() - 1
    }

    /// The content, without the terminator. It holds no terminator byte.
    pub fn as_bytes(&self) -> (r: &[u8])
        ensures
            r@ == self@,
            !self@.contains(0u8),
    {
        proof {
            use_type_invariant(self);
            if self@.contains(0u8) {
                let i = choose|i: int| 0 <= i < self@.len() && self@[i] == 0u8;
                assert(self.bytes@[i] == 0u8);
            }
        }
        let r = slice_subrange(self.bytes.as_slice(), 0, self.bytes.len() - 1);
        assert(r@ =~= self@);
        r
    }

    /// The content and its terminator: the bytes that native code reads at the address of
    /// this value. A reader of them finds the content.
    pub fn as_bytes_with_nul(&self) -> (r: &[u8])
        ensures
            r@ == self.with_nul(),
            until_nul(r@) == self@,
    {
        let content = self.as_bytes();
        proof {
            use_type_invariant(self);
            lemma_terminated(self@);
        }
        let r = self.bytes.as_slice();
        assert(r@ =~= self.with_nul());
        r
    }

    /// Reads the content as text. Fails with the encoding error where the content is not
    /// valid UTF-8.
    pub fn to_str(&self) -> (r: Result<&str, LibcryptErr>)
        ensures
            match r {
                Ok(s) => unmarshal_spec(self.with_nul()) == Ok::<Seq<char>, LibcryptErr>(s@),
                Err(e) => unmarshal_spec(self.with_nul()) == Err::<Seq<char>, LibcryptErr>(e),
            },
    {
        from_str_ptr(self.as_bytes_with_nul())
    }
}

/// Finds the first terminator byte of `bytes`; gives the length of `bytes` where there is
/// none.
pub fn find_nul(bytes: &[u8]) -> (r: usize)
    ensures
        r == nul_position(bytes@),
{
    let mut i: usize = 0;
    while i < bytes.len() && bytes[i] != 0
        invariant
            i <= bytes.len(),
            forall|j: int| 0 <= j < i ==> bytes@[j] != 0,
        decreases bytes.len() - i,
    {
        i += 1;
    }
    proof {
        lemma_nul_position(bytes@);
        let p = nul_position(bytes@);
        if p < i {
            assert(bytes@[p] == 0);
        }
        if i < p {
            assert(bytes@[i as int] == 0);
        }
    }
    i
}

/// Marshals a text value into its null-terminated form. Fails with the terminator error
/// where the text holds an embedded terminator byte; nothing is produced then.
pub fn to_cstring(text: &str) -> (r: Result<NativeText, LibcryptErr>)
    ensures
        match r {
            Ok(c) => marshal_spec(text.spec_bytes()) == Ok::<Seq<u8>, LibcryptErr>(c@),
            Err(e) => marshal_spec(text.spec_bytes()) == Err::<Seq<u8>, LibcryptErr>(e),
        },
{
    NativeText::new(text.as_bytes())
}

/// Marshals a filesystem path, given as the bytes of its name, into its null-terminated
/// form. Fails with a conversion error where the path is not text, and with the terminator
/// error where it holds an embedded terminator byte.
pub fn path_to_cstring(path: &[u8]) -> (r: Result<NativeText, LibcryptErr>)
    ensures
        match r {
            Ok(c) => marshal_path_spec(path@) == Ok::<Seq<u8>, LibcryptErr>(c@),
            Err(e) => marshal_path_spec(path@) == Err::<Seq<u8>, LibcryptErr>(e),
        },
{
    match core::str::from_utf8(path) {
        Ok(text) => to_cstring(text),
        Err(_) => Err(LibcryptErr::InvalidConversion),
    }
}

/// Reads the null-terminated text at the start of `bytes`. Fails with the encoding error
/// where the bytes in front of the terminator are not valid UTF-8.
pub fn from_str_ptr(bytes: &[u8]) -> (r: Result<&str, LibcryptErr>)
    ensures
        match r {
            Ok(s) => unmarshal_spec(bytes@) == Ok::<Seq<char>, LibcryptErr>(s@),
            Err(e) => unmarshal_spec(bytes@) == Err::<Seq<char>, LibcryptErr>(e),
        },
{
    let n = find_nul(bytes);
    proof {
        lemma_nul_position(bytes@);
    }
    match core::str::from_utf8(slice_subrange(bytes, 0, n)) {
        Ok(s) => {
            proof {
                encode_utf8_decode_utf8(s@);
            }
            Ok(s)
        },
        Err(e) => Err(LibcryptErr::Utf8Error(e)),
    }
}

/// Reads the null-terminated text at the start of `bytes` into an owned value.
pub fn from_str_ptr_to_owned(bytes: &[u8]) -> (r: Result<String, LibcryptErr>)
    ensures
        match r {
            Ok(s) => unmarshal_spec(bytes@) == Ok::<Seq<char>, LibcryptErr>(s@),
            Err(e) => unmarshal_spec(bytes@) == Err::<Seq<char>, LibcryptErr>(e),
        },
{
    match from_str_ptr(bytes) {
        Ok(s) => Ok(s.to_owned()),
        Err(e) => Err(e),
    }
}

/// The native form of an optional text value: an absent value stays absent, a present one
/// is marshalled.
pub open spec fn marshal_opt_spec(text: Option<Seq<u8>>) -> Result<Option<Seq<u8>>, LibcryptErr> {
    match text {
        None => Ok(None),
        Some(bytes) => match marshal_spec(bytes) {
            Ok(c) => Ok(Some(c)),
            Err(e) => Err(e),
        },
    }
}

/// The native form of an optional path: an absent value stays absent, a present one is
/// marshalled.
pub open spec fn marshal_opt_path_spec(path: Option<Seq<u8>>) -> Result<
    Option<Seq<u8>>,
    LibcryptErr,
> {
    match path {
        None => Ok(None),
        Some(bytes) => match marshal_path_spec(bytes) {
            Ok(c) => Ok(Some(c)),
            Err(e) => Err(e),
        },
    }
}

/// The text behind a pointer that has to be set: a null pointer is an error.
pub open spec fn read_text_spec(ptr: Option<Seq<u8>>) -> Result<Seq<char>, LibcryptErr> {
    match ptr {
        None => Err(LibcryptErr::NullPtr),
        Some(content) => unmarshal_spec(content.push(0u8)),
    }
}

/// The text behind a pointer that may be null: a null pointer is an absent value.
pub open spec fn read_opt_text_spec(ptr: Option<Seq<u8>>) -> Result<
    Option<Seq<char>>,
    LibcryptErr,
> {
    match ptr {
        None => Ok(None),
        Some(content) => match unmarshal_spec(content.push(0u8)) {
            Ok(text) => Ok(Some(text)),
            Err(e) => Err(e),
        },
    }
}

/// The path behind a pointer that has to be set: the bytes of the text found there.
pub open spec fn read_path_spec(ptr: Option<Seq<u8>>) -> Result<Seq<u8>, LibcryptErr> {
    match read_text_spec(ptr) {
        Ok(text) => Ok(encode_utf8(text)),
        Err(e) => Err(e),
    }
}

/// The path behind a pointer that may be null.
pub open spec fn read_opt_path_spec(ptr: Option<Seq<u8>>) -> Result<
    Option<Seq<u8>>,
    LibcryptErr,
> {
    match read_opt_text_spec(ptr) {
        Ok(Some(text)) => Ok(Some(encode_utf8(text))),
        Ok(None) => Ok(None),
        Err(e) => Err(e),
    }
}

/// The bytes behind a pointer that comes with a length: the first `size` bytes found there.
/// A null pointer is an error, and so is a buffer shorter than the length that comes with it.
pub open spec fn read_bytes_spec(ptr: Option<Seq<u8>>, size: nat) -> Result<Seq<u8>, LibcryptErr> {
    match ptr {
        None => Err(LibcryptErr::NullPtr),
        Some(buffer) => if size <= buffer.len() {
            Ok(buffer.subrange(0, size as int))
        } else {
            Err(LibcryptErr::InvalidConversion)
        },
    }
}

/// Marshals an optional text value. An absent value gives a null pointer, held as an absent
/// buffer, and never a pointer to empty storage.
pub fn opt_to_cstring(text: &Option<String>) -> (r: Result<Option<NativeText>, LibcryptErr>)
    ensures
        match r {
            Ok(c) => marshal_opt_spec(opt_text_bytes(opt_text(*text))) == Ok::<
                Option<Seq<u8>>,
                LibcryptErr,
            >(opt_native(c)),
            Err(e) => marshal_opt_spec(opt_text_bytes(opt_text(*text))) == Err::<
                Option<Seq<u8>>,
                LibcryptErr,
            >(e),
        },
{
    match text {
        None => Ok(None),
        Some(t) => match to_cstring(t.as_str()) {
            Ok(c) => Ok(Some(c)),
            Err(e) => Err(e),
        },
    }
}

/// Marshals an optional path, given as the bytes of its name.
pub fn opt_path_to_cstring(path: &Option<Vec<u8>>) -> (r: Result<Option<NativeText>, LibcryptErr>)
    ensures
        match r {
            Ok(c) => marshal_opt_path_spec(opt_bytes(*path)) == Ok::<Option<Seq<u8>>, LibcryptErr>(
                opt_native(c),
            ),
            Err(e) => marshal_opt_path_spec(opt_bytes(*path)) == Err::<
                Option<Seq<u8>>,
                LibcryptErr,
            >(e),
        },
{
    match path {
        None => Ok(None),
        Some(p) => match path_to_cstring(p.as_slice()) {
            Ok(c) => Ok(Some(c)),
            Err(e) => Err(e),
        },
    }
}

/// The characters of an optional owned text value.
pub open spec fn opt_text(text: Option<String>) -> Option<Seq<char>> {
    match text {
        None => None,
        Some(t) => Some(t@),
    }
}

/// The bytes of an optional owned byte buffer.
pub open spec fn opt_bytes(bytes: Option<Vec<u8>>) -> Option<Seq<u8>> {
    match bytes {
        None => None,
        Some(b) => Some(b@),
    }
}

/// The content of an optional null-terminated buffer.
pub open spec fn opt_native(ptr: Option<NativeText>) -> Option<Seq<u8>> {
    match ptr {
        None => None,
        Some(c) => Some(c@),
    }
}

/// The bytes of an optional text value.
pub open spec fn opt_text_bytes(text: Option<Seq<char>>) -> Option<Seq<u8>> {
    match text {
        None => None,
        Some(t) => Some(encode_utf8(t)),
    }
}

/// Reads the text behind a pointer that has to be set.
pub fn read_text(ptr: &Option<NativeText>) -> (r: Result<String, LibcryptErr>)
    ensures
        match r {
            Ok(s) => read_text_spec(opt_native(*ptr)) == Ok::<Seq<char>, LibcryptErr>(s@),
            Err(e) => read_text_spec(opt_native(*ptr)) == Err::<Seq<char>, LibcryptErr>(e),
        },
{
    match ptr {
        None => Err(LibcryptErr::NullPtr),
        Some(c) => match c.to_str() {
            Ok(s) => Ok(s.to_owned()),
            Err(e) => Err(e),
        },
    }
}

/// Reads the text behind a pointer that may be null.
pub fn read_opt_text(ptr: &Option<NativeText>) -> (r: Result<Option<String>, LibcryptErr>)
    ensures
        match r {
            Ok(s) => read_opt_text_spec(opt_native(*ptr)) == Ok::<Option<Seq<char>>, LibcryptErr>(
                opt_text(s),
            ),
            Err(e) => read_opt_text_spec(opt_native(*ptr)) == Err::<
                Option<Seq<char>>,
                LibcryptErr,
            >(e),
        },
{
    match ptr {
        None => Ok(None),
        Some(c) => match c.to_str() {
            Ok(s) => Ok(Some(s.to_owned())),
            Err(e) => Err(e),
        },
    }
}

/// Reads the path behind a pointer that has to be set.
pub fn read_path(ptr: &Option<NativeText>) -> (r: Result<Vec<u8>, LibcryptErr>)
    ensures
        match r {
            Ok(p) => read_path_spec(opt_native(*ptr)) == Ok::<Seq<u8>, LibcryptErr>(p@),
            Err(e) => read_path_spec(opt_native(*ptr)) == Err::<Seq<u8>, LibcryptErr>(e),
        },
{
    match ptr {
        None => Err(LibcryptErr::NullPtr),
        Some(c) => match c.to_str() {
            Ok(s) => Ok(slice_to_vec(s.as_bytes())),
            Err(e) => Err(e),
        },
    }
}

/// Reads the path behind a pointer that may be null.
pub fn read_opt_path(ptr: &Option<NativeText>) -> (r: Result<Option<Vec<u8>>, LibcryptErr>)
    ensures
        match r {
            Ok(p) => read_opt_path_spec(opt_native(*ptr)) == Ok::<Option<Seq<u8>>, LibcryptErr>(
                opt_bytes(p),
            ),
            Err(e) => read_opt_path_spec(opt_native(*ptr)) == Err::<Option<Seq<u8>>, LibcryptErr>(
                e,
            ),
        },
{
    match ptr {
        None => Ok(None),
        Some(c) => match c.to_str() {
            Ok(s) => Ok(Some(slice_to_vec(s.as_bytes()))),
            Err(e) => Err(e),
        },
    }
}

/// Copies the bytes behind a pointer that comes with a length.
pub fn read_bytes(ptr: &Option<Vec<u8>>, size: usize) -> (r: Result<Vec<u8>, LibcryptErr>)
    ensures
        match r {
            Ok(b) => read_bytes_spec(opt_bytes(*ptr), size as nat) == Ok::<Seq<u8>, LibcryptErr>(
                b@,
            ),
            Err(e) => read_bytes_spec(opt_bytes(*ptr), size as nat) == Err::<Seq<u8>, LibcryptErr>(
                e,
            ),
        },
{
    match ptr {
        None => Err(LibcryptErr::NullPtr),
        Some(buffer) => if size <= buffer.len() {
            Ok(slice_to_vec(slice_subrange(buffer.as_slice(), 0, size)))
        } else {
            Err(LibcryptErr::InvalidConversion)
        },
    }
}

/// Tells whether two byte strings hold the same bytes.
pub fn bytes_eq(a: &[u8], b: &[u8]) -> (r: bool)
    ensures
        r == (a@ == b@),
{
    if a.len() != b.len() {
        return false;
    }
    let mut i: usize = 0;
    while i < a.len()
        invariant
            i <= a.len(),
            a.len() == b.len(),
            forall|j: int| 0 <= j < i ==> a@[j] == b@[j],
        decreases a.len() - i,
    {
        if a[i] != b[i] {
            return false;
        }
        i += 1;
    }
    assert(a@ =~= b@);
    true
}

/// Marshals a name that holds no terminator byte.
pub fn name_to_cstring(name: &str) -> (r: NativeText)
    requires
        !name.spec_bytes().contains(0u8),
    ensures
        r@ == name.spec_bytes(),
{
    match to_cstring(name) {
        Ok(c) => c,
        Err(_) => vstd::pervasive::unreached(),
    }
}

/// The bytes of text made of characters of the ASCII range, none of them the terminator,
/// hold no terminator byte.
pub proof fn lemma_ascii_name(name: &str)
    requires
        is_ascii(name),
        forall|i: int| 0 <= i < name@.len() ==> name@[i] != '\0',
    ensures
        !name.spec_bytes().contains(0u8),
{
    is_ascii_spec_bytes(name);
    let bytes = name.spec_bytes();
    if bytes.contains(0u8) {
        let i = choose|i: int| 0 <= i < bytes.len() && bytes[i] == 0u8;
        assert(name@[i] != '\0');
        assert(bytes[i] == name@[i] as u8);
    }
}

/// The length that is reported to native code beside a byte buffer, where the native field
/// has 32 bits: the length of the buffer, cut to 32 bits.
pub fn reported_length(len: usize) -> (r: u32)
    ensures
        r == len as u32,
{
    #[verifier::truncate]
    (len as u32)
}

/// The byte strings of a list of owned buffers.
pub open spec fn buffers_view(buffers: Vec<Vec<u8>>) -> Seq<Seq<u8>> {
    Seq::new(buffers@.len(), |i: int| buffers@[i]@)
}

/// The contents of a list of null-terminated buffers.
pub open spec fn natives_view(buffers: Vec<NativeText>) -> Seq<Seq<u8>> {
    Seq::new(buffers@.len(), |i: int| buffers@[i]@)
}

/// The native form of a list of paths: one buffer for each path, in the order of the list.
/// The first path that cannot be marshalled decides the failure.
pub open spec fn marshal_paths_spec(paths: Seq<Seq<u8>>) -> Result<Seq<Seq<u8>>, LibcryptErr>
    decreases paths.len(),
{
    if paths.len() == 0 {
        Ok(Seq::empty())
    } else {
        match marshal_paths_spec(paths.drop_last()) {
            Err(e) => Err(e),
            Ok(done) => match marshal_path_spec(paths.last()) {
                Err(e) => Err(e),
                Ok(c) => Ok(done.push(c)),
            },
        }
    }
}

/// The paths behind a list of pointers, in the order of the list. The first one that
/// cannot be read decides the failure.
pub open spec fn read_paths_spec(ptrs: Seq<Seq<u8>>) -> Result<Seq<Seq<u8>>, LibcryptErr>
    decreases ptrs.len(),
{
    if ptrs.len() == 0 {
        Ok(Seq::empty())
    } else {
        match read_paths_spec(ptrs.drop_last()) {
            Err(e) => Err(e),
            Ok(done) => match read_path_spec(Some(ptrs.last())) {
                Err(e) => Err(e),
                Ok(p) => Ok(done.push(p)),
            },
        }
    }
}

/// A marshalled list has one buffer for each path.
pub proof fn lemma_marshal_paths_len(paths: Seq<Seq<u8>>)
    ensures
        marshal_paths_spec(paths) matches Ok(c) ==> c.len() == paths.len(),
    decreases paths.len(),
{
    if paths.len() > 0 {
        lemma_marshal_paths_len(paths.drop_last());
    }
}

/// Marshals a list of paths into a list of buffers of the same length.
pub fn paths_to_cstrings(paths: &Vec<Vec<u8>>) -> (r: Result<Vec<NativeText>, LibcryptErr>)
    ensures
        match r {
            Ok(c) => marshal_paths_spec(buffers_view(*paths)) == Ok::<Seq<Seq<u8>>, LibcryptErr>(
                natives_view(c),
            ) && c@.len() == paths@.len(),
            Err(e) => marshal_paths_spec(buffers_view(*paths)) == Err::<
                Seq<Seq<u8>>,
                LibcryptErr,
            >(e),
        },
{
    let ghost all = buffers_view(*paths);
    let mut done: Vec<NativeText> = Vec::new();
    let mut i: usize = 0;
    proof {
        assert(natives_view(done) =~= Seq::<Seq<u8>>::empty());
        assert(all.subrange(0, 0).len() == 0);
    }
    while i < paths.len()
        invariant
            i <= paths.len(),
            all == buffers_view(*paths),
            done@.len() == i,
            marshal_paths_spec(all.subrange(0, i as int)) == Ok::<Seq<Seq<u8>>, LibcryptErr>(
                natives_view(done),
            ),
        decreases paths.len() - i,
    {
        let ghost before = natives_view(done);
        proof {
            let next = all.subrange(0, i + 1);
            assert(next.drop_last() == all.subrange(0, i as int));
            assert(next.last() == paths@[i as int]@);
        }
        match path_to_cstring(paths[i].as_slice()) {
            Ok(c) => {
                done.push(c);
                proof {
                    assert(natives_view(done) =~= before.push(c@));
                }
            },
            Err(e) => {
                proof {
                    lemma_marshal_paths_prefix(all, i + 1);
                }
                return Err(e);
            },
        }
        i += 1;
    }
    proof {
        assert(all.subrange(0, i as int) == all);
    }
    Ok(done)
}

/// A failure on the first paths of a list is the failure on the list.
pub proof fn lemma_marshal_paths_prefix(paths: Seq<Seq<u8>>, n: int)
    requires
        0 <= n <= paths.len(),
        marshal_paths_spec(paths.subrange(0, n)) is Err,
    ensures
        marshal_paths_spec(paths) == marshal_paths_spec(paths.subrange(0, n)),
    decreases paths.len() - n,
{
    if n < paths.len() {
        let next = paths.subrange(0, n + 1);
        assert(next.drop_last() == paths.subrange(0, n));
        lemma_marshal_paths_prefix(paths, n + 1);
    } else {
        assert(paths.subrange(0, n) == paths);
    }
}

/// A failure on the first pointers of a list is the failure on the list.
pub proof fn lemma_read_paths_prefix(ptrs: Seq<Seq<u8>>, n: int)
    requires
        0 <= n <= ptrs.len(),
        read_paths_spec(ptrs.subrange(0, n)) is Err,
    ensures
        read_paths_spec(ptrs) == read_paths_spec(ptrs.subrange(0, n)),
    decreases ptrs.len() - n,
{
    if n < ptrs.len() {
        let next = ptrs.subrange(0, n + 1);
        assert(next.drop_last() == ptrs.subrange(0, n));
        lemma_read_paths_prefix(ptrs, n + 1);
    } else {
        assert(ptrs.subrange(0, n) == ptrs);
    }
}

/// Reads the paths behind the first `count` pointers of a list.
pub fn read_paths(ptrs: &Vec<NativeText>, count: usize) -> (r: Result<Vec<Vec<u8>>, LibcryptErr>)
    requires
        count <= ptrs@.len(),
    ensures
        match r {
            Ok(p) => read_paths_spec(natives_view(*ptrs).subrange(0, count as int)) == Ok::<
                Seq<Seq<u8>>,
                LibcryptErr,
            >(buffers_view(p)) && p@.len() == count,
            Err(e) => read_paths_spec(natives_view(*ptrs).subrange(0, count as int)) == Err::<
                Seq<Seq<u8>>,
                LibcryptErr,
            >(e),
        },
{
    let ghost all = natives_view(*ptrs).subrange(0, count as int);
    let mut done: Vec<Vec<u8>> = Vec::new();
    let mut i: usize = 0;
    proof {
        assert(buffers_view(done) =~= Seq::<Seq<u8>>::empty());
        assert(all.subrange(0, 0).len() == 0);
    }
    while i < count
        invariant
            i <= count <= ptrs@.len(),
            all == natives_view(*ptrs).subrange(0, count as int),
            done@.len() == i,
            read_paths_spec(all.subrange(0, i as int)) == Ok::<Seq<Seq<u8>>, LibcryptErr>(
                buffers_view(done),
            ),
        decreases count - i,
    {
        let ghost before = buffers_view(done);
        proof {
            let next = all.subrange(0, i + 1);
            assert(next.drop_last() == all.subrange(0, i as int));
            assert(next.last() == ptrs@[i as int]@);
        }
        match ptrs[i].to_str() {
            Ok(s) => {
                let path = slice_to_vec(s.as_bytes());
                done.push(path);
                proof {
                    assert(buffers_view(done) =~= before.push(path@));
                }
            },
            Err(e) => {
                proof {
                    lemma_read_paths_prefix(all, i + 1);
                }
                return Err(e);
            },
        }
        i += 1;
    }
    proof {
        assert(all.subrange(0, i as int) == all);
    }
    Ok(done)
}

/// Marshals an optional name. An absent name gives a null pointer, held as an absent buffer.
pub fn opt_str_to_cstring(text: Option<&str>) -> (r: Result<Option<NativeText>, LibcryptErr>)
    ensures
        match r {
            Ok(c) => marshal_opt_spec(
                match text {
                    None => None,
                    Some(t) => Some(t.spec_bytes()),
                },
            ) == Ok::<Option<Seq<u8>>, LibcryptErr>(opt_native(c)),
            Err(e) => marshal_opt_spec(
                match text {
                    None => None,
                    Some(t) => Some(t.spec_bytes()),
                },
            ) == Err::<Option<Seq<u8>>, LibcryptErr>(e),
        },
{
    match text {
        None => Ok(None),
        Some(t) => match to_cstring(t) {
            Ok(c) => Ok(Some(c)),
            Err(e) => Err(e),
        },
    }
}

} // verus!
