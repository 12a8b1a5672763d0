//! LUKS2 tokens.

use libc::{c_int, c_uint};

use vstd::prelude::*;
use vstd::std_specs::convert::{FromSpecImpl, TryFromSpecImpl};
use vstd::string::*;
use vstd::utf8::*;

use crate::Bool;
use crate::consts::{
    CRYPT_ANY_TOKEN, CRYPT_TOKEN_EXTERNAL, CRYPT_TOKEN_EXTERNAL_UNKNOWN, CRYPT_TOKEN_INACTIVE,
    CRYPT_TOKEN_INTERNAL, CRYPT_TOKEN_INTERNAL_UNKNOWN, CRYPT_TOKEN_INVALID,
};
use crate::err::LibcryptErr;
use crate::marshal::{marshal_spec, opt_native, read_text, read_text_spec, to_cstring, NativeText};

verus! {

/// The state of a token.
#[derive(Debug, PartialEq, Eq, Structural, Clone, Copy)]
pub enum CryptTokenInfo {
    /// There is no such token.
    Invalid,
    /// The token is empty.
    Inactive,
    /// The token is of a built-in type and is handled by the native library.
    Internal,
    /// The token is of a built-in type that the native library does not know.
    InternalUnknown,
    /// The token is of a type with a registered handler.
    External,
    /// The token is of a type without a registered handler.
    ExternalUnknown,
}

impl CryptTokenInfo {
    /// The native constant of the variant.
    pub open spec fn native(self) -> u32 {
        match self {
            CryptTokenInfo::Invalid => CRYPT_TOKEN_INVALID,
            CryptTokenInfo::Inactive => CRYPT_TOKEN_INACTIVE,
            CryptTokenInfo::Internal => CRYPT_TOKEN_INTERNAL,
            CryptTokenInfo::InternalUnknown => CRYPT_TOKEN_INTERNAL_UNKNOWN,
            CryptTokenInfo::External => CRYPT_TOKEN_EXTERNAL,
            CryptTokenInfo::ExternalUnknown => CRYPT_TOKEN_EXTERNAL_UNKNOWN,
        }
    }

    /// The variant of a native constant, or a conversion error where the constant has none.
    pub open spec fn of_native(v: u32) -> Result<Self, LibcryptErr> {
        if v == CRYPT_TOKEN_INVALID {
            Ok(CryptTokenInfo::Invalid)
        } else if v == CRYPT_TOKEN_INACTIVE {
            Ok(CryptTokenInfo::Inactive)
        } else if v == CRYPT_TOKEN_INTERNAL {
            Ok(CryptTokenInfo::Internal)
        } else if v == CRYPT_TOKEN_INTERNAL_UNKNOWN {
            Ok(CryptTokenInfo::InternalUnknown)
        } else if v == CRYPT_TOKEN_EXTERNAL {
            Ok(CryptTokenInfo::External)
        } else if v == CRYPT_TOKEN_EXTERNAL_UNKNOWN {
            Ok(CryptTokenInfo::ExternalUnknown)
        } else {
            Err(LibcryptErr::InvalidConversion)
        }
    }

    /// Every variant has a constant that stands for it, and a constant stands for no
    /// variant but the one it belongs to.
    pub proof fn lemma_round_trip(e: Self, v: u32)
        ensures
            Self::of_native(e.native()) == Ok::<Self, LibcryptErr>(e),
            Self::of_native(v) == Ok::<Self, LibcryptErr>(e) ==> e.native() == v,
    {
    }
}

impl From<CryptTokenInfo> for u32 {
    fn from(v: CryptTokenInfo) -> (r: u32) {
        match v {
            CryptTokenInfo::Invalid => CRYPT_TOKEN_INVALID,
            CryptTokenInfo::Inactive => CRYPT_TOKEN_INACTIVE,
            CryptTokenInfo::Internal => CRYPT_TOKEN_INTERNAL,
            CryptTokenInfo::InternalUnknown => CRYPT_TOKEN_INTERNAL_UNKNOWN,
            CryptTokenInfo::External => CRYPT_TOKEN_EXTERNAL,
            CryptTokenInfo::ExternalUnknown => CRYPT_TOKEN_EXTERNAL_UNKNOWN,
        }
    }
}

impl FromSpecImpl<CryptTokenInfo> for u32 {
    open spec fn obeys_from_spec() -> bool {
        true
    }

    open spec fn from_spec(v: CryptTokenInfo) -> u32 {
        v.native()
    }
}

impl TryFrom<u32> for CryptTokenInfo {
    type Error = LibcryptErr;

    fn try_from(v: u32) -> (r: Result<Self, LibcryptErr>) {
        if v == CRYPT_TOKEN_INVALID {
            Ok(CryptTokenInfo::Invalid)
        } else if v == CRYPT_TOKEN_INACTIVE {
            Ok(CryptTokenInfo::Inactive)
        } else if v == CRYPT_TOKEN_INTERNAL {
            Ok(CryptTokenInfo::Internal)
        } else if v == CRYPT_TOKEN_INTERNAL_UNKNOWN {
            Ok(CryptTokenInfo::InternalUnknown)
        } else if v == CRYPT_TOKEN_EXTERNAL {
            Ok(CryptTokenInfo::External)
        } else if v == CRYPT_TOKEN_EXTERNAL_UNKNOWN {
            Ok(CryptTokenInfo::ExternalUnknown)
        } else {
            Err(LibcryptErr::InvalidConversion)
        }
    }
}

impl TryFromSpecImpl<u32> for CryptTokenInfo {
    open spec fn obeys_try_from_spec() -> bool {
        true
    }

    open spec fn try_from_spec(v: u32) -> Result<Self, LibcryptErr> {
        Self::of_native(v)
    }
}

/// A JSON document of the `serde_json` crate, carried as it is.
#[verifier::external_type_specification]
#[verifier::external_body]
pub struct ExJsonValue(serde_json::Value);

/// What `serde_json::from_str` makes of a text: the document that the text denotes, or the
/// error of the parser.
pub uninterp spec fn json_parsed(text: Seq<char>) -> Result<serde_json::Value, serde_json::Error>;

/// What `serde_json::to_string` makes of a document: its text, or the error of the
/// serializer.
pub uninterp spec fn json_text(value: serde_json::Value) -> Result<Seq<char>, serde_json::Error>;

/// Calls `serde_json::from_str` for a document. The result depends on the text alone.
#[verifier::external_body]
fn parse_json(text: &str) -> (r: Result<serde_json::Value, serde_json::Error>)
    ensures
        r == json_parsed(text@),
{
    serde_json::from_str::<serde_json::Value>(text)
}

/// Calls `serde_json::to_string` on a document. The result depends on the document alone.
#[verifier::external_body]
fn json_to_string(value: &serde_json::Value) -> (r: Result<String, serde_json::Error>)
    ensures
        match r {
            Ok(s) => json_text(*value) == Ok::<Seq<char>, serde_json::Error>(s@),
            Err(e) => json_text(*value) == Err::<Seq<char>, serde_json::Error>(e),
        },
{
    serde_json::to_string(value)
}

/// Gives `ENOENT` of the `libc` crate, the error number for a thing that does not exist.
/// On Linux it is 2.
#[verifier::external_body]
fn enoent() -> (r: c_int)
    ensures
        r == 2,
{
    libc::ENOENT
}

/// The token argument of a native call: the number of the token, or the constant that
/// lets the native library pick one where no number is given.
pub open spec fn token_arg_spec(token: Option<c_uint>) -> c_int {
    match token {
        Some(t) => t as c_int,
        None => CRYPT_ANY_TOKEN,
    }
}

/// Gives the token argument of a native call.
pub fn token_arg(token: Option<c_uint>) -> (r: c_int)
    ensures
        r == token_arg_spec(token),
{
    match token {
        Some(t) => {
            #[verifier::truncate]
            (t as c_int)
        },
        None => CRYPT_ANY_TOKEN,
    }
}

/// What the return code of the assignment query means: zero says that the token is
/// assigned to the key slot, the error number for a missing thing that it is not, and any
/// other code is an operating-system error that carries the negated code.
pub open spec fn is_assigned_spec(rc: c_int) -> Result<Bool, LibcryptErr> {
    if rc == 0 {
        Ok(Bool::Yes)
    } else if rc == 2 {
        Ok(Bool::No)
    } else {
        Err(LibcryptErr::IOError((-rc) as i32))
    }
}

/// Translates the return code of the query whether a token is assigned to a key slot.
pub fn is_assigned_result(rc: c_int) -> (r: Result<Bool, LibcryptErr>)
    requires
        i32::MIN < rc,
    ensures
        r == is_assigned_spec(rc),
{
    if rc == 0 {
        Ok(Bool::Yes)
    } else if rc == enoent() {
        Ok(Bool::No)
    } else {
        Err(LibcryptErr::IOError(-rc))
    }
}

/// Checks the name of a token handler, which is handed to the native library as it is and
/// so has to end in a terminator byte. Fails, with the name, where it does not.
pub fn handler_name(name: &'static str) -> (r: Result<&'static [u8], LibcryptErr>)
    ensures
        match r {
            Ok(bytes) => bytes@ == name.spec_bytes() && bytes@.len() > 0 && bytes@.last() == 0,
            Err(e) => e == LibcryptErr::NoNull(name) && (name.spec_bytes().len() == 0
                || name.spec_bytes().last() != 0),
        },
{
    let bytes = name.as_bytes();
    if bytes.len() > 0 && bytes[bytes.len() - 1] == 0 {
        Ok(bytes)
    } else {
        Err(LibcryptErr::NoNull(name))
    }
}

/// What reading a token document gives, once the parser has answered: the document, or
/// the JSON error that holds the answer of the parser.
pub fn json_result(parsed: Result<serde_json::Value, serde_json::Error>) -> (r: Result<
    serde_json::Value,
    LibcryptErr,
>)
    ensures
        r == match parsed {
            Ok(v) => Ok::<serde_json::Value, LibcryptErr>(v),
            Err(e) => Err::<serde_json::Value, LibcryptErr>(LibcryptErr::JsonError(e)),
        },
{
    match parsed {
        Ok(v) => Ok(v),
        Err(e) => Err(LibcryptErr::JsonError(e)),
    }
}

/// What a token document handed back by the native library is: the text behind the
/// pointer, read as JSON.
pub open spec fn json_get_spec(ptr: Option<Seq<u8>>) -> Result<serde_json::Value, LibcryptErr> {
    match read_text_spec(ptr) {
        Err(e) => Err(e),
        Ok(text) => match json_parsed(text) {
            Ok(v) => Ok(v),
            Err(e) => Err(LibcryptErr::JsonError(e)),
        },
    }
}

/// Reads the token document behind a pointer handed back by the native library. Fails with
/// the null-pointer error on a null pointer, with the encoding error on bytes that are no
/// text, and with the JSON error on text that is no document.
pub fn json_get(ptr: &Option<NativeText>) -> (r: Result<serde_json::Value, LibcryptErr>)
    ensures
        r == json_get_spec(opt_native(*ptr)),
{
    match read_text(ptr) {
        Ok(text) => json_result(parse_json(text.as_str())),
        Err(e) => Err(e),
    }
}

/// What writing a token document gives, once the serializer has answered: the text of the
/// document in its null-terminated form.
pub open spec fn json_text_spec(text: Result<Seq<char>, serde_json::Error>) -> Result<
    Seq<u8>,
    LibcryptErr,
> {
    match text {
        Err(e) => Err(LibcryptErr::JsonError(e)),
        Ok(t) => marshal_spec(encode_utf8(t)),
    }
}

/// Marshals the text of a token document, given the answer of the serializer. Fails with
/// the JSON error where the serializer failed, and with the terminator error where the
/// text holds a terminator byte.
pub fn json_text_to_cstring(text: Result<String, serde_json::Error>) -> (r: Result<
    NativeText,
    LibcryptErr,
>)
    ensures
        match r {
            Ok(c) => json_text_spec(
                match text {
                    Ok(t) => Ok(t@),
                    Err(e) => Err(e),
                },
            ) == Ok::<Seq<u8>, LibcryptErr>(c@),
            Err(e) => json_text_spec(
                match text {
                    Ok(t) => Ok(t@),
                    Err(e) => Err(e),
                },
            ) == Err::<Seq<u8>, LibcryptErr>(e),
        },
{
    match text {
        Ok(t) => to_cstring(t.as_str()),
        Err(e) => Err(LibcryptErr::JsonError(e)),
    }
}

/// Marshals a token document for the native library: its JSON text in null-terminated
/// form.
pub fn json_set(json: &serde_json::Value) -> (r: Result<NativeText, LibcryptErr>)
    ensures
        match r {
            Ok(c) => json_text_spec(json_text(*json)) == Ok::<Seq<u8>, LibcryptErr>(c@),
            Err(e) => json_text_spec(json_text(*json)) == Err::<Seq<u8>, LibcryptErr>(e),
        },
{
    json_text_to_cstring(json_to_string(json))
}

} // verus!
