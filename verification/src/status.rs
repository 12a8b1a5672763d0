//! The state of a device and of its mappings.

use vstd::prelude::*;
use vstd::std_specs::convert::{FromSpecImpl, TryFromSpecImpl};

use crate::consts::{CRYPT_ACTIVE, CRYPT_BUSY, CRYPT_INACTIVE, CRYPT_INVALID};
use crate::err::LibcryptErr;
use crate::marshal::{opt_native, read_text, read_text_spec, NativeText};

verus! {

/// The state of a mapping.
#[derive(Debug, PartialEq, Eq, Structural, Clone, Copy)]
pub enum CryptStatusInfo {
    /// The mapping is in an invalid state.
    Invalid,
    /// There is no such mapping.
    Inactive,
    /// The mapping is active.
    Active,
    /// The mapping is active and in use.
    Busy,
}

impl CryptStatusInfo {
    /// The native constant of the variant.
    pub open spec fn native(self) -> u32 {
        match self {
            CryptStatusInfo::Invalid => CRYPT_INVALID,
            CryptStatusInfo::Inactive => CRYPT_INACTIVE,
            CryptStatusInfo::Active => CRYPT_ACTIVE,
            CryptStatusInfo::Busy => CRYPT_BUSY,
        }
    }

    /// The variant of a native constant, or a conversion error where the constant has none.
    pub open spec fn of_native(v: u32) -> Result<Self, LibcryptErr> {
        if v == CRYPT_INVALID {
            Ok(CryptStatusInfo::Invalid)
        } else if v == CRYPT_INACTIVE {
            Ok(CryptStatusInfo::Inactive)
        } else if v == CRYPT_ACTIVE {
            Ok(CryptStatusInfo::Active)
        } else if v == CRYPT_BUSY {
            Ok(CryptStatusInfo::Busy)
        } else {
            Err(LibcryptErr::InvalidConversion)
        }
    }

    /// Every variant has a constant that stands for it, and a constant stands for no
    /// variant but the one it belongs to.
    pub proof fn lemma_round_trip(e: Self, v: u32)
        ensures
            Self::of_native(e.native()) == Ok::<Self, LibcryptErr>(e),
            Self::of_native(v) == Ok::<Self, LibcryptErr>(e) ==> e.native() == v,
    {
    }
}

impl From<CryptStatusInfo> for u32 {
    fn from(v: CryptStatusInfo) -> (r: u32) {
        match v {
            CryptStatusInfo::Invalid => CRYPT_INVALID,
            CryptStatusInfo::Inactive => CRYPT_INACTIVE,
            CryptStatusInfo::Active => CRYPT_ACTIVE,
            CryptStatusInfo::Busy => CRYPT_BUSY,
        }
    }
}

impl FromSpecImpl<CryptStatusInfo> for u32 {
    open spec fn obeys_from_spec() -> bool {
        true
    }

    open spec fn from_spec(v: CryptStatusInfo) -> u32 {
        v.native()
    }
}

impl TryFrom<u32> for CryptStatusInfo {
    type Error = LibcryptErr;

    fn try_from(v: u32) -> (r: Result<Self, LibcryptErr>) {
        if v == CRYPT_INVALID {
            Ok(CryptStatusInfo::Invalid)
        } else if v == CRYPT_INACTIVE {
            Ok(CryptStatusInfo::Inactive)
        } else if v == CRYPT_ACTIVE {
            Ok(CryptStatusInfo::Active)
        } else if v == CRYPT_BUSY {
            Ok(CryptStatusInfo::Busy)
        } else {
            Err(LibcryptErr::InvalidConversion)
        }
    }
}

impl TryFromSpecImpl<u32> for CryptStatusInfo {
    open spec fn obeys_try_from_spec() -> bool {
        true
    }

    open spec fn try_from_spec(v: u32) -> Result<Self, LibcryptErr> {
        Self::of_native(v)
    }
}

/// A UUID of the `uuid` crate, carried as it is.
#[verifier::external_type_specification]
#[verifier::external_body]
pub struct ExUuid(uuid::Uuid);

/// What `Uuid::from_str` makes of a text: the UUID that the text denotes, or the error of
/// the parser.
pub uninterp spec fn uuid_parsed(text: Seq<char>) -> Result<uuid::Uuid, uuid::parser::ParseError>;

/// Calls `Uuid::from_str`. The result depends on the text alone.
#[verifier::external_body]
fn parse_uuid(text: &str) -> (r: Result<uuid::Uuid, uuid::parser::ParseError>)
    ensures
        r == uuid_parsed(text@),
{
    <uuid::Uuid as std::str::FromStr>::from_str(text)
}

/// What reading a UUID gives, once the parser has answered: the UUID, or the UUID error
/// that holds the answer of the parser.
pub fn uuid_result(parsed: Result<uuid::Uuid, uuid::parser::ParseError>) -> (r: Result<
    uuid::Uuid,
    LibcryptErr,
>)
    ensures
        r == match parsed {
            Ok(u) => Ok::<uuid::Uuid, LibcryptErr>(u),
            Err(e) => Err::<uuid::Uuid, LibcryptErr>(LibcryptErr::UuidError(e)),
        },
{
    match parsed {
        Ok(u) => Ok(u),
        Err(e) => Err(LibcryptErr::UuidError(e)),
    }
}

/// What the UUID of a device is, given the pointer handed back by the native library: the
/// text behind the pointer, read as a UUID.
pub open spec fn uuid_spec(ptr: Option<Seq<u8>>) -> Result<uuid::Uuid, LibcryptErr> {
    match read_text_spec(ptr) {
        Err(e) => Err(e),
        Ok(text) => match uuid_parsed(text) {
            Ok(u) => Ok(u),
            Err(e) => Err(LibcryptErr::UuidError(e)),
        },
    }
}

/// Reads the UUID of a device behind a pointer handed back by the native library. Fails
/// with the null-pointer error on a null pointer, with the encoding error on bytes that are
/// no text, and with the UUID error on text that is no UUID.
pub fn uuid_from_ptr(ptr: &Option<NativeText>) -> (r: Result<uuid::Uuid, LibcryptErr>)
    ensures
        r == uuid_spec(opt_native(*ptr)),
{
    match read_text(ptr) {
        Ok(text) => uuid_result(parse_uuid(text.as_str())),
        Err(e) => Err(e),
    }
}

} // verus!
