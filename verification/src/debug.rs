//! The debug output of the native library.

use vstd::prelude::*;
use vstd::std_specs::convert::{FromSpecImpl, TryFromSpecImpl};

use crate::consts::{CRYPT_DEBUG_ALL, CRYPT_DEBUG_JSON, CRYPT_DEBUG_NONE};
use crate::err::LibcryptErr;

verus! {

/// The amount of debug output of the native library.
#[derive(Debug, PartialEq, Eq, Structural, Clone, Copy)]
pub enum CryptDebugLevel {
    /// All debug messages.
    All,
    /// All debug messages, and the metadata as JSON.
    Json,
    /// No debug messages.
    NoDebug,
}

impl CryptDebugLevel {
    /// The native constant of the variant.
    pub open spec fn native(self) -> i32 {
        match self {
            CryptDebugLevel::All => CRYPT_DEBUG_ALL,
            CryptDebugLevel::Json => CRYPT_DEBUG_JSON,
            CryptDebugLevel::NoDebug => CRYPT_DEBUG_NONE,
        }
    }

    /// The variant of a native constant, or a conversion error where the constant has none.
    pub open spec fn of_native(v: i32) -> Result<Self, LibcryptErr> {
        if v == CRYPT_DEBUG_ALL {
            Ok(CryptDebugLevel::All)
        } else if v == CRYPT_DEBUG_JSON {
            Ok(CryptDebugLevel::Json)
        } else if v == CRYPT_DEBUG_NONE {
            Ok(CryptDebugLevel::NoDebug)
        } else {
            Err(LibcryptErr::InvalidConversion)
        }
    }

    /// Every variant has a constant that stands for it, and a constant stands for no
    /// variant but the one it belongs to.
    pub proof fn lemma_round_trip(e: Self, v: i32)
        ensures
            Self::of_native(e.native()) == Ok::<Self, LibcryptErr>(e),
            Self::of_native(v) == Ok::<Self, LibcryptErr>(e) ==> e.native() == v,
    {
    }
}

impl From<CryptDebugLevel> for i32 {
    fn from(v: CryptDebugLevel) -> (r: i32) {
        match v {
            CryptDebugLevel::All => CRYPT_DEBUG_ALL,
            CryptDebugLevel::Json => CRYPT_DEBUG_JSON,
            CryptDebugLevel::NoDebug => CRYPT_DEBUG_NONE,
        }
    }
}

impl FromSpecImpl<CryptDebugLevel> for i32 {
    open spec fn obeys_from_spec() -> bool {
        true
    }

    open spec fn from_spec(v: CryptDebugLevel) -> i32 {
        v.native()
    }
}

impl TryFrom<i32> for CryptDebugLevel {
    type Error = LibcryptErr;

    fn try_from(v: i32) -> (r: Result<Self, LibcryptErr>) {
        if v == CRYPT_DEBUG_ALL {
            Ok(CryptDebugLevel::All)
        } else if v == CRYPT_DEBUG_JSON {
            Ok(CryptDebugLevel::Json)
        } else if v == CRYPT_DEBUG_NONE {
            Ok(CryptDebugLevel::NoDebug)
        } else {
            Err(LibcryptErr::InvalidConversion)
        }
    }
}

impl TryFromSpecImpl<i32> for CryptDebugLevel {
    open spec fn obeys_try_from_spec() -> bool {
        true
    }

    open spec fn try_from_spec(v: i32) -> Result<Self, LibcryptErr> {
        Self::of_native(v)
    }
}

} // verus!
