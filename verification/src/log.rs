//! Log messages of the native library.

use vstd::prelude::*;
use vstd::std_specs::convert::{FromSpecImpl, TryFromSpecImpl};

use crate::consts::{
    CRYPT_LOG_DEBUG, CRYPT_LOG_DEBUG_JSON, CRYPT_LOG_ERROR, CRYPT_LOG_NORMAL, CRYPT_LOG_VERBOSE,
};
use crate::err::LibcryptErr;

verus! {

/// The level of a log message.
#[derive(Debug, PartialEq, Eq, Structural, Clone, Copy)]
pub enum CryptLogLevel {
    /// An ordinary message.
    Normal,
    /// An error message.
    Error,
    /// A message for verbose output.
    Verbose,
    /// A debug message.
    Debug,
    /// A debug message that holds metadata as JSON.
    DebugJson,
}

impl CryptLogLevel {
    /// The native constant of the variant.
    pub open spec fn native(self) -> i32 {
        match self {
            CryptLogLevel::Normal => CRYPT_LOG_NORMAL,
            CryptLogLevel::Error => CRYPT_LOG_ERROR,
            CryptLogLevel::Verbose => CRYPT_LOG_VERBOSE,
            CryptLogLevel::Debug => CRYPT_LOG_DEBUG,
            CryptLogLevel::DebugJson => CRYPT_LOG_DEBUG_JSON,
        }
    }

    /// The variant of a native constant, or a conversion error where the constant has none.
    pub open spec fn of_native(v: i32) -> Result<Self, LibcryptErr> {
        if v == CRYPT_LOG_NORMAL {
            Ok(CryptLogLevel::Normal)
        } else if v == CRYPT_LOG_ERROR {
            Ok(CryptLogLevel::Error)
        } else if v == CRYPT_LOG_VERBOSE {
            Ok(CryptLogLevel::Verbose)
        } else if v == CRYPT_LOG_DEBUG {
            Ok(CryptLogLevel::Debug)
        } else if v == CRYPT_LOG_DEBUG_JSON {
            Ok(CryptLogLevel::DebugJson)
        } else {
            Err(LibcryptErr::InvalidConversion)
        }
    }

    /// Every variant has a constant that stands for it, and a constant stands for no
    /// variant but the one it belongs to.
    pub proof fn lemma_round_trip(e: Self, v: i32)
        ensures
            Self::of_native(e.native()) == Ok::<Self, LibcryptErr>(e),
            Self::of_native(v) == Ok::<Self, LibcryptErr>(e) ==> e.native() == v,
    {
    }
}

impl From<CryptLogLevel> for i32 {
    fn from(v: CryptLogLevel) -> (r: i32) {
        match v {
            CryptLogLevel::Normal => CRYPT_LOG_NORMAL,
            CryptLogLevel::Error => CRYPT_LOG_ERROR,
            CryptLogLevel::Verbose => CRYPT_LOG_VERBOSE,
            CryptLogLevel::Debug => CRYPT_LOG_DEBUG,
            CryptLogLevel::DebugJson => CRYPT_LOG_DEBUG_JSON,
        }
    }
}

impl FromSpecImpl<CryptLogLevel> for i32 {
    open spec fn obeys_from_spec() -> bool {
        true
    }

    open spec fn from_spec(v: CryptLogLevel) -> i32 {
        v.native()
    }
}

impl TryFrom<i32> for CryptLogLevel {
    type Error = LibcryptErr;

    fn try_from(v: i32) -> (r: Result<Self, LibcryptErr>) {
        if v == CRYPT_LOG_NORMAL {
            Ok(CryptLogLevel::Normal)
        } else if v == CRYPT_LOG_ERROR {
            Ok(CryptLogLevel::Error)
        } else if v == CRYPT_LOG_VERBOSE {
            Ok(CryptLogLevel::Verbose)
        } else if v == CRYPT_LOG_DEBUG {
            Ok(CryptLogLevel::Debug)
        } else if v == CRYPT_LOG_DEBUG_JSON {
            Ok(CryptLogLevel::DebugJson)
        } else {
            Err(LibcryptErr::InvalidConversion)
        }
    }
}

impl TryFromSpecImpl<i32> for CryptLogLevel {
    open spec fn obeys_try_from_spec() -> bool {
        true
    }

    open spec fn try_from_spec(v: i32) -> Result<Self, LibcryptErr> {
        Self::of_native(v)
    }
}

} // verus!
