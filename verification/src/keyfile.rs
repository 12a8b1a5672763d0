//! Flags for reading key files.

use vstd::prelude::*;
use vstd::std_specs::convert::{FromSpecImpl, TryFromSpecImpl};

use crate::consts::CRYPT_KEYFILE_STOP_EOL;
use crate::err::LibcryptErr;
use crate::flags::{lemma_variant_of, native_of, variant_of, FlagSet, NativeFlag};

verus! {

/// One of the flags for reading key files.
#[derive(Debug, PartialEq, Eq, Structural, Clone, Copy)]
pub enum CryptKeyfileFlag {
    /// Stop reading at the first end of line.
    StopEol,
}

impl NativeFlag for CryptKeyfileFlag {
    open spec fn position(self) -> u32 {
        match self {
            CryptKeyfileFlag::StopEol => 0,
        }
    }

    fn to_native(self) -> (r: u32) {
        match self {
            CryptKeyfileFlag::StopEol => CRYPT_KEYFILE_STOP_EOL,
        }
    }

    fn from_native(v: u32) -> (r: Result<Self, LibcryptErr>) {
        if v == CRYPT_KEYFILE_STOP_EOL {
            Ok(CryptKeyfileFlag::StopEol)
        } else {
            Err(LibcryptErr::InvalidConversion)
        }
    }

    proof fn lemma_position_in_word(self) {
    }

    proof fn lemma_position_injective(self, other: Self) {
    }
}

impl From<CryptKeyfileFlag> for u32 {
    fn from(v: CryptKeyfileFlag) -> (r: u32) {
        v.to_native()
    }
}

impl FromSpecImpl<CryptKeyfileFlag> for u32 {
    open spec fn obeys_from_spec() -> bool {
        true
    }

    open spec fn from_spec(v: CryptKeyfileFlag) -> u32 {
        native_of(v)
    }
}

impl TryFrom<u32> for CryptKeyfileFlag {
    type Error = LibcryptErr;

    fn try_from(v: u32) -> (r: Result<Self, LibcryptErr>) {
        let r = Self::from_native(v);
        proof {
            if let Ok(f) = r {
                lemma_variant_of(f);
            }
        }
        r
    }
}

impl TryFromSpecImpl<u32> for CryptKeyfileFlag {
    open spec fn obeys_try_from_spec() -> bool {
        true
    }

    open spec fn try_from_spec(v: u32) -> Result<Self, LibcryptErr> {
        variant_of::<Self>(v)
    }
}

/// A set of key file flags.
pub type CryptKeyfileFlags = FlagSet<CryptKeyfileFlag>;

} // verus!
