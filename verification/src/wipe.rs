//! Wiping a device.

use vstd::prelude::*;
use vstd::std_specs::convert::{FromSpecImpl, TryFromSpecImpl};

use crate::consts::{
    CRYPT_WIPE_ENCRYPTED_ZERO, CRYPT_WIPE_NO_DIRECT_IO, CRYPT_WIPE_RANDOM, CRYPT_WIPE_SPECIAL,
    CRYPT_WIPE_ZERO,
};
use crate::err::LibcryptErr;

verus! {

/// The pattern that a wipe writes.
#[derive(Debug, PartialEq, Eq, Structural, Clone, Copy)]
pub enum CryptWipePattern {
    /// Zeroes.
    Zero,
    /// Random data.
    Random,
    /// Zeroes, written through the encryption layer.
    EncryptedZero,
    /// A pattern for the detection of data left unwritten.
    Special,
}

impl CryptWipePattern {
    /// The native constant of the variant.
    pub open spec fn native(self) -> u32 {
        match self {
            CryptWipePattern::Zero => CRYPT_WIPE_ZERO,
            CryptWipePattern::Random => CRYPT_WIPE_RANDOM,
            CryptWipePattern::EncryptedZero => CRYPT_WIPE_ENCRYPTED_ZERO,
            CryptWipePattern::Special => CRYPT_WIPE_SPECIAL,
        }
    }

    /// The variant of a native constant, or a conversion error where the constant has none.
    pub open spec fn of_native(v: u32) -> Result<Self, LibcryptErr> {
        if v == CRYPT_WIPE_ZERO {
            Ok(CryptWipePattern::Zero)
        } else if v == CRYPT_WIPE_RANDOM {
            Ok(CryptWipePattern::Random)
        } else if v == CRYPT_WIPE_ENCRYPTED_ZERO {
            Ok(CryptWipePattern::EncryptedZero)
        } else if v == CRYPT_WIPE_SPECIAL {
            Ok(CryptWipePattern::Special)
        } else {
            Err(LibcryptErr::InvalidConversion)
        }
    }

    /// Every variant has a constant that stands for it, and a constant stands for no
    /// variant but the one it belongs to.
    pub proof fn lemma_round_trip(e: Self, v: u32)
        ensures
            Self::of_native(e.native()) == Ok::<Self, LibcryptErr>(e),
            Self::of_native(v) == Ok::<Self, LibcryptErr>(e) ==> e.native() == v,
    {
    }
}

impl From<CryptWipePattern> for u32 {
    fn from(v: CryptWipePattern) -> (r: u32) {
        match v {
            CryptWipePattern::Zero => CRYPT_WIPE_ZERO,
            CryptWipePattern::Random => CRYPT_WIPE_RANDOM,
            CryptWipePattern::EncryptedZero => CRYPT_WIPE_ENCRYPTED_ZERO,
            CryptWipePattern::Special => CRYPT_WIPE_SPECIAL,
        }
    }
}

impl FromSpecImpl<CryptWipePattern> for u32 {
    open spec fn obeys_from_spec() -> bool {
        true
    }

    open spec fn from_spec(v: CryptWipePattern) -> u32 {
        v.native()
    }
}

impl TryFrom<u32> for CryptWipePattern {
    type Error = LibcryptErr;

    fn try_from(v: u32) -> (r: Result<Self, LibcryptErr>) {
        if v == CRYPT_WIPE_ZERO {
            Ok(CryptWipePattern::Zero)
        } else if v == CRYPT_WIPE_RANDOM {
            Ok(CryptWipePattern::Random)
        } else if v == CRYPT_WIPE_ENCRYPTED_ZERO {
            Ok(CryptWipePattern::EncryptedZero)
        } else if v == CRYPT_WIPE_SPECIAL {
            Ok(CryptWipePattern::Special)
        } else {
            Err(LibcryptErr::InvalidConversion)
        }
    }
}

impl TryFromSpecImpl<u32> for CryptWipePattern {
    open spec fn obeys_try_from_spec() -> bool {
        true
    }

    open spec fn try_from_spec(v: u32) -> Result<Self, LibcryptErr> {
        Self::of_native(v)
    }
}

/// The flag word of a wipe: the flag that bypasses direct input and output where that is
/// asked for, and no flag else.
pub fn wipe_flags(wipe_no_direct_io: bool) -> (r: u32)
    ensures
        r == if wipe_no_direct_io {
            CRYPT_WIPE_NO_DIRECT_IO
        } else {
            0
        },
{
    if wipe_no_direct_io {
        CRYPT_WIPE_NO_DIRECT_IO
    } else {
        0
    }
}

} // verus!
