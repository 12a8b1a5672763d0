//! The persistent flags of a LUKS2 header.

use vstd::prelude::*;
use vstd::std_specs::convert::{FromSpecImpl, TryFromSpecImpl};

use crate::consts::{
    CRYPT_FLAGS_ACTIVATION, CRYPT_FLAGS_REQUIREMENTS, CRYPT_REQUIREMENT_OFFLINE_REENCRYPT,
    CRYPT_REQUIREMENT_ONLINE_REENCRYPT, CRYPT_REQUIREMENT_UNKNOWN,
};
use crate::err::LibcryptErr;
use crate::flags::{lemma_variant_of, native_of, variant_of, FlagSet, NativeFlag};

verus! {

/// The kind of the persistent flags stored in a header.
#[derive(Debug, PartialEq, Eq, Structural, Clone, Copy)]
pub enum CryptFlagsType {
    /// Activation flags.
    Activation,
    /// Requirements on readers of the header.
    Requirements,
}

impl CryptFlagsType {
    /// The native constant of the variant.
    pub open spec fn native(self) -> u32 {
        match self {
            CryptFlagsType::Activation => CRYPT_FLAGS_ACTIVATION,
            CryptFlagsType::Requirements => CRYPT_FLAGS_REQUIREMENTS,
        }
    }

    /// The variant of a native constant, or a conversion error where the constant has none.
    pub open spec fn of_native(v: u32) -> Result<Self, LibcryptErr> {
        if v == CRYPT_FLAGS_ACTIVATION {
            Ok(CryptFlagsType::Activation)
        } else if v == CRYPT_FLAGS_REQUIREMENTS {
            Ok(CryptFlagsType::Requirements)
        } else {
            Err(LibcryptErr::InvalidConversion)
        }
    }

    /// Every variant has a constant that stands for it, and a constant stands for no
    /// variant but the one it belongs to.
    pub proof fn lemma_round_trip(e: Self, v: u32)
        ensures
            Self::of_native(e.native()) == Ok::<Self, LibcryptErr>(e),
            Self::of_native(v) == Ok::<Self, LibcryptErr>(e) ==> e.native() == v,
    {
    }
}

impl From<CryptFlagsType> for u32 {
    fn from(v: CryptFlagsType) -> (r: u32) {
        match v {
            CryptFlagsType::Activation => CRYPT_FLAGS_ACTIVATION,
            CryptFlagsType::Requirements => CRYPT_FLAGS_REQUIREMENTS,
        }
    }
}

impl FromSpecImpl<CryptFlagsType> for u32 {
    open spec fn obeys_from_spec() -> bool {
        true
    }

    open spec fn from_spec(v: CryptFlagsType) -> u32 {
        v.native()
    }
}

impl TryFrom<u32> for CryptFlagsType {
    type Error = LibcryptErr;

    fn try_from(v: u32) -> (r: Result<Self, LibcryptErr>) {
        if v == CRYPT_FLAGS_ACTIVATION {
            Ok(CryptFlagsType::Activation)
        } else if v == CRYPT_FLAGS_REQUIREMENTS {
            Ok(CryptFlagsType::Requirements)
        } else {
            Err(LibcryptErr::InvalidConversion)
        }
    }
}

impl TryFromSpecImpl<u32> for CryptFlagsType {
    open spec fn obeys_try_from_spec() -> bool {
        true
    }

    open spec fn try_from_spec(v: u32) -> Result<Self, LibcryptErr> {
        Self::of_native(v)
    }
}

/// One of the requirements that a header places on its readers.
#[derive(Debug, PartialEq, Eq, Structural, Clone, Copy)]
pub enum CryptRequirementFlag {
    /// An offline reencryption is in progress.
    OfflineReencrypt,
    /// An online reencryption is in progress.
    OnlineReencrypt,
    /// The header holds a requirement that the native library does not know.
    Unknown,
}

impl NativeFlag for CryptRequirementFlag {
    open spec fn position(self) -> u32 {
        match self {
            CryptRequirementFlag::OfflineReencrypt => 0,
            CryptRequirementFlag::OnlineReencrypt => 1,
            CryptRequirementFlag::Unknown => 31,
        }
    }

    fn to_native(self) -> (r: u32) {
        match self {
            CryptRequirementFlag::OfflineReencrypt => CRYPT_REQUIREMENT_OFFLINE_REENCRYPT,
            CryptRequirementFlag::OnlineReencrypt => CRYPT_REQUIREMENT_ONLINE_REENCRYPT,
            CryptRequirementFlag::Unknown => CRYPT_REQUIREMENT_UNKNOWN,
        }
    }

    fn from_native(v: u32) -> (r: Result<Self, LibcryptErr>) {
        if v == CRYPT_REQUIREMENT_OFFLINE_REENCRYPT {
            Ok(CryptRequirementFlag::OfflineReencrypt)
        } else if v == CRYPT_REQUIREMENT_ONLINE_REENCRYPT {
            Ok(CryptRequirementFlag::OnlineReencrypt)
        } else if v == CRYPT_REQUIREMENT_UNKNOWN {
            Ok(CryptRequirementFlag::Unknown)
        } else {
            Err(LibcryptErr::InvalidConversion)
        }
    }

    proof fn lemma_position_in_word(self) {
    }

    proof fn lemma_position_injective(self, other: Self) {
    }
}

impl From<CryptRequirementFlag> for u32 {
    fn from(v: CryptRequirementFlag) -> (r: u32) {
        v.to_native()
    }
}

impl FromSpecImpl<CryptRequirementFlag> for u32 {
    open spec fn obeys_from_spec() -> bool {
        true
    }

    open spec fn from_spec(v: CryptRequirementFlag) -> u32 {
        native_of(v)
    }
}

impl TryFrom<u32> for CryptRequirementFlag {
    type Error = LibcryptErr;

    fn try_from(v: u32) -> (r: Result<Self, LibcryptErr>) {
        let r = Self::from_native(v);
        proof {
            if let Ok(f) = r {
                lemma_variant_of(f);
            }
        }
        r
    }
}

impl TryFromSpecImpl<u32> for CryptRequirementFlag {
    open spec fn obeys_try_from_spec() -> bool {
        true
    }

    open spec fn try_from_spec(v: u32) -> Result<Self, LibcryptErr> {
        variant_of::<Self>(v)
    }
}

/// A set of header requirements.
pub type CryptRequirementFlags = FlagSet<CryptRequirementFlag>;

} // verus!
