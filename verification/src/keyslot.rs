//! Key slots: volume key flags, slot states and priorities.

use libc::{c_int, c_uint};

use vstd::prelude::*;
use vstd::std_specs::convert::{FromSpecImpl, TryFromSpecImpl};

use crate::consts::{
    CRYPT_ANY_SLOT, CRYPT_SLOT_ACTIVE, CRYPT_SLOT_ACTIVE_LAST, CRYPT_SLOT_INACTIVE,
    CRYPT_SLOT_INVALID, CRYPT_SLOT_PRIORITY_IGNORE, CRYPT_SLOT_PRIORITY_INVALID,
    CRYPT_SLOT_PRIORITY_NORMAL, CRYPT_SLOT_PRIORITY_PREFER, CRYPT_SLOT_UNBOUND,
    CRYPT_VOLUME_KEY_DIGEST_REUSE, CRYPT_VOLUME_KEY_NO_SEGMENT, CRYPT_VOLUME_KEY_SET,
};
use crate::err::LibcryptErr;
use crate::flags::{lemma_variant_of, native_of, variant_of, FlagSet, NativeFlag};

verus! {

/// One of the flags for operations on volume keys.
#[derive(Debug, PartialEq, Eq, Structural, Clone, Copy)]
pub enum CryptVolumeKeyFlag {
    /// Bind the new key to no data segment.
    NoSegment,
    /// Make the key the volume key of the device.
    SetKey,
    /// Assign the key slot to the digest the key already has.
    DigestReuse,
}

impl NativeFlag for CryptVolumeKeyFlag {
    open spec fn position(self) -> u32 {
        match self {
            CryptVolumeKeyFlag::NoSegment => 0,
            CryptVolumeKeyFlag::SetKey => 1,
            CryptVolumeKeyFlag::DigestReuse => 2,
        }
    }

    fn to_native(self) -> (r: u32) {
        match self {
            CryptVolumeKeyFlag::NoSegment => CRYPT_VOLUME_KEY_NO_SEGMENT,
            CryptVolumeKeyFlag::SetKey => CRYPT_VOLUME_KEY_SET,
            CryptVolumeKeyFlag::DigestReuse => CRYPT_VOLUME_KEY_DIGEST_REUSE,
        }
    }

    fn from_native(v: u32) -> (r: Result<Self, LibcryptErr>) {
        if v == CRYPT_VOLUME_KEY_NO_SEGMENT {
            Ok(CryptVolumeKeyFlag::NoSegment)
        } else if v == CRYPT_VOLUME_KEY_SET {
            Ok(CryptVolumeKeyFlag::SetKey)
        } else if v == CRYPT_VOLUME_KEY_DIGEST_REUSE {
            Ok(CryptVolumeKeyFlag::DigestReuse)
        } else {
            Err(LibcryptErr::InvalidConversion)
        }
    }

    proof fn lemma_position_in_word(self) {
    }

    proof fn lemma_position_injective(self, other: Self) {
    }
}

impl From<CryptVolumeKeyFlag> for u32 {
    fn from(v: CryptVolumeKeyFlag) -> (r: u32) {
        v.to_native()
    }
}

impl FromSpecImpl<CryptVolumeKeyFlag> for u32 {
    open spec fn obeys_from_spec() -> bool {
        true
    }

    open spec fn from_spec(v: CryptVolumeKeyFlag) -> u32 {
        native_of(v)
    }
}

impl TryFrom<u32> for CryptVolumeKeyFlag {
    type Error = LibcryptErr;

    fn try_from(v: u32) -> (r: Result<Self, LibcryptErr>) {
        let r = Self::from_native(v);
        proof {
            if let Ok(f) = r {
                lemma_variant_of(f);
            }
        }
        r
    }
}

impl TryFromSpecImpl<u32> for CryptVolumeKeyFlag {
    open spec fn obeys_try_from_spec() -> bool {
        true
    }

    open spec fn try_from_spec(v: u32) -> Result<Self, LibcryptErr> {
        variant_of::<Self>(v)
    }
}

/// A set of volume key flags.
pub type CryptVolumeKeyFlags = FlagSet<CryptVolumeKeyFlag>;

/// The state of a key slot.
#[derive(Debug, PartialEq, Eq, Structural, Clone, Copy)]
pub enum KeyslotInfo {
    /// There is no such key slot.
    Invalid,
    /// The key slot is empty.
    Inactive,
    /// The key slot holds a key.
    Active,
    /// The key slot holds the last key of the device.
    ActiveLast,
    /// The key slot holds a key that is bound to no segment.
    Unbound,
}

impl KeyslotInfo {
    /// The native constant of the variant.
    pub open spec fn native(self) -> u32 {
        match self {
            KeyslotInfo::Invalid => CRYPT_SLOT_INVALID,
            KeyslotInfo::Inactive => CRYPT_SLOT_INACTIVE,
            KeyslotInfo::Active => CRYPT_SLOT_ACTIVE,
            KeyslotInfo::ActiveLast => CRYPT_SLOT_ACTIVE_LAST,
            KeyslotInfo::Unbound => CRYPT_SLOT_UNBOUND,
        }
    }

    /// The variant of a native constant, or a conversion error where the constant has none.
    pub open spec fn of_native(v: u32) -> Result<Self, LibcryptErr> {
        if v == CRYPT_SLOT_INVALID {
            Ok(KeyslotInfo::Invalid)
        } else if v == CRYPT_SLOT_INACTIVE {
            Ok(KeyslotInfo::Inactive)
        } else if v == CRYPT_SLOT_ACTIVE {
            Ok(KeyslotInfo::Active)
        } else if v == CRYPT_SLOT_ACTIVE_LAST {
            Ok(KeyslotInfo::ActiveLast)
        } else if v == CRYPT_SLOT_UNBOUND {
            Ok(KeyslotInfo::Unbound)
        } else {
            Err(LibcryptErr::InvalidConversion)
        }
    }

    /// Every variant has a constant that stands for it, and a constant stands for no
    /// variant but the one it belongs to.
    pub proof fn lemma_round_trip(e: Self, v: u32)
        ensures
            Self::of_native(e.native()) == Ok::<Self, LibcryptErr>(e),
            Self::of_native(v) == Ok::<Self, LibcryptErr>(e) ==> e.native() == v,
    {
    }
}

impl From<KeyslotInfo> for u32 {
    fn from(v: KeyslotInfo) -> (r: u32) {
        match v {
            KeyslotInfo::Invalid => CRYPT_SLOT_INVALID,
            KeyslotInfo::Inactive => CRYPT_SLOT_INACTIVE,
            KeyslotInfo::Active => CRYPT_SLOT_ACTIVE,
            KeyslotInfo::ActiveLast => CRYPT_SLOT_ACTIVE_LAST,
            KeyslotInfo::Unbound => CRYPT_SLOT_UNBOUND,
        }
    }
}

impl FromSpecImpl<KeyslotInfo> for u32 {
    open spec fn obeys_from_spec() -> bool {
        true
    }

    open spec fn from_spec(v: KeyslotInfo) -> u32 {
        v.native()
    }
}

impl TryFrom<u32> for KeyslotInfo {
    type Error = LibcryptErr;

    fn try_from(v: u32) -> (r: Result<Self, LibcryptErr>) {
        if v == CRYPT_SLOT_INVALID {
            Ok(KeyslotInfo::Invalid)
        } else if v == CRYPT_SLOT_INACTIVE {
            Ok(KeyslotInfo::Inactive)
        } else if v == CRYPT_SLOT_ACTIVE {
            Ok(KeyslotInfo::Active)
        } else if v == CRYPT_SLOT_ACTIVE_LAST {
            Ok(KeyslotInfo::ActiveLast)
        } else if v == CRYPT_SLOT_UNBOUND {
            Ok(KeyslotInfo::Unbound)
        } else {
            Err(LibcryptErr::InvalidConversion)
        }
    }
}

impl TryFromSpecImpl<u32> for KeyslotInfo {
    open spec fn obeys_try_from_spec() -> bool {
        true
    }

    open spec fn try_from_spec(v: u32) -> Result<Self, LibcryptErr> {
        Self::of_native(v)
    }
}

/// The priority of a key slot.
#[derive(Debug, PartialEq, Eq, Structural, Clone, Copy)]
pub enum KeyslotPriority {
    /// There is no such key slot.
    Invalid,
    /// The key slot is tried only when it is asked for by number.
    Ignore,
    /// The default priority.
    Normal,
    /// The key slot is tried before the others.
    Prefer,
}

impl KeyslotPriority {
    /// The native constant of the variant.
    pub open spec fn native(self) -> i32 {
        match self {
            KeyslotPriority::Invalid => CRYPT_SLOT_PRIORITY_INVALID,
            KeyslotPriority::Ignore => CRYPT_SLOT_PRIORITY_IGNORE,
            KeyslotPriority::Normal => CRYPT_SLOT_PRIORITY_NORMAL,
            KeyslotPriority::Prefer => CRYPT_SLOT_PRIORITY_PREFER,
        }
    }

    /// The variant of a native constant, or a conversion error where the constant has none.
    pub open spec fn of_native(v: i32) -> Result<Self, LibcryptErr> {
        if v == CRYPT_SLOT_PRIORITY_INVALID {
            Ok(KeyslotPriority::Invalid)
        } else if v == CRYPT_SLOT_PRIORITY_IGNORE {
            Ok(KeyslotPriority::Ignore)
        } else if v == CRYPT_SLOT_PRIORITY_NORMAL {
            Ok(KeyslotPriority::Normal)
        } else if v == CRYPT_SLOT_PRIORITY_PREFER {
            Ok(KeyslotPriority::Prefer)
        } else {
            Err(LibcryptErr::InvalidConversion)
        }
    }

    /// Every variant has a constant that stands for it, and a constant stands for no
    /// variant but the one it belongs to.
    pub proof fn lemma_round_trip(e: Self, v: i32)
        ensures
            Self::of_native(e.native()) == Ok::<Self, LibcryptErr>(e),
            Self::of_native(v) == Ok::<Self, LibcryptErr>(e) ==> e.native() == v,
    {
    }
}

impl From<KeyslotPriority> for i32 {
    fn from(v: KeyslotPriority) -> (r: i32) {
        match v {
            KeyslotPriority::Invalid => CRYPT_SLOT_PRIORITY_INVALID,
            KeyslotPriority::Ignore => CRYPT_SLOT_PRIORITY_IGNORE,
            KeyslotPriority::Normal => CRYPT_SLOT_PRIORITY_NORMAL,
            KeyslotPriority::Prefer => CRYPT_SLOT_PRIORITY_PREFER,
        }
    }
}

impl FromSpecImpl<KeyslotPriority> for i32 {
    open spec fn obeys_from_spec() -> bool {
        true
    }

    open spec fn from_spec(v: KeyslotPriority) -> i32 {
        v.native()
    }
}

impl TryFrom<i32> for KeyslotPriority {
    type Error = LibcryptErr;

    fn try_from(v: i32) -> (r: Result<Self, LibcryptErr>) {
        if v == CRYPT_SLOT_PRIORITY_INVALID {
            Ok(KeyslotPriority::Invalid)
        } else if v == CRYPT_SLOT_PRIORITY_IGNORE {
            Ok(KeyslotPriority::Ignore)
        } else if v == CRYPT_SLOT_PRIORITY_NORMAL {
            Ok(KeyslotPriority::Normal)
        } else if v == CRYPT_SLOT_PRIORITY_PREFER {
            Ok(KeyslotPriority::Prefer)
        } else {
            Err(LibcryptErr::InvalidConversion)
        }
    }
}

impl TryFromSpecImpl<i32> for KeyslotPriority {
    open spec fn obeys_try_from_spec() -> bool {
        true
    }

    open spec fn try_from_spec(v: i32) -> Result<Self, LibcryptErr> {
        Self::of_native(v)
    }
}

/// The key slot argument of a native call: the number of the key slot, or the constant that
/// lets the native library pick one where no number is given.
pub open spec fn keyslot_arg_spec(keyslot: Option<c_uint>) -> c_int {
    match keyslot {
        Some(k) => k as c_int,
        None => CRYPT_ANY_SLOT,
    }
}

/// Gives the key slot argument of a native call.
pub fn keyslot_arg(keyslot: Option<c_uint>) -> (r: c_int)
    ensures
        r == keyslot_arg_spec(keyslot),
{
    match keyslot {
        Some(k) => {
            #[verifier::truncate]
            (k as c_int)
        },
        None => CRYPT_ANY_SLOT,
    }
}

} // verus!
