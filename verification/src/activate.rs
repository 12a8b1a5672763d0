//! Activation and deactivation flags.

use vstd::prelude::*;
use vstd::std_specs::convert::{FromSpecImpl, TryFromSpecImpl};

use crate::consts::{
    CRYPT_ACTIVATE_ALLOW_DISCARDS, CRYPT_ACTIVATE_ALLOW_UNBOUND_KEY,
    CRYPT_ACTIVATE_CHECK_AT_MOST_ONCE, CRYPT_ACTIVATE_CORRUPTED, CRYPT_ACTIVATE_IGNORE_CORRUPTION,
    CRYPT_ACTIVATE_IGNORE_PERSISTENT, CRYPT_ACTIVATE_IGNORE_ZERO_BLOCKS, CRYPT_ACTIVATE_KEYRING_KEY,
    CRYPT_ACTIVATE_NO_JOURNAL, CRYPT_ACTIVATE_NO_JOURNAL_BITMAP, CRYPT_ACTIVATE_NO_UUID,
    CRYPT_ACTIVATE_PRIVATE, CRYPT_ACTIVATE_READONLY, CRYPT_ACTIVATE_RECALCULATE,
    CRYPT_ACTIVATE_RECOVERY, CRYPT_ACTIVATE_REFRESH, CRYPT_ACTIVATE_RESTART_ON_CORRUPTION,
    CRYPT_ACTIVATE_SAME_CPU_CRYPT, CRYPT_ACTIVATE_SERIALIZE_MEMORY_HARD_PBKDF,
    CRYPT_ACTIVATE_SHARED, CRYPT_ACTIVATE_SUBMIT_FROM_CRYPT_CPUS, CRYPT_DEACTIVATE_DEFERRED,
    CRYPT_DEACTIVATE_FORCE,
};
use crate::err::LibcryptErr;
use crate::flags::{lemma_variant_of, native_of, variant_of, FlagSet, NativeFlag};

verus! {

/// One of the flags that steer the activation of a device.
#[derive(Debug, PartialEq, Eq, Structural, Clone, Copy)]
pub enum CryptActivateFlag {
    /// Map the device read-only.
    Readonly,
    /// The mapping carries no UUID; reported for old mappings only.
    NoUuid,
    /// Let the underlying device be shared with other mappings.
    Shared,
    /// Pass discard requests on to the underlying device.
    AllowDiscards,
    /// Keep the mapping away from the global udev rules.
    Private,
    /// Corruption was detected on the mapping.
    Corrupted,
    /// Encrypt on the processor that submitted the request.
    SameCpuCrypt,
    /// Submit writes from the encryption threads.
    SubmitFromCryptCpus,
    /// Log corrupted blocks and go on.
    IgnoreCorruption,
    /// Restart the system when a corrupted block is found.
    RestartOnCorruption,
    /// Do not verify blocks that are expected to hold zeroes.
    IgnoreZeroBlocks,
    /// Hand the volume key over through the kernel keyring.
    KeyringKey,
    /// Run the integrity layer without its journal.
    NoJournal,
    /// Run the integrity layer in recovery mode.
    Recovery,
    /// Ignore the activation flags stored in the header.
    IgnorePersistent,
    /// Verify each block on its first read only.
    CheckAtMostOnce,
    /// Accept a key slot that is bound to no segment.
    AllowUnboundKey,
    /// Recalculate the integrity tags.
    Recalculate,
    /// Reload the table of an active mapping.
    Refresh,
    /// Unlock key slots with memory-hard key derivation one at a time.
    SerializeMemoryHardPbkdf,
    /// Use a bitmap in place of the integrity journal.
    NoJournalBitmap,
}

impl NativeFlag for CryptActivateFlag {
    open spec fn position(self) -> u32 {
        match self {
            CryptActivateFlag::Readonly => 0,
            CryptActivateFlag::NoUuid => 1,
            CryptActivateFlag::Shared => 2,
            CryptActivateFlag::AllowDiscards => 3,
            CryptActivateFlag::Private => 4,
            CryptActivateFlag::Corrupted => 5,
            CryptActivateFlag::SameCpuCrypt => 6,
            CryptActivateFlag::SubmitFromCryptCpus => 7,
            CryptActivateFlag::IgnoreCorruption => 8,
            CryptActivateFlag::RestartOnCorruption => 9,
            CryptActivateFlag::IgnoreZeroBlocks => 10,
            CryptActivateFlag::KeyringKey => 11,
            CryptActivateFlag::NoJournal => 12,
            CryptActivateFlag::Recovery => 13,
            CryptActivateFlag::IgnorePersistent => 14,
            CryptActivateFlag::CheckAtMostOnce => 15,
            CryptActivateFlag::AllowUnboundKey => 16,
            CryptActivateFlag::Recalculate => 17,
            CryptActivateFlag::Refresh => 18,
            CryptActivateFlag::SerializeMemoryHardPbkdf => 19,
            CryptActivateFlag::NoJournalBitmap => 20,
        }
    }

    fn to_native(self) -> (r: u32) {
        match self {
            CryptActivateFlag::Readonly => CRYPT_ACTIVATE_READONLY,
            CryptActivateFlag::NoUuid => CRYPT_ACTIVATE_NO_UUID,
            CryptActivateFlag::Shared => CRYPT_ACTIVATE_SHARED,
            CryptActivateFlag::AllowDiscards => CRYPT_ACTIVATE_ALLOW_DISCARDS,
            CryptActivateFlag::Private => CRYPT_ACTIVATE_PRIVATE,
            CryptActivateFlag::Corrupted => CRYPT_ACTIVATE_CORRUPTED,
            CryptActivateFlag::SameCpuCrypt => CRYPT_ACTIVATE_SAME_CPU_CRYPT,
            CryptActivateFlag::SubmitFromCryptCpus => CRYPT_ACTIVATE_SUBMIT_FROM_CRYPT_CPUS,
            CryptActivateFlag::IgnoreCorruption => CRYPT_ACTIVATE_IGNORE_CORRUPTION,
            CryptActivateFlag::RestartOnCorruption => CRYPT_ACTIVATE_RESTART_ON_CORRUPTION,
            CryptActivateFlag::IgnoreZeroBlocks => CRYPT_ACTIVATE_IGNORE_ZERO_BLOCKS,
            CryptActivateFlag::KeyringKey => CRYPT_ACTIVATE_KEYRING_KEY,
            CryptActivateFlag::NoJournal => CRYPT_ACTIVATE_NO_JOURNAL,
            CryptActivateFlag::Recovery => CRYPT_ACTIVATE_RECOVERY,
            CryptActivateFlag::IgnorePersistent => CRYPT_ACTIVATE_IGNORE_PERSISTENT,
            CryptActivateFlag::CheckAtMostOnce => CRYPT_ACTIVATE_CHECK_AT_MOST_ONCE,
            CryptActivateFlag::AllowUnboundKey => CRYPT_ACTIVATE_ALLOW_UNBOUND_KEY,
            CryptActivateFlag::Recalculate => CRYPT_ACTIVATE_RECALCULATE,
            CryptActivateFlag::Refresh => CRYPT_ACTIVATE_REFRESH,
            CryptActivateFlag::SerializeMemoryHardPbkdf => CRYPT_ACTIVATE_SERIALIZE_MEMORY_HARD_PBKDF,
            CryptActivateFlag::NoJournalBitmap => CRYPT_ACTIVATE_NO_JOURNAL_BITMAP,
        }
    }

    fn from_native(v: u32) -> (r: Result<Self, LibcryptErr>) {
        if v == CRYPT_ACTIVATE_READONLY {
            Ok(CryptActivateFlag::Readonly)
        } else if v == CRYPT_ACTIVATE_NO_UUID {
            Ok(CryptActivateFlag::NoUuid)
        } else if v == CRYPT_ACTIVATE_SHARED {
            Ok(CryptActivateFlag::Shared)
        } else if v == CRYPT_ACTIVATE_ALLOW_DISCARDS {
            Ok(CryptActivateFlag::AllowDiscards)
        } else if v == CRYPT_ACTIVATE_PRIVATE {
            Ok(CryptActivateFlag::Private)
        } else if v == CRYPT_ACTIVATE_CORRUPTED {
            Ok(CryptActivateFlag::Corrupted)
        } else if v == CRYPT_ACTIVATE_SAME_CPU_CRYPT {
            Ok(CryptActivateFlag::SameCpuCrypt)
        } else if v == CRYPT_ACTIVATE_SUBMIT_FROM_CRYPT_CPUS {
            Ok(CryptActivateFlag::SubmitFromCryptCpus)
        } else if v == CRYPT_ACTIVATE_IGNORE_CORRUPTION {
            Ok(CryptActivateFlag::IgnoreCorruption)
        } else if v == CRYPT_ACTIVATE_RESTART_ON_CORRUPTION {
            Ok(CryptActivateFlag::RestartOnCorruption)
        } else if v == CRYPT_ACTIVATE_IGNORE_ZERO_BLOCKS {
            Ok(CryptActivateFlag::IgnoreZeroBlocks)
        } else if v == CRYPT_ACTIVATE_KEYRING_KEY {
            Ok(CryptActivateFlag::KeyringKey)
        } else if v == CRYPT_ACTIVATE_NO_JOURNAL {
            Ok(CryptActivateFlag::NoJournal)
        } else if v == CRYPT_ACTIVATE_RECOVERY {
            Ok(CryptActivateFlag::Recovery)
        } else if v == CRYPT_ACTIVATE_IGNORE_PERSISTENT {
            Ok(CryptActivateFlag::IgnorePersistent)
        } else if v == CRYPT_ACTIVATE_CHECK_AT_MOST_ONCE {
            Ok(CryptActivateFlag::CheckAtMostOnce)
        } else if v == CRYPT_ACTIVATE_ALLOW_UNBOUND_KEY {
            Ok(CryptActivateFlag::AllowUnboundKey)
        } else if v == CRYPT_ACTIVATE_RECALCULATE {
            Ok(CryptActivateFlag::Recalculate)
        } else if v == CRYPT_ACTIVATE_REFRESH {
            Ok(CryptActivateFlag::Refresh)
        } else if v == CRYPT_ACTIVATE_SERIALIZE_MEMORY_HARD_PBKDF {
            Ok(CryptActivateFlag::SerializeMemoryHardPbkdf)
        } else if v == CRYPT_ACTIVATE_NO_JOURNAL_BITMAP {
            Ok(CryptActivateFlag::NoJournalBitmap)
        } else {
            Err(LibcryptErr::InvalidConversion)
        }
    }

    proof fn lemma_position_in_word(self) {
    }

    proof fn lemma_position_injective(self, other: Self) {
    }
}

impl From<CryptActivateFlag> for u32 {
    fn from(v: CryptActivateFlag) -> (r: u32) {
        v.to_native()
    }
}

impl FromSpecImpl<CryptActivateFlag> for u32 {
    open spec fn obeys_from_spec() -> bool {
        true
    }

    open spec fn from_spec(v: CryptActivateFlag) -> u32 {
        native_of(v)
    }
}

impl TryFrom<u32> for CryptActivateFlag {
    type Error = LibcryptErr;

    fn try_from(v: u32) -> (r: Result<Self, LibcryptErr>) {
        let r = Self::from_native(v);
        proof {
            if let Ok(f) = r {
                lemma_variant_of(f);
            }
        }
        r
    }
}

impl TryFromSpecImpl<u32> for CryptActivateFlag {
    open spec fn obeys_try_from_spec() -> bool {
        true
    }

    open spec fn try_from_spec(v: u32) -> Result<Self, LibcryptErr> {
        variant_of::<Self>(v)
    }
}

/// A set of activation flags.
pub type CryptActivateFlags = FlagSet<CryptActivateFlag>;

/// One of the flags that steer the deactivation of a device.
#[derive(Debug, PartialEq, Eq, Structural, Clone, Copy)]
pub enum CryptDeactivateFlag {
    /// Remove the mapping once its last user has closed it.
    Deferred,
    /// Remove the mapping even while it is in use.
    Force,
}

impl NativeFlag for CryptDeactivateFlag {
    open spec fn position(self) -> u32 {
        match self {
            CryptDeactivateFlag::Deferred => 0,
            CryptDeactivateFlag::Force => 1,
        }
    }

    fn to_native(self) -> (r: u32) {
        match self {
            CryptDeactivateFlag::Deferred => CRYPT_DEACTIVATE_DEFERRED,
            CryptDeactivateFlag::Force => CRYPT_DEACTIVATE_FORCE,
        }
    }

    fn from_native(v: u32) -> (r: Result<Self, LibcryptErr>) {
        if v == CRYPT_DEACTIVATE_DEFERRED {
            Ok(CryptDeactivateFlag::Deferred)
        } else if v == CRYPT_DEACTIVATE_FORCE {
            Ok(CryptDeactivateFlag::Force)
        } else {
            Err(LibcryptErr::InvalidConversion)
        }
    }

    proof fn lemma_position_in_word(self) {
    }

    proof fn lemma_position_injective(self, other: Self) {
    }
}

impl From<CryptDeactivateFlag> for u32 {
    fn from(v: CryptDeactivateFlag) -> (r: u32) {
        v.to_native()
    }
}

impl FromSpecImpl<CryptDeactivateFlag> for u32 {
    open spec fn obeys_from_spec() -> bool {
        true
    }

    open spec fn from_spec(v: CryptDeactivateFlag) -> u32 {
        native_of(v)
    }
}

impl TryFrom<u32> for CryptDeactivateFlag {
    type Error = LibcryptErr;

    fn try_from(v: u32) -> (r: Result<Self, LibcryptErr>) {
        let r = Self::from_native(v);
        proof {
            if let Ok(f) = r {
                lemma_variant_of(f);
            }
        }
        r
    }
}

impl TryFromSpecImpl<u32> for CryptDeactivateFlag {
    open spec fn obeys_try_from_spec() -> bool {
        true
    }

    open spec fn try_from_spec(v: u32) -> Result<Self, LibcryptErr> {
        variant_of::<Self>(v)
    }
}

/// A set of deactivation flags.
pub type CryptDeactivateFlags = FlagSet<CryptDeactivateFlag>;

} // verus!
