use libcryptsetup_rs::activate::{
    CryptActivateFlag, CryptActivateFlags, CryptDeactivateFlag, CryptDeactivateFlags,
};
use libcryptsetup_rs::consts::{
    CRYPT_ACTIVATE_ALLOW_DISCARDS, CRYPT_ACTIVATE_NO_JOURNAL_BITMAP, CRYPT_ACTIVATE_READONLY,
    CRYPT_ANY_SLOT, CRYPT_ANY_TOKEN, CRYPT_REQUIREMENT_UNKNOWN, CRYPT_WIPE_NO_DIRECT_IO,
};
use libcryptsetup_rs::debug::CryptDebugLevel;
use libcryptsetup_rs::device::{checked_data_offset_sectors, data_offset_sectors, VolumeKey};
use libcryptsetup_rs::err::{
    errno, errno_int_success, errno_uint_success, ptr_to_result, LibcryptErr,
};
use libcryptsetup_rs::flags::NativeFlag;
use libcryptsetup_rs::format::EncryptionFormat;
use libcryptsetup_rs::keyfile::{CryptKeyfileFlag, CryptKeyfileFlags};
use libcryptsetup_rs::keyslot::{keyslot_arg, KeyslotInfo, KeyslotPriority};
use libcryptsetup_rs::log::CryptLogLevel;
use libcryptsetup_rs::luks2_flags::{CryptFlagsType, CryptRequirementFlag, CryptRequirementFlags};
use libcryptsetup_rs::luks2_reencrypt::{
    CryptReencryptDirectionInfo, CryptReencryptInfo, CryptReencryptModeInfo,
};
use libcryptsetup_rs::luks2_token::{
    handler_name, is_assigned_result, token_arg, CryptTokenInfo,
};
use libcryptsetup_rs::runtime::{ActiveDevice, NativeActiveDevice};
use libcryptsetup_rs::settings::{
    metadata_sizes, CryptKdf, CryptRngFlag, KeyslotsSize, LockState, LuksType, MetadataSize,
};
use libcryptsetup_rs::status::CryptStatusInfo;
use libcryptsetup_rs::wipe::{wipe_flags, CryptWipePattern};
use libcryptsetup_rs::{Bool, Interrupt};

#[test]
fn test_encryption_format_partialeq() {
    #[allow(clippy::eq_op)]
    {
        assert_eq!(EncryptionFormat::Luks1, EncryptionFormat::Luks1);
    }
    assert_ne!(EncryptionFormat::Luks1, EncryptionFormat::Luks2);
}

#[test]
fn test_encryption_format_from_ptr() {
    for format in &[
        EncryptionFormat::Integrity,
        EncryptionFormat::Tcrypt,
        EncryptionFormat::Verity,
        EncryptionFormat::Luks2,
        EncryptionFormat::Loopaes,
        EncryptionFormat::Luks1,
        EncryptionFormat::Plain,
    ] {
        assert_eq!(
            EncryptionFormat::from_ptr(&format.as_ptr()).unwrap(),
            *format
        );
    }
}

#[test]
fn test_metadata_size() {
    assert_eq!(MetadataSize::try_from(0x4000).unwrap(), MetadataSize::Kb16);
    assert_eq!(MetadataSize::try_from(0x10000).unwrap(), MetadataSize::Kb64);
    assert!(MetadataSize::try_from(0x10001).is_err());
}

#[test]
fn test_keyslots_size() {
    // Exactly 128MB
    assert!(KeyslotsSize::try_from(1 << 27).is_ok());
    // Greater than 128MB
    assert!(KeyslotsSize::try_from(1 << 28).is_err());
    // Less than 4KB
    assert!(KeyslotsSize::try_from(1 << 11).is_err());
    // Exactly 4KB
    assert!(KeyslotsSize::try_from(1 << 12).is_ok());
    // Greater than 4KB and not divisible by 4KB
    assert!(KeyslotsSize::try_from(4097).is_err());

    // Assert that derefs are equal to the starting value
    assert!(*KeyslotsSize::try_from(1 << 27).unwrap() == (1 << 27));
}

#[test]
fn test_metadata_size_every_variant() {
    let table: [(MetadataSize, u64); 9] = [
        (MetadataSize::Kb16, 16 * 1024),
        (MetadataSize::Kb32, 32 * 1024),
        (MetadataSize::Kb64, 64 * 1024),
        (MetadataSize::Kb128, 128 * 1024),
        (MetadataSize::Kb256, 256 * 1024),
        (MetadataSize::Kb512, 512 * 1024),
        (MetadataSize::Kb1024, 1024 * 1024),
        (MetadataSize::Kb2048, 2048 * 1024),
        (MetadataSize::Kb4096, 4096 * 1024),
    ];
    for (size, bytes) in table.iter() {
        assert_eq!(**size, *bytes);
        assert_eq!(MetadataSize::try_from(*bytes).unwrap(), *size);
    }
    assert!(matches!(
        MetadataSize::try_from(0),
        Err(LibcryptErr::InvalidConversion)
    ));
}

#[test]
fn test_keyslots_size_zero_and_error_kind() {
    assert_eq!(*KeyslotsSize::try_from(0).unwrap(), 0);
    assert!(matches!(
        KeyslotsSize::try_from((1 << 27) + 4096),
        Err(LibcryptErr::InvalidConversion)
    ));
}

#[test]
fn test_metadata_sizes_pair() {
    let (m, k) = metadata_sizes(0x8000, 0x2000).unwrap();
    assert_eq!(m, MetadataSize::Kb32);
    assert_eq!(*k, 0x2000);
    assert!(matches!(
        metadata_sizes(0x8001, 0x2000),
        Err(LibcryptErr::InvalidConversion)
    ));
    assert!(matches!(
        metadata_sizes(0x8000, 0x2001),
        Err(LibcryptErr::InvalidConversion)
    ));
}

#[test]
fn test_flags_round_trip_readonly_allow_discards() {
    let expected = vec![CryptActivateFlag::Readonly, CryptActivateFlag::AllowDiscards];
    let one = CryptActivateFlags::new(vec![
        CryptActivateFlag::Readonly,
        CryptActivateFlag::AllowDiscards,
    ]);
    let other = CryptActivateFlags::new(vec![
        CryptActivateFlag::AllowDiscards,
        CryptActivateFlag::Readonly,
    ]);
    assert_eq!(one.bits(), CRYPT_ACTIVATE_READONLY | CRYPT_ACTIVATE_ALLOW_DISCARDS);
    assert_eq!(one.bits(), 0b1001);
    assert_eq!(other.bits(), one.bits());
    assert_eq!(CryptActivateFlags::try_from(one.bits()).unwrap().0, expected);
    assert_eq!(CryptActivateFlags::try_from(other.bits()).unwrap().0, expected);
}

#[test]
fn test_flags_repeated_variant_decodes_once() {
    let flags = CryptDeactivateFlags::new(vec![
        CryptDeactivateFlag::Force,
        CryptDeactivateFlag::Force,
        CryptDeactivateFlag::Deferred,
    ]);
    assert_eq!(flags.bits(), 3);
    assert_eq!(
        CryptDeactivateFlags::try_from(3).unwrap().0,
        vec![CryptDeactivateFlag::Deferred, CryptDeactivateFlag::Force]
    );
}

#[test]
fn test_flags_empty_is_zero() {
    assert_eq!(CryptActivateFlags::empty().bits(), 0);
    assert_eq!(CryptActivateFlags::new(vec![]).bits(), 0);
    assert!(CryptActivateFlags::try_from(0).unwrap().0.is_empty());
}

#[test]
fn test_flags_unknown_bit_is_rejected() {
    assert!(matches!(
        CryptActivateFlags::try_from(1 << 31),
        Err(LibcryptErr::InvalidConversion)
    ));
    assert!(matches!(
        CryptActivateFlags::try_from(CRYPT_ACTIVATE_READONLY | (1 << 25)),
        Err(LibcryptErr::InvalidConversion)
    ));
    assert!(matches!(
        CryptDeactivateFlags::try_from(4),
        Err(LibcryptErr::InvalidConversion)
    ));
    assert!(matches!(
        CryptKeyfileFlags::try_from(2),
        Err(LibcryptErr::InvalidConversion)
    ));
}

#[test]
fn test_flags_every_activation_bit() {
    let all = CryptActivateFlags::try_from((1 << 21) - 1).unwrap();
    assert_eq!(all.0.len(), 21);
    assert_eq!(all.0[0], CryptActivateFlag::Readonly);
    assert_eq!(all.0[20], CryptActivateFlag::NoJournalBitmap);
    assert_eq!(all.bits(), (1 << 21) - 1);
    for (k, flag) in all.0.iter().enumerate() {
        assert_eq!(flag.to_native(), 1u32 << k);
        assert_eq!(u32::from(*flag), 1u32 << k);
        assert_eq!(CryptActivateFlag::try_from(1u32 << k).unwrap(), *flag);
    }
    assert_eq!(
        u32::from(CryptActivateFlag::NoJournalBitmap),
        CRYPT_ACTIVATE_NO_JOURNAL_BITMAP
    );
}

#[test]
fn test_flags_into_integer() {
    let flags = CryptRequirementFlags::new(vec![
        CryptRequirementFlag::Unknown,
        CryptRequirementFlag::OnlineReencrypt,
    ]);
    let by_ref: u32 = (&flags).into();
    assert_eq!(by_ref, CRYPT_REQUIREMENT_UNKNOWN | 2);
    let by_value: u32 = flags.into();
    assert_eq!(by_value, 0x8000_0002);
    assert_eq!(
        CryptRequirementFlags::try_from(0x8000_0002).unwrap().0,
        vec![CryptRequirementFlag::OnlineReencrypt, CryptRequirementFlag::Unknown]
    );
}

#[test]
fn test_single_flag_conversions() {
    assert_eq!(CryptKeyfileFlag::StopEol.to_native(), 1);
    assert!(matches!(
        CryptKeyfileFlag::from_native(0),
        Err(LibcryptErr::InvalidConversion)
    ));
    assert!(matches!(
        CryptActivateFlag::try_from(3),
        Err(LibcryptErr::InvalidConversion)
    ));
}

#[test]
fn test_value_enums() {
    assert_eq!(u32::from(KeyslotInfo::Unbound), 4);
    assert_eq!(KeyslotInfo::try_from(3).unwrap(), KeyslotInfo::ActiveLast);
    assert!(matches!(KeyslotInfo::try_from(5), Err(LibcryptErr::InvalidConversion)));
    assert_eq!(i32::from(KeyslotPriority::Invalid), -1);
    assert_eq!(KeyslotPriority::try_from(2).unwrap(), KeyslotPriority::Prefer);
    assert!(matches!(KeyslotPriority::try_from(3), Err(LibcryptErr::InvalidConversion)));
    assert_eq!(CryptRngFlag::try_from(1).unwrap(), CryptRngFlag::Random);
    assert_eq!(u32::from(CryptRngFlag::Urandom), 0);
    assert_eq!(CryptReencryptInfo::try_from(0).unwrap(), CryptReencryptInfo::NotRunning);
    assert_eq!(u32::from(CryptReencryptInfo::Invalid), 3);
    assert_eq!(u32::from(CryptReencryptModeInfo::Decrypt), 2);
    assert_eq!(
        CryptReencryptDirectionInfo::try_from(1).unwrap(),
        CryptReencryptDirectionInfo::Backward
    );
    assert_eq!(CryptTokenInfo::try_from(5).unwrap(), CryptTokenInfo::ExternalUnknown);
    assert!(matches!(CryptTokenInfo::try_from(6), Err(LibcryptErr::InvalidConversion)));
    assert_eq!(u32::from(CryptWipePattern::EncryptedZero), 2);
    assert_eq!(CryptWipePattern::try_from(3).unwrap(), CryptWipePattern::Special);
    assert_eq!(CryptStatusInfo::try_from(3).unwrap(), CryptStatusInfo::Busy);
    assert!(matches!(CryptStatusInfo::try_from(4), Err(LibcryptErr::InvalidConversion)));
    assert_eq!(u32::from(CryptFlagsType::Requirements), 1);
    assert_eq!(i32::from(CryptDebugLevel::All), -1);
    assert_eq!(i32::from(CryptDebugLevel::Json), -2);
    assert_eq!(CryptDebugLevel::try_from(0).unwrap(), CryptDebugLevel::NoDebug);
    assert_eq!(CryptLogLevel::try_from(-2).unwrap(), CryptLogLevel::DebugJson);
    assert_eq!(i32::from(CryptLogLevel::Verbose), 2);
    assert!(matches!(CryptLogLevel::try_from(3), Err(LibcryptErr::InvalidConversion)));
}

#[test]
fn test_bool_and_interrupt() {
    assert_eq!(Bool::from(0), Bool::No);
    assert_eq!(Bool::from(1), Bool::Yes);
    assert_eq!(Bool::from(-7), Bool::Yes);
    assert_eq!(i32::from(Bool::Yes), 1);
    assert_eq!(i32::from(Bool::No), 0);
    assert_eq!(Interrupt::from(0), Interrupt::No);
    assert_eq!(Interrupt::from(5), Interrupt::Yes);
    assert_eq!(i32::from(Interrupt::Yes), 1);
    assert_eq!(LockState::from(0), LockState::Unlocked);
    assert_eq!(LockState::from(3), LockState::Locked);
    assert_eq!(i32::from(LockState::Locked), 1);
}

#[test]
fn test_errno() {
    assert!(errno(0).is_ok());
    assert!(matches!(errno(-2), Err(LibcryptErr::IOError(2))));
    assert!(matches!(errno(-i32::MAX), Err(LibcryptErr::IOError(i32::MAX))));
    assert!(matches!(errno_int_success(0), Ok(0)));
    assert!(matches!(errno_int_success(7), Ok(7)));
    assert!(matches!(errno_int_success(-22), Err(LibcryptErr::IOError(22))));
    assert!(matches!(errno_uint_success(3), Ok(3)));
    assert!(matches!(errno_uint_success(-1), Err(LibcryptErr::IOError(1))));
}

#[test]
fn test_ptr_to_result() {
    assert!(matches!(ptr_to_result(Some(5u8)), Ok(5)));
    assert!(matches!(ptr_to_result(None::<u8>), Err(LibcryptErr::NullPtr)));
}

#[test]
fn test_slot_and_token_arguments() {
    assert_eq!(keyslot_arg(None), CRYPT_ANY_SLOT);
    assert_eq!(keyslot_arg(None), -1);
    assert_eq!(keyslot_arg(Some(3)), 3);
    assert_eq!(keyslot_arg(Some(u32::MAX)), -1);
    assert_eq!(token_arg(None), CRYPT_ANY_TOKEN);
    assert_eq!(token_arg(Some(0)), 0);
    assert_eq!(token_arg(Some(0x8000_0000)), i32::MIN);
}

#[test]
fn test_is_assigned_result() {
    assert!(matches!(is_assigned_result(0), Ok(Bool::Yes)));
    assert!(matches!(is_assigned_result(2), Ok(Bool::No)));
    assert!(matches!(is_assigned_result(-2), Err(LibcryptErr::IOError(2))));
    assert!(matches!(is_assigned_result(5), Err(LibcryptErr::IOError(-5))));
}

#[test]
fn test_handler_name() {
    assert_eq!(handler_name("luks2-keyring\0").unwrap(), b"luks2-keyring\0");
    assert!(matches!(handler_name("luks2-keyring"), Err(LibcryptErr::NoNull("luks2-keyring"))));
    assert!(matches!(handler_name(""), Err(LibcryptErr::NoNull(""))));
}

#[test]
fn test_wipe_flags() {
    assert_eq!(wipe_flags(true), CRYPT_WIPE_NO_DIRECT_IO);
    assert_eq!(wipe_flags(true), 1);
    assert_eq!(wipe_flags(false), 0);
}

#[test]
fn test_data_offset() {
    assert_eq!(data_offset_sectors(0), 0);
    assert_eq!(data_offset_sectors(4), 32);
    assert_eq!(checked_data_offset_sectors(u64::MAX / 8), Some(u64::MAX - 7));
    assert_eq!(checked_data_offset_sectors(u64::MAX / 8 + 1), None);
}

#[test]
fn test_volume_key_argument() {
    let key = [1u8, 2, 3];
    let (ptr, len) = VolumeKey::Key(&key).as_native();
    assert_eq!(ptr, Some(&key[..]));
    assert_eq!(len, 3);
    let (ptr, len) = VolumeKey::Length(64).as_native();
    assert_eq!(ptr, None);
    assert_eq!(len, 64);
}

#[test]
fn test_names() {
    assert_eq!(EncryptionFormat::Luks2.as_str(), "LUKS2");
    assert_eq!(EncryptionFormat::Integrity.as_ptr().as_bytes_with_nul(), b"INTEGRITY\0");
    assert_eq!(LuksType::Luks1.as_ptr().as_bytes(), b"LUKS1");
    assert_eq!(LuksType::Luks2.as_ptr().as_bytes_with_nul(), b"LUKS2\0");
    for kdf in &[CryptKdf::Pbkdf2, CryptKdf::Argon2I, CryptKdf::Argon2Id] {
        assert_eq!(CryptKdf::from_ptr(&kdf.as_ptr()).unwrap(), *kdf);
    }
    assert_eq!(CryptKdf::Argon2Id.as_str(), "argon2id");
    assert_eq!(CryptKdf::Argon2I.as_ptr().as_bytes_with_nul(), b"argon2i\0");
}

#[test]
fn test_active_device() {
    let native = NativeActiveDevice { offset: 4096, iv_offset: 1, size: 1 << 20, flags: 0b1001 };
    let device = ActiveDevice::try_from(&native).unwrap();
    assert_eq!(device.offset, 4096);
    assert_eq!(device.iv_offset, 1);
    assert_eq!(device.size, 1 << 20);
    assert_eq!(
        device.flags.0,
        vec![CryptActivateFlag::Readonly, CryptActivateFlag::AllowDiscards]
    );
    let bad = NativeActiveDevice { offset: 0, iv_offset: 0, size: 0, flags: 1 << 30 };
    assert!(matches!(ActiveDevice::try_from(&bad), Err(LibcryptErr::InvalidConversion)));
}
