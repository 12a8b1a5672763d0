use libcryptsetup_rs::err::LibcryptErr;
use libcryptsetup_rs::format::{
    CryptParamsIntegrity, CryptParamsLoopaes, CryptParamsLuks1, CryptParamsLuks2,
    CryptParamsPlain, CryptParamsTcrypt, CryptParamsVerity, CryptTcryptFlag, CryptTcryptFlags,
    CryptVerityFlag, CryptVerityFlags, NativeParamsTcrypt,
};
use libcryptsetup_rs::luks2_reencrypt::{
    CryptParamsReencrypt, CryptReencryptDirectionInfo, CryptReencryptFlag, CryptReencryptFlags,
    CryptReencryptModeInfo,
};
use libcryptsetup_rs::marshal::{to_cstring, NativeText};
use libcryptsetup_rs::settings::{
    CryptKdf, CryptPbkdfFlag, CryptPbkdfFlags, CryptPbkdfType, NativePbkdfType,
};

fn pbkdf() -> CryptPbkdfType {
    CryptPbkdfType {
        type_: CryptKdf::Argon2Id,
        hash: "sha256".to_string(),
        time_ms: 2000,
        iterations: 4,
        max_memory_kb: 1 << 20,
        parallel_threads: 2,
        flags: CryptPbkdfFlags::new(vec![CryptPbkdfFlag::NoBenchmark]),
    }
}

fn integrity() -> CryptParamsIntegrity {
    CryptParamsIntegrity {
        journal_size: 1 << 16,
        journal_watermark: 50,
        journal_commit_time: 10,
        interleave_sectors: 32768,
        tag_size: 32,
        sector_size: 4096,
        buffer_sectors: 128,
        integrity: "hmac(sha256)".to_string(),
        integrity_key_size: 32,
        journal_integrity: "crc32".to_string(),
        journal_integrity_key: vec![7; 4],
        journal_crypt: "aes".to_string(),
        journal_crypt_key: vec![],
    }
}

fn luks2_empty() -> CryptParamsLuks2 {
    CryptParamsLuks2 {
        pbkdf: None,
        integrity: None,
        integrity_params: None,
        data_alignment: 0,
        data_device: None,
        sector_size: 512,
        label: None,
        subsystem: None,
    }
}

#[test]
fn test_pbkdf_materialize_and_read_back() {
    let owned = pbkdf();
    let m = (&owned).try_into().unwrap();
    assert_eq!(m.inner.type_.as_ref().unwrap().as_bytes_with_nul(), b"argon2id\0");
    assert_eq!(m.inner.hash.as_ref().unwrap().as_bytes_with_nul(), b"sha256\0");
    assert_eq!(m.inner.time_ms, 2000);
    assert_eq!(m.inner.iterations, 4);
    assert_eq!(m.inner.max_memory_kb, 1 << 20);
    assert_eq!(m.inner.parallel_threads, 2);
    assert_eq!(m.inner.flags, 2);
    assert!(std::ptr::eq(m.reference, &owned));
    let back = CryptPbkdfType::try_from(&m.inner).unwrap();
    assert_eq!(back.type_, CryptKdf::Argon2Id);
    assert_eq!(back.hash, "sha256");
    assert_eq!(back.flags.0, vec![CryptPbkdfFlag::NoBenchmark]);
    assert_eq!(back.max_memory_kb, 1 << 20);
}

#[test]
fn test_pbkdf_errors() {
    let mut owned = pbkdf();
    owned.hash = "sha\0256".to_string();
    assert!(matches!((&owned).try_into(), Err(LibcryptErr::NullError(3))));
    let native = |type_: Option<NativeText>, hash: Option<NativeText>, flags: u32| NativePbkdfType {
        type_,
        hash,
        time_ms: 0,
        iterations: 0,
        max_memory_kb: 0,
        parallel_threads: 0,
        flags,
    };
    let name = |s: &str| Some(to_cstring(s).unwrap());
    assert!(matches!(
        CryptPbkdfType::try_from(&native(None, name("sha1"), 0)),
        Err(LibcryptErr::NullPtr)
    ));
    assert!(matches!(
        CryptPbkdfType::try_from(&native(name("scrypt"), name("sha1"), 0)),
        Err(LibcryptErr::InvalidConversion)
    ));
    assert!(matches!(
        CryptPbkdfType::try_from(&native(name("pbkdf2"), None, 0)),
        Err(LibcryptErr::NullPtr)
    ));
    assert!(matches!(
        CryptPbkdfType::try_from(&native(name("pbkdf2"), Some(NativeText::from_ptr(&[0xff])), 0)),
        Err(LibcryptErr::Utf8Error(_))
    ));
    assert!(matches!(
        CryptPbkdfType::try_from(&native(name("pbkdf2"), name("sha1"), 4)),
        Err(LibcryptErr::InvalidConversion)
    ));
    let ok = CryptPbkdfType::try_from(&native(name("pbkdf2"), name("sha1"), 3)).unwrap();
    assert_eq!(ok.type_, CryptKdf::Pbkdf2);
    assert_eq!(ok.flags.0, vec![CryptPbkdfFlag::IterTimeSet, CryptPbkdfFlag::NoBenchmark]);
}

#[test]
fn test_luks2_absent_fields_are_null() {
    let owned = luks2_empty();
    let m = CryptParamsLuks2::try_into(&owned).unwrap();
    assert!(m.inner.pbkdf.is_none());
    assert!(m.inner.integrity.is_none());
    assert!(m.inner.integrity_params.is_none());
    assert!(m.inner.data_device.is_none());
    assert!(m.inner.label.is_none());
    assert!(m.inner.subsystem.is_none());
    assert_eq!(m.inner.sector_size, 512);
    assert_eq!(m.inner.data_alignment, 0);
    let back = CryptParamsLuks2::try_from(&m.inner).unwrap();
    assert!(back.pbkdf.is_none() && back.integrity.is_none() && back.integrity_params.is_none());
    assert!(back.data_device.is_none() && back.label.is_none() && back.subsystem.is_none());
}

#[test]
fn test_luks2_present_fields_match() {
    let owned = CryptParamsLuks2 {
        pbkdf: Some(pbkdf()),
        integrity: Some("hmac(sha256)".to_string()),
        integrity_params: Some(integrity()),
        data_alignment: 8,
        data_device: Some(b"/dev/sdb".to_vec()),
        sector_size: 4096,
        label: Some("root".to_string()),
        subsystem: Some(String::new()),
    };
    let m = CryptParamsLuks2::try_into(&owned).unwrap();
    assert_eq!(m.inner.integrity.as_ref().unwrap().as_bytes_with_nul(), b"hmac(sha256)\0");
    assert_eq!(m.inner.data_device.as_ref().unwrap().as_bytes_with_nul(), b"/dev/sdb\0");
    assert_eq!(m.inner.label.as_ref().unwrap().as_bytes_with_nul(), b"root\0");
    assert_eq!(m.inner.subsystem.as_ref().unwrap().as_bytes_with_nul(), b"\0");
    assert_eq!(m.inner.data_alignment, 8);
    let p = m.inner.pbkdf.as_ref().unwrap();
    assert_eq!(p.hash.as_ref().unwrap().as_bytes(), b"sha256");
    let i = m.inner.integrity_params.as_ref().unwrap();
    assert_eq!(i.journal_integrity.as_ref().unwrap().as_bytes(), b"crc32");
    assert_eq!(i.journal_integrity_key, Some(vec![7; 4]));
    assert_eq!(i.journal_integrity_key_size, 4);
    assert_eq!(i.journal_crypt_key, Some(vec![]));
    assert_eq!(i.journal_crypt_key_size, 0);
    let back = CryptParamsLuks2::try_from(&m.inner).unwrap();
    assert_eq!(back.label, Some("root".to_string()));
    assert_eq!(back.subsystem, Some(String::new()));
    assert_eq!(back.data_device, Some(b"/dev/sdb".to_vec()));
    assert_eq!(back.integrity_params.unwrap().journal_integrity_key, vec![7; 4]);
    assert_eq!(back.pbkdf.unwrap().iterations, 4);
}

#[test]
fn test_luks2_first_failure_decides() {
    let mut owned = luks2_empty();
    owned.label = Some("a\0".to_string());
    owned.subsystem = Some("\0".to_string());
    assert!(matches!(CryptParamsLuks2::try_into(&owned), Err(LibcryptErr::NullError(1))));
    owned.data_device = Some(vec![0xff]);
    assert!(matches!(CryptParamsLuks2::try_into(&owned), Err(LibcryptErr::InvalidConversion)));
    let mut bad_pbkdf = pbkdf();
    bad_pbkdf.hash = "abcd\0".to_string();
    owned.pbkdf = Some(bad_pbkdf);
    assert!(matches!(CryptParamsLuks2::try_into(&owned), Err(LibcryptErr::NullError(4))));
}

#[test]
fn test_luks1() {
    let owned = CryptParamsLuks1 {
        hash: "sha1".to_string(),
        data_alignment: 2048,
        data_device: None,
    };
    let m = (&owned).try_into().unwrap();
    assert_eq!(m.inner.hash.as_ref().unwrap().as_bytes_with_nul(), b"sha1\0");
    assert!(m.inner.data_device.is_none());
    assert_eq!(m.inner.data_alignment, 2048);
    let back = CryptParamsLuks1::try_from(&m.inner).unwrap();
    assert_eq!(back.hash, "sha1");
    assert_eq!(back.data_device, None);
    let with_device = CryptParamsLuks1 {
        hash: "sha1".to_string(),
        data_alignment: 0,
        data_device: Some(b"/dev/x".to_vec()),
    };
    let m = (&with_device).try_into().unwrap();
    assert_eq!(m.inner.data_device.as_ref().unwrap().as_bytes_with_nul(), b"/dev/x\0");
    assert_eq!(
        CryptParamsLuks1::try_from(&m.inner).unwrap().data_device,
        Some(b"/dev/x".to_vec())
    );
}

#[test]
fn test_integrity_errors() {
    let mut owned = integrity();
    owned.journal_crypt = "\0".to_string();
    owned.journal_integrity = "ab\0".to_string();
    assert!(matches!((&owned).try_into(), Err(LibcryptErr::NullError(2))));
    let good = integrity();
    let m = (&good).try_into().unwrap();
    let mut native = m.inner;
    native.journal_integrity_key_size = 5;
    assert!(matches!(
        CryptParamsIntegrity::try_from(&native),
        Err(LibcryptErr::InvalidConversion)
    ));
    native.journal_integrity_key_size = 2;
    assert_eq!(
        CryptParamsIntegrity::try_from(&native).unwrap().journal_integrity_key,
        vec![7, 7]
    );
    native.journal_crypt_key = None;
    assert!(matches!(CryptParamsIntegrity::try_from(&native), Err(LibcryptErr::NullPtr)));
}

#[test]
fn test_verity() {
    let owned = CryptParamsVerity {
        hash_name: "sha256".to_string(),
        data_device: b"/dev/data".to_vec(),
        hash_device: b"/dev/hash".to_vec(),
        fec_device: b"/dev/fec".to_vec(),
        salt: vec![0xaa; 32],
        hash_type: 1,
        data_block_size: 4096,
        hash_block_size: 4096,
        data_size: 1000,
        hash_area_offset: 8,
        fec_area_offset: 16,
        fec_roots: 2,
        flags: CryptVerityFlags::new(vec![CryptVerityFlag::CreateHash, CryptVerityFlag::NoHeader]),
    };
    let m = (&owned).try_into().unwrap();
    assert_eq!(m.inner.salt, Some(vec![0xaa; 32]));
    assert_eq!(m.inner.salt_size, 32);
    assert_eq!(m.inner.flags, 5);
    assert_eq!(m.inner.hash_device.as_ref().unwrap().as_bytes_with_nul(), b"/dev/hash\0");
    let back = CryptParamsVerity::try_from(&m.inner).unwrap();
    assert_eq!(back.salt, vec![0xaa; 32]);
    assert_eq!(back.fec_device, b"/dev/fec".to_vec());
    assert_eq!(back.flags.0, vec![CryptVerityFlag::NoHeader, CryptVerityFlag::CreateHash]);
    assert_eq!(back.data_size, 1000);
    let mut native = m.inner;
    native.flags = 8;
    assert!(matches!(CryptParamsVerity::try_from(&native), Err(LibcryptErr::InvalidConversion)));
}

#[test]
fn test_loopaes_and_plain() {
    let loopaes = CryptParamsLoopaes { hash: "sha512".to_string(), offset: 3, skip: 9 };
    let m = (&loopaes).try_into().unwrap();
    assert_eq!(m.inner.hash.as_ref().unwrap().as_bytes_with_nul(), b"sha512\0");
    assert_eq!((m.inner.offset, m.inner.skip), (3, 9));
    let back = CryptParamsLoopaes::try_from(&m.inner).unwrap();
    assert_eq!((back.hash.as_str(), back.offset, back.skip), ("sha512", 3, 9));
    let plain = CryptParamsPlain {
        hash: "ripemd160".to_string(),
        offset: 1,
        sector_size: 512,
        size: 77,
        skip: 5,
    };
    let m = (&plain).try_into().unwrap();
    assert_eq!(m.inner.hash.as_ref().unwrap().as_bytes(), b"ripemd160");
    assert_eq!((m.inner.offset, m.inner.sector_size, m.inner.size, m.inner.skip), (1, 512, 77, 5));
    let back = CryptParamsPlain::try_from(&m.inner).unwrap();
    assert_eq!((back.offset, back.sector_size, back.size, back.skip), (1, 512, 77, 5));
    let bad = CryptParamsPlain {
        hash: "\0".to_string(),
        offset: 0,
        sector_size: 0,
        size: 0,
        skip: 0,
    };
    assert!(matches!((&bad).try_into(), Err(LibcryptErr::NullError(0))));
}

fn tcrypt() -> CryptParamsTcrypt {
    CryptParamsTcrypt {
        passphrase: Some(b"secret".to_vec()),
        keyfiles: Some(vec![b"/k1".to_vec(), b"/dir/k2".to_vec()]),
        hash_name: "sha512".to_string(),
        cipher: "aes".to_string(),
        mode: "xts-plain64".to_string(),
        key_size: 64,
        flags: CryptTcryptFlags::new(vec![CryptTcryptFlag::VeraModes]),
        veracrypt_pim: 485,
    }
}

#[test]
fn test_tcrypt_materialize() {
    let owned = tcrypt();
    let m = (&owned).try_into().unwrap();
    assert_eq!(m.inner.passphrase, Some(b"secret".to_vec()));
    assert_eq!(m.inner.passphrase_size, 6);
    assert_eq!(m.inner.keyfiles.len(), 2);
    assert_eq!(m.inner.keyfiles_count, 2);
    assert_eq!(m.inner.keyfiles[0].as_bytes_with_nul(), b"/k1\0");
    assert_eq!(m.inner.keyfiles[1].as_bytes_with_nul(), b"/dir/k2\0");
    assert_eq!(m.inner.mode.as_ref().unwrap().as_bytes_with_nul(), b"xts-plain64\0");
    assert_eq!(m.inner.flags, 16);
    assert_eq!(m.inner.key_size, 64);
    assert_eq!(m.inner.veracrypt_pim, 485);
    let back = CryptParamsTcrypt::try_from(&m.inner).unwrap();
    assert_eq!(back.passphrase, Some(b"secret".to_vec()));
    assert_eq!(back.keyfiles, Some(vec![b"/k1".to_vec(), b"/dir/k2".to_vec()]));
    assert_eq!(back.cipher, "aes");
    assert_eq!(back.flags.0, vec![CryptTcryptFlag::VeraModes]);
}

#[test]
fn test_tcrypt_absent_passphrase_and_keyfiles() {
    let mut owned = tcrypt();
    owned.passphrase = None;
    owned.keyfiles = None;
    let m = (&owned).try_into().unwrap();
    assert_eq!(m.inner.passphrase, None);
    assert_eq!(m.inner.passphrase_size, 0);
    assert!(m.inner.keyfiles.is_empty());
    assert_eq!(m.inner.keyfiles_count, 0);
    let back = CryptParamsTcrypt::try_from(&m.inner).unwrap();
    assert_eq!(back.passphrase, None);
    assert_eq!(back.keyfiles, None);
    let mut empty_list = tcrypt();
    empty_list.keyfiles = Some(vec![]);
    let m = (&empty_list).try_into().unwrap();
    assert_eq!(CryptParamsTcrypt::try_from(&m.inner).unwrap().keyfiles, None);
}

#[test]
fn test_tcrypt_errors() {
    let mut owned = tcrypt();
    owned.keyfiles = Some(vec![b"/ok".to_vec(), vec![0xfe]]);
    owned.hash_name = "\0".to_string();
    assert!(matches!((&owned).try_into(), Err(LibcryptErr::InvalidConversion)));
    let good = tcrypt();
    let m = (&good).try_into().unwrap();
    let NativeParamsTcrypt { mut keyfiles_count, .. } = m.inner;
    keyfiles_count += 1;
    let mut native = (&tcrypt()).try_into().unwrap().inner;
    native.keyfiles_count = keyfiles_count;
    assert!(matches!(CryptParamsTcrypt::try_from(&native), Err(LibcryptErr::InvalidConversion)));
    native.keyfiles_count = 1;
    native.passphrase_size = 3;
    let back = CryptParamsTcrypt::try_from(&native).unwrap();
    assert_eq!(back.keyfiles, Some(vec![b"/k1".to_vec()]));
    assert_eq!(back.passphrase, Some(b"sec".to_vec()));
    native.passphrase_size = 7;
    assert!(matches!(CryptParamsTcrypt::try_from(&native), Err(LibcryptErr::InvalidConversion)));
}

#[test]
fn test_reencrypt() {
    let mut luks2 = luks2_empty();
    luks2.label = Some("new".to_string());
    let owned = CryptParamsReencrypt {
        mode: CryptReencryptModeInfo::Encrypt,
        direction: CryptReencryptDirectionInfo::Backward,
        resilience: "checksum".to_string(),
        hash: "sha256".to_string(),
        data_shift: 16,
        max_hotzone_size: 32,
        device_size: 64,
        luks2,
        flags: CryptReencryptFlags::new(vec![
            CryptReencryptFlag::Recovery,
            CryptReencryptFlag::InitializeOnly,
        ]),
    };
    let m = (&owned).try_into().unwrap();
    assert_eq!(m.inner.mode, 1);
    assert_eq!(m.inner.direction, 1);
    assert_eq!(m.inner.resilience.as_ref().unwrap().as_bytes_with_nul(), b"checksum\0");
    assert_eq!(m.inner.hash.as_ref().unwrap().as_bytes_with_nul(), b"sha256\0");
    assert_eq!((m.inner.data_shift, m.inner.max_hotzone_size, m.inner.device_size), (16, 32, 64));
    assert_eq!(m.inner.flags, 9);
    let nested = m.inner.luks2.as_ref().unwrap();
    assert_eq!(nested.label.as_ref().unwrap().as_bytes_with_nul(), b"new\0");
    assert!(nested.subsystem.is_none());
}

#[test]
fn test_reencrypt_errors() {
    let mut luks2 = luks2_empty();
    luks2.subsystem = Some("ab\0".to_string());
    let owned = CryptParamsReencrypt {
        mode: CryptReencryptModeInfo::Reencrypt,
        direction: CryptReencryptDirectionInfo::Forward,
        resilience: "\0".to_string(),
        hash: "sha256".to_string(),
        data_shift: 0,
        max_hotzone_size: 0,
        device_size: 0,
        luks2,
        flags: CryptReencryptFlags::empty(),
    };
    assert!(matches!((&owned).try_into(), Err(LibcryptErr::NullError(2))));
}
