//! Device formats and their parameter groups.

use vstd::prelude::*;
use vstd::slice::*;
use vstd::std_specs::convert::{FromSpecImpl, TryFromSpecImpl};
use vstd::string::*;
use vstd::utf8::*;

use crate::consts::{
    CRYPT_TCRYPT_BACKUP_HEADER, CRYPT_TCRYPT_HIDDEN_HEADER, CRYPT_TCRYPT_LEGACY_MODES,
    CRYPT_TCRYPT_SYSTEM_HEADER, CRYPT_TCRYPT_VERA_MODES, CRYPT_VERITY_CHECK_HASH,
    CRYPT_VERITY_CREATE_HASH, CRYPT_VERITY_NO_HEADER,
};
use crate::err::LibcryptErr;
use crate::flags::{
    decode_spec, lemma_variant_of, native_of, union_of, variant_of, FlagSet, NativeFlag,
};
use crate::marshal::{
    buffers_view, bytes_eq, lemma_ascii_name, lemma_marshal_paths_len, lemma_path_round_trip,
    lemma_text_pointer_round_trip, marshal_opt_path_spec, marshal_opt_spec, marshal_path_spec,
    marshal_paths_spec, marshal_spec, name_to_cstring, natives_view, opt_bytes, opt_native,
    opt_path_to_cstring, opt_text, opt_text_bytes, opt_to_cstring, path_to_cstring,
    paths_to_cstrings, read_bytes, read_bytes_spec, read_opt_path, read_opt_path_spec,
    read_opt_text, read_opt_text_spec, read_path, read_path_spec, read_paths, read_paths_spec,
    read_text, read_text_spec, reported_length, to_cstring, NativeText,
};
use crate::settings::{CryptPbkdfType, CryptPbkdfTypeView, NativePbkdfType, NativePbkdfTypeView};

verus! {

/// One of the flags of the verity format.
#[derive(Debug, PartialEq, Eq, Structural, Clone, Copy)]
pub enum CryptVerityFlag {
    /// The hash device holds no superblock.
    NoHeader,
    /// Verify the data against the hash area on activation.
    CheckHash,
    /// Create the hash area when formatting.
    CreateHash,
}

impl NativeFlag for CryptVerityFlag {
    open spec fn position(self) -> u32 {
        match self {
            CryptVerityFlag::NoHeader => 0,
            CryptVerityFlag::CheckHash => 1,
            CryptVerityFlag::CreateHash => 2,
        }
    }

    fn to_native(self) -> (r: u32) {
        match self {
            CryptVerityFlag::NoHeader => CRYPT_VERITY_NO_HEADER,
            CryptVerityFlag::CheckHash => CRYPT_VERITY_CHECK_HASH,
            CryptVerityFlag::CreateHash => CRYPT_VERITY_CREATE_HASH,
        }
    }

    fn from_native(v: u32) -> (r: Result<Self, LibcryptErr>) {
        if v == CRYPT_VERITY_NO_HEADER {
            Ok(CryptVerityFlag::NoHeader)
        } else if v == CRYPT_VERITY_CHECK_HASH {
            Ok(CryptVerityFlag::CheckHash)
        } else if v == CRYPT_VERITY_CREATE_HASH {
            Ok(CryptVerityFlag::CreateHash)
        } else {
            Err(LibcryptErr::InvalidConversion)
        }
    }

    proof fn lemma_position_in_word(self) {
    }

    proof fn lemma_position_injective(self, other: Self) {
    }
}

impl From<CryptVerityFlag> for u32 {
    fn from(v: CryptVerityFlag) -> (r: u32) {
        v.to_native()
    }
}

impl FromSpecImpl<CryptVerityFlag> for u32 {
    open spec fn obeys_from_spec() -> bool {
        true
    }

    open spec fn from_spec(v: CryptVerityFlag) -> u32 {
        native_of(v)
    }
}

impl TryFrom<u32> for CryptVerityFlag {
    type Error = LibcryptErr;

    fn try_from(v: u32) -> (r: Result<Self, LibcryptErr>) {
        let r = Self::from_native(v);
        proof {
            if let Ok(f) = r {
                lemma_variant_of(f);
            }
        }
        r
    }
}

impl TryFromSpecImpl<u32> for CryptVerityFlag {
    open spec fn obeys_try_from_spec() -> bool {
        true
    }

    open spec fn try_from_spec(v: u32) -> Result<Self, LibcryptErr> {
        variant_of::<Self>(v)
    }
}

/// A set of verity format flags.
pub type CryptVerityFlags = FlagSet<CryptVerityFlag>;

/// One of the flags of the tcrypt format.
#[derive(Debug, PartialEq, Eq, Structural, Clone, Copy)]
pub enum CryptTcryptFlag {
    /// Try the legacy cipher modes too.
    LegacyModes,
    /// Use the header of the hidden volume.
    HiddenHeader,
    /// Use the backup header.
    BackupHeader,
    /// The device holds a system encryption header.
    SystemHeader,
    /// Try the VeraCrypt modes too.
    VeraModes,
}

impl NativeFlag for CryptTcryptFlag {
    open spec fn position(self) -> u32 {
        match self {
            CryptTcryptFlag::LegacyModes => 0,
            CryptTcryptFlag::HiddenHeader => 1,
            CryptTcryptFlag::BackupHeader => 2,
            CryptTcryptFlag::SystemHeader => 3,
            CryptTcryptFlag::VeraModes => 4,
        }
    }

    fn to_native(self) -> (r: u32) {
        match self {
            CryptTcryptFlag::LegacyModes => CRYPT_TCRYPT_LEGACY_MODES,
            CryptTcryptFlag::HiddenHeader => CRYPT_TCRYPT_HIDDEN_HEADER,
            CryptTcryptFlag::BackupHeader => CRYPT_TCRYPT_BACKUP_HEADER,
            CryptTcryptFlag::SystemHeader => CRYPT_TCRYPT_SYSTEM_HEADER,
            CryptTcryptFlag::VeraModes => CRYPT_TCRYPT_VERA_MODES,
        }
    }

    fn from_native(v: u32) -> (r: Result<Self, LibcryptErr>) {
        if v == CRYPT_TCRYPT_LEGACY_MODES {
            Ok(CryptTcryptFlag::LegacyModes)
        } else if v == CRYPT_TCRYPT_HIDDEN_HEADER {
            Ok(CryptTcryptFlag::HiddenHeader)
        } else if v == CRYPT_TCRYPT_BACKUP_HEADER {
            Ok(CryptTcryptFlag::BackupHeader)
        } else if v == CRYPT_TCRYPT_SYSTEM_HEADER {
            Ok(CryptTcryptFlag::SystemHeader)
        } else if v == CRYPT_TCRYPT_VERA_MODES {
            Ok(CryptTcryptFlag::VeraModes)
        } else {
            Err(LibcryptErr::InvalidConversion)
        }
    }

    proof fn lemma_position_in_word(self) {
    }

    proof fn lemma_position_injective(self, other: Self) {
    }
}

impl From<CryptTcryptFlag> for u32 {
    fn from(v: CryptTcryptFlag) -> (r: u32) {
        v.to_native()
    }
}

impl FromSpecImpl<CryptTcryptFlag> for u32 {
    open spec fn obeys_from_spec() -> bool {
        true
    }

    open spec fn from_spec(v: CryptTcryptFlag) -> u32 {
        native_of(v)
    }
}

impl TryFrom<u32> for CryptTcryptFlag {
    type Error = LibcryptErr;

    fn try_from(v: u32) -> (r: Result<Self, LibcryptErr>) {
        let r = Self::from_native(v);
        proof {
            if let Ok(f) = r {
                lemma_variant_of(f);
            }
        }
        r
    }
}

impl TryFromSpecImpl<u32> for CryptTcryptFlag {
    open spec fn obeys_try_from_spec() -> bool {
        true
    }

    open spec fn try_from_spec(v: u32) -> Result<Self, LibcryptErr> {
        variant_of::<Self>(v)
    }
}

/// A set of tcrypt format flags.
pub type CryptTcryptFlags = FlagSet<CryptTcryptFlag>;

/// The format of a device.
#[derive(Debug, PartialEq, Eq, Structural, Clone, Copy)]
pub enum EncryptionFormat {
    /// Plain encryption without a header.
    Plain,
    /// LUKS, version 1.
    Luks1,
    /// LUKS, version 2.
    Luks2,
    /// The loop-AES format.
    Loopaes,
    /// The verity format.
    Verity,
    /// The TrueCrypt and VeraCrypt formats.
    Tcrypt,
    /// The integrity format.
    Integrity,
}

impl EncryptionFormat {
    /// The name by which the native library knows the format.
    pub open spec fn name(self) -> Seq<char> {
        match self {
            EncryptionFormat::Plain => "PLAIN"@,
            EncryptionFormat::Luks1 => "LUKS1"@,
            EncryptionFormat::Luks2 => "LUKS2"@,
            EncryptionFormat::Loopaes => "LOOPAES"@,
            EncryptionFormat::Verity => "VERITY"@,
            EncryptionFormat::Tcrypt => "TCRYPT"@,
            EncryptionFormat::Integrity => "INTEGRITY"@,
        }
    }

    /// The format that a native name stands for, or a conversion error where the name
    /// stands for none.
    pub open spec fn of_name(name: Seq<u8>) -> Result<Self, LibcryptErr> {
        if name == encode_utf8("PLAIN"@) {
            Ok(EncryptionFormat::Plain)
        } else if name == encode_utf8("LUKS1"@) {
            Ok(EncryptionFormat::Luks1)
        } else if name == encode_utf8("LUKS2"@) {
            Ok(EncryptionFormat::Luks2)
        } else if name == encode_utf8("LOOPAES"@) {
            Ok(EncryptionFormat::Loopaes)
        } else if name == encode_utf8("VERITY"@) {
            Ok(EncryptionFormat::Verity)
        } else if name == encode_utf8("TCRYPT"@) {
            Ok(EncryptionFormat::Tcrypt)
        } else if name == encode_utf8("INTEGRITY"@) {
            Ok(EncryptionFormat::Integrity)
        } else {
            Err(LibcryptErr::InvalidConversion)
        }
    }

    /// The names hold no terminator byte, and each name stands for the format it belongs
    /// to and for no other.
    pub proof fn lemma_names()
        ensures
            forall|f: Self| !(#[trigger] encode_utf8(f.name())).contains(0u8),
            forall|f: Self| Self::of_name(#[trigger] encode_utf8(f.name())) == Ok::<
                Self,
                LibcryptErr,
            >(f),
    {
        reveal_strlit("PLAIN");
        reveal_strlit("LUKS1");
        reveal_strlit("LUKS2");
        reveal_strlit("LOOPAES");
        reveal_strlit("VERITY");
        reveal_strlit("TCRYPT");
        reveal_strlit("INTEGRITY");
        lemma_ascii_name("PLAIN");
        lemma_ascii_name("LUKS1");
        lemma_ascii_name("LUKS2");
        lemma_ascii_name("LOOPAES");
        lemma_ascii_name("VERITY");
        lemma_ascii_name("TCRYPT");
        lemma_ascii_name("INTEGRITY");
        assert("PLAIN"@.len() == 5 && "PLAIN"@[0] == 'P');
        assert("LUKS1"@.len() == 5 && "LUKS1"@[0] == 'L' && "LUKS1"@[4] == '1');
        assert("LUKS2"@.len() == 5 && "LUKS2"@[0] == 'L' && "LUKS2"@[4] == '2');
        assert("LOOPAES"@.len() == 7);
        assert("VERITY"@.len() == 6 && "VERITY"@[0] == 'V');
        assert("TCRYPT"@.len() == 6 && "TCRYPT"@[0] == 'T');
        assert("INTEGRITY"@.len() == 9);
        encode_utf8_decode_utf8("PLAIN"@);
        encode_utf8_decode_utf8("LUKS1"@);
        encode_utf8_decode_utf8("LUKS2"@);
        encode_utf8_decode_utf8("LOOPAES"@);
        encode_utf8_decode_utf8("VERITY"@);
        encode_utf8_decode_utf8("TCRYPT"@);
        encode_utf8_decode_utf8("INTEGRITY"@);
    }

    /// Gives the name by which the native library knows the format.
    pub fn as_str(&self) -> (r: &'static str)
        ensures
            r@ == self.name(),
    {
        match self {
            EncryptionFormat::Plain => "PLAIN",
            EncryptionFormat::Luks1 => "LUKS1",
            EncryptionFormat::Luks2 => "LUKS2",
            EncryptionFormat::Loopaes => "LOOPAES",
            EncryptionFormat::Verity => "VERITY",
            EncryptionFormat::Tcrypt => "TCRYPT",
            EncryptionFormat::Integrity => "INTEGRITY",
        }
    }

    /// Gives the native name of the format in its null-terminated form.
    pub fn as_ptr(&self) -> (r: NativeText)
        ensures
            r@ == encode_utf8(self.name()),
            Self::of_name(r@) == Ok::<Self, LibcryptErr>(*self),
    {
        proof {
            Self::lemma_names();
        }
        name_to_cstring(self.as_str())
    }

    /// Finds the format that a native name stands for. Fails with a conversion error where
    /// the name is none of the known names.
    pub fn from_ptr(ptr: &NativeText) -> (r: Result<Self, LibcryptErr>)
        ensures
            r == Self::of_name(ptr@),
    {
        let name = ptr.as_bytes();
        if bytes_eq(name, "PLAIN".as_bytes()) {
            Ok(EncryptionFormat::Plain)
        } else if bytes_eq(name, "LUKS1".as_bytes()) {
            Ok(EncryptionFormat::Luks1)
        } else if bytes_eq(name, "LUKS2".as_bytes()) {
            Ok(EncryptionFormat::Luks2)
        } else if bytes_eq(name, "LOOPAES".as_bytes()) {
            Ok(EncryptionFormat::Loopaes)
        } else if bytes_eq(name, "VERITY".as_bytes()) {
            Ok(EncryptionFormat::Verity)
        } else if bytes_eq(name, "TCRYPT".as_bytes()) {
            Ok(EncryptionFormat::Tcrypt)
        } else if bytes_eq(name, "INTEGRITY".as_bytes()) {
            Ok(EncryptionFormat::Integrity)
        } else {
            Err(LibcryptErr::InvalidConversion)
        }
    }
}

/// Parameters of the integrity layer.
#[derive(Debug)]
pub struct CryptParamsIntegrity {
    /// The size of the journal, in bytes.
    pub journal_size: u64,
    /// The journal watermark, in percent.
    pub journal_watermark: u32,
    /// The journal commit time, in milliseconds.
    pub journal_commit_time: u32,
    /// The number of interleave sectors.
    pub interleave_sectors: u32,
    /// The size of a tag for one sector, in bytes.
    pub tag_size: u32,
    /// The sector size, in bytes.
    pub sector_size: u32,
    /// The number of sectors in one buffer.
    pub buffer_sectors: u32,
    /// The integrity algorithm.
    pub integrity: String,
    /// The size of the integrity key, in bytes.
    pub integrity_key_size: u32,
    /// The integrity algorithm of the journal.
    pub journal_integrity: String,
    /// The integrity key of the journal.
    pub journal_integrity_key: Vec<u8>,
    /// The encryption algorithm of the journal.
    pub journal_crypt: String,
    /// The encryption key of the journal.
    pub journal_crypt_key: Vec<u8>,
}

/// The integrity parameters as a mathematical value.
pub ghost struct CryptParamsIntegrityView {
    pub journal_size: u64,
    pub journal_watermark: u32,
    pub journal_commit_time: u32,
    pub interleave_sectors: u32,
    pub tag_size: u32,
    pub sector_size: u32,
    pub buffer_sectors: u32,
    pub integrity: Seq<char>,
    pub integrity_key_size: u32,
    pub journal_integrity: Seq<char>,
    pub journal_integrity_key: Seq<u8>,
    pub journal_crypt: Seq<char>,
    pub journal_crypt_key: Seq<u8>,
}

impl View for CryptParamsIntegrity {
    type V = CryptParamsIntegrityView;

    open spec fn view(&self) -> CryptParamsIntegrityView {
        CryptParamsIntegrityView {
            journal_size: self.journal_size,
            journal_watermark: self.journal_watermark,
            journal_commit_time: self.journal_commit_time,
            interleave_sectors: self.interleave_sectors,
            tag_size: self.tag_size,
            sector_size: self.sector_size,
            buffer_sectors: self.buffer_sectors,
            integrity: self.integrity@,
            integrity_key_size: self.integrity_key_size,
            journal_integrity: self.journal_integrity@,
            journal_integrity_key: self.journal_integrity_key@,
            journal_crypt: self.journal_crypt@,
            journal_crypt_key: self.journal_crypt_key@,
        }
    }
}

/// The integrity parameters in the layout of the native library. A pointer of the native
/// structure is held as the buffer it points to, a null pointer as an absent buffer.
#[derive(Debug)]
pub struct NativeParamsIntegrity {
    /// The size of the journal, in bytes.
    pub journal_size: u64,
    /// The journal watermark, in percent.
    pub journal_watermark: u32,
    /// The journal commit time, in milliseconds.
    pub journal_commit_time: u32,
    /// The number of interleave sectors.
    pub interleave_sectors: u32,
    /// The size of a tag for one sector, in bytes.
    pub tag_size: u32,
    /// The sector size, in bytes.
    pub sector_size: u32,
    /// The number of sectors in one buffer.
    pub buffer_sectors: u32,
    /// The integrity algorithm.
    pub integrity: Option<NativeText>,
    /// The size of the integrity key, in bytes.
    pub integrity_key_size: u32,
    /// The integrity algorithm of the journal.
    pub journal_integrity: Option<NativeText>,
    /// The integrity key of the journal.
    pub journal_integrity_key: Option<Vec<u8>>,
    /// The length reported for the integrity key of the journal.
    pub journal_integrity_key_size: u32,
    /// The encryption algorithm of the journal.
    pub journal_crypt: Option<NativeText>,
    /// The encryption key of the journal.
    pub journal_crypt_key: Option<Vec<u8>>,
    /// The length reported for the encryption key of the journal.
    pub journal_crypt_key_size: u32,
}

/// The native integrity parameters as a mathematical value.
pub ghost struct NativeParamsIntegrityView {
    pub journal_size: u64,
    pub journal_watermark: u32,
    pub journal_commit_time: u32,
    pub interleave_sectors: u32,
    pub tag_size: u32,
    pub sector_size: u32,
    pub buffer_sectors: u32,
    pub integrity: Option<Seq<u8>>,
    pub integrity_key_size: u32,
    pub journal_integrity: Option<Seq<u8>>,
    pub journal_integrity_key: Option<Seq<u8>>,
    pub journal_integrity_key_size: u32,
    pub journal_crypt: Option<Seq<u8>>,
    pub journal_crypt_key: Option<Seq<u8>>,
    pub journal_crypt_key_size: u32,
}

impl NativeParamsIntegrity {
    /// The mathematical value of an optional native structure.
    pub open spec fn opt_view(params: Option<Self>) -> Option<NativeParamsIntegrityView> {
        match params {
            None => None,
            Some(p) => Some(p@),
        }
    }
}

impl View for NativeParamsIntegrity {
    type V = NativeParamsIntegrityView;

    open spec fn view(&self) -> NativeParamsIntegrityView {
        NativeParamsIntegrityView {
            journal_size: self.journal_size,
            journal_watermark: self.journal_watermark,
            journal_commit_time: self.journal_commit_time,
            interleave_sectors: self.interleave_sectors,
            tag_size: self.tag_size,
            sector_size: self.sector_size,
            buffer_sectors: self.buffer_sectors,
            integrity: opt_native(self.integrity),
            integrity_key_size: self.integrity_key_size,
            journal_integrity: opt_native(self.journal_integrity),
            journal_integrity_key: opt_bytes(self.journal_integrity_key),
            journal_integrity_key_size: self.journal_integrity_key_size,
            journal_crypt: opt_native(self.journal_crypt),
            journal_crypt_key: opt_bytes(self.journal_crypt_key),
            journal_crypt_key_size: self.journal_crypt_key_size,
        }
    }
}

impl CryptParamsIntegrityView {
    /// The native form of the parameters. Every text is marshalled, in the order of the
    /// fields, and the first one that holds a terminator byte decides the failure. A key
    /// keeps its bytes, and its reported length is the length of the key cut to 32 bits.
    pub open spec fn to_native(self) -> Result<NativeParamsIntegrityView, LibcryptErr> {
        let integrity = marshal_spec(encode_utf8(self.integrity));
        let journal_integrity = marshal_spec(encode_utf8(self.journal_integrity));
        let journal_crypt = marshal_spec(encode_utf8(self.journal_crypt));
        if integrity is Err {
            Err(integrity->Err_0)
        } else if journal_integrity is Err {
            Err(journal_integrity->Err_0)
        } else if journal_crypt is Err {
            Err(journal_crypt->Err_0)
        } else {
            Ok(
                NativeParamsIntegrityView {
                    journal_size: self.journal_size,
                    journal_watermark: self.journal_watermark,
                    journal_commit_time: self.journal_commit_time,
                    interleave_sectors: self.interleave_sectors,
                    tag_size: self.tag_size,
                    sector_size: self.sector_size,
                    buffer_sectors: self.buffer_sectors,
                    integrity: Some(integrity->Ok_0),
                    integrity_key_size: self.integrity_key_size,
                    journal_integrity: Some(journal_integrity->Ok_0),
                    journal_integrity_key: Some(self.journal_integrity_key),
                    journal_integrity_key_size: self.journal_integrity_key.len() as u32,
                    journal_crypt: Some(journal_crypt->Ok_0),
                    journal_crypt_key: Some(self.journal_crypt_key),
                    journal_crypt_key_size: self.journal_crypt_key.len() as u32,
                },
            )
        }
    }

    /// The native form of optional parameters: absent parameters stay absent.
    pub open spec fn opt_to_native(params: Option<Self>) -> Result<
        Option<NativeParamsIntegrityView>,
        LibcryptErr,
    > {
        match params {
            None => Ok(None),
            Some(p) => match p.to_native() {
                Ok(n) => Ok(Some(n)),
                Err(e) => Err(e),
            },
        }
    }
}

impl NativeParamsIntegrityView {
    /// The parameters that a native structure holds. The fields are read in the order of
    /// the structure, and the first one that cannot be read decides the failure.
    pub open spec fn to_owned(self) -> Result<CryptParamsIntegrityView, LibcryptErr> {
        let integrity = read_text_spec(self.integrity);
        let journal_integrity = read_text_spec(self.journal_integrity);
        let journal_integrity_key = read_bytes_spec(
            self.journal_integrity_key,
            self.journal_integrity_key_size as nat,
        );
        let journal_crypt = read_text_spec(self.journal_crypt);
        let journal_crypt_key = read_bytes_spec(
            self.journal_crypt_key,
            self.journal_crypt_key_size as nat,
        );
        if integrity is Err {
            Err(integrity->Err_0)
        } else if journal_integrity is Err {
            Err(journal_integrity->Err_0)
        } else if journal_integrity_key is Err {
            Err(journal_integrity_key->Err_0)
        } else if journal_crypt is Err {
            Err(journal_crypt->Err_0)
        } else if journal_crypt_key is Err {
            Err(journal_crypt_key->Err_0)
        } else {
            Ok(
                CryptParamsIntegrityView {
                    journal_size: self.journal_size,
                    journal_watermark: self.journal_watermark,
                    journal_commit_time: self.journal_commit_time,
                    interleave_sectors: self.interleave_sectors,
                    tag_size: self.tag_size,
                    sector_size: self.sector_size,
                    buffer_sectors: self.buffer_sectors,
                    integrity: integrity->Ok_0,
                    integrity_key_size: self.integrity_key_size,
                    journal_integrity: journal_integrity->Ok_0,
                    journal_integrity_key: journal_integrity_key->Ok_0,
                    journal_crypt: journal_crypt->Ok_0,
                    journal_crypt_key: journal_crypt_key->Ok_0,
                },
            )
        }
    }

    /// The parameters behind a pointer that may be null.
    pub open spec fn opt_to_owned(params: Option<Self>) -> Result<
        Option<CryptParamsIntegrityView>,
        LibcryptErr,
    > {
        match params {
            None => Ok(None),
            Some(p) => match p.to_owned() {
                Ok(n) => Ok(Some(n)),
                Err(e) => Err(e),
            },
        }
    }
}

/// Integrity parameters materialized for one native call, together with the parameters they
/// were made from.
#[derive(Debug)]
pub struct CryptParamsIntegrityRef<'a> {
    /// The parameters in the layout of the native library.
    pub inner: NativeParamsIntegrity,
    /// The parameters that the materialized form was made from.
    pub reference: &'a CryptParamsIntegrity,
}

impl CryptParamsIntegrity {
    /// The mathematical value of optional parameters.
    pub open spec fn opt_view(params: Option<Self>) -> Option<CryptParamsIntegrityView> {
        match params {
            None => None,
            Some(p) => Some(p@),
        }
    }

    /// Materializes the parameters in the layout of the native library. The result keeps
    /// the buffers that its pointers stand for, so they live as long as the result does.
    pub fn try_into<'a>(&'a self) -> (r: Result<CryptParamsIntegrityRef<'a>, LibcryptErr>)
        ensures
            match r {
                Ok(m) => self@.to_native() == Ok::<NativeParamsIntegrityView, LibcryptErr>(
                    m.inner@,
                ) && m.reference == self,
                Err(e) => self@.to_native() == Err::<NativeParamsIntegrityView, LibcryptErr>(e),
            },
    {
        let integrity = match to_cstring(self.integrity.as_str()) {
            Ok(c) => c,
            Err(e) => {
                return Err(e);
            },
        };
        let journal_integrity = match to_cstring(self.journal_integrity.as_str()) {
            Ok(c) => c,
            Err(e) => {
                return Err(e);
            },
        };
        let journal_crypt = match to_cstring(self.journal_crypt.as_str()) {
            Ok(c) => c,
            Err(e) => {
                return Err(e);
            },
        };
        let inner = NativeParamsIntegrity {
            journal_size: self.journal_size,
            journal_watermark: self.journal_watermark,
            journal_commit_time: self.journal_commit_time,
            interleave_sectors: self.interleave_sectors,
            tag_size: self.tag_size,
            sector_size: self.sector_size,
            buffer_sectors: self.buffer_sectors,
            integrity: Some(integrity),
            integrity_key_size: self.integrity_key_size,
            journal_integrity: Some(journal_integrity),
            journal_integrity_key: Some(slice_to_vec(self.journal_integrity_key.as_slice())),
            journal_integrity_key_size: reported_length(self.journal_integrity_key.len()),
            journal_crypt: Some(journal_crypt),
            journal_crypt_key: Some(slice_to_vec(self.journal_crypt_key.as_slice())),
            journal_crypt_key_size: reported_length(self.journal_crypt_key.len()),
        };
        Ok(CryptParamsIntegrityRef { inner, reference: self })
    }

    /// Reads the parameters out of a native structure.
    pub fn try_from(v: &NativeParamsIntegrity) -> (r: Result<CryptParamsIntegrity, LibcryptErr>)
        ensures
            match r {
                Ok(p) => v@.to_owned() == Ok::<CryptParamsIntegrityView, LibcryptErr>(p@),
                Err(e) => v@.to_owned() == Err::<CryptParamsIntegrityView, LibcryptErr>(e),
            },
    {
        let integrity = match read_text(&v.integrity) {
            Ok(t) => t,
            Err(e) => {
                return Err(e);
            },
        };
        let journal_integrity = match read_text(&v.journal_integrity) {
            Ok(t) => t,
            Err(e) => {
                return Err(e);
            },
        };
        let journal_integrity_key = match read_bytes(
            &v.journal_integrity_key,
            v.journal_integrity_key_size as usize,
        ) {
            Ok(b) => b,
            Err(e) => {
                return Err(e);
            },
        };
        let journal_crypt = match read_text(&v.journal_crypt) {
            Ok(t) => t,
            Err(e) => {
                return Err(e);
            },
        };
        let journal_crypt_key = match read_bytes(
            &v.journal_crypt_key,
            v.journal_crypt_key_size as usize,
        ) {
            Ok(b) => b,
            Err(e) => {
                return Err(e);
            },
        };
        Ok(
            CryptParamsIntegrity {
                journal_size: v.journal_size,
                journal_watermark: v.journal_watermark,
                journal_commit_time: v.journal_commit_time,
                interleave_sectors: v.interleave_sectors,
                tag_size: v.tag_size,
                sector_size: v.sector_size,
                buffer_sectors: v.buffer_sectors,
                integrity,
                integrity_key_size: v.integrity_key_size,
                journal_integrity,
                journal_integrity_key,
                journal_crypt,
                journal_crypt_key,
            },
        )
    }
}

/// Parameters of the LUKS1 format.
#[derive(Debug)]
pub struct CryptParamsLuks1 {
    /// The name of the hash function.
    pub hash: String,
    /// The alignment of the data area, in sectors.
    pub data_alignment: usize,
    /// The path of the data device, as the bytes of its name, where the header is detached.
    pub data_device: Option<Vec<u8>>,
}

/// The LUKS1 parameters as a mathematical value.
pub ghost struct CryptParamsLuks1View {
    pub hash: Seq<char>,
    pub data_alignment: usize,
    pub data_device: Option<Seq<u8>>,
}

impl View for CryptParamsLuks1 {
    type V = CryptParamsLuks1View;

    open spec fn view(&self) -> CryptParamsLuks1View {
        CryptParamsLuks1View {
            hash: self.hash@,
            data_alignment: self.data_alignment,
            data_device: opt_bytes(self.data_device),
        }
    }
}

/// The LUKS1 parameters in the layout of the native library.
#[derive(Debug)]
pub struct NativeParamsLuks1 {
    /// The name of the hash function.
    pub hash: Option<NativeText>,
    /// The alignment of the data area, in sectors.
    pub data_alignment: usize,
    /// The path of the data device; null where the header is not detached.
    pub data_device: Option<NativeText>,
}

/// The native LUKS1 parameters as a mathematical value.
pub ghost struct NativeParamsLuks1View {
    pub hash: Option<Seq<u8>>,
    pub data_alignment: usize,
    pub data_device: Option<Seq<u8>>,
}

impl View for NativeParamsLuks1 {
    type V = NativeParamsLuks1View;

    open spec fn view(&self) -> NativeParamsLuks1View {
        NativeParamsLuks1View {
            hash: opt_native(self.hash),
            data_alignment: self.data_alignment,
            data_device: opt_native(self.data_device),
        }
    }
}

impl CryptParamsLuks1View {
    /// The native form of the parameters. An absent data device gives a null pointer.
    pub open spec fn to_native(self) -> Result<NativeParamsLuks1View, LibcryptErr> {
        let hash = marshal_spec(encode_utf8(self.hash));
        let data_device = marshal_opt_path_spec(self.data_device);
        if hash is Err {
            Err(hash->Err_0)
        } else if data_device is Err {
            Err(data_device->Err_0)
        } else {
            Ok(
                NativeParamsLuks1View {
                    hash: Some(hash->Ok_0),
                    data_alignment: self.data_alignment,
                    data_device: data_device->Ok_0,
                },
            )
        }
    }
}

impl NativeParamsLuks1View {
    /// The parameters that a native structure holds.
    pub open spec fn to_owned(self) -> Result<CryptParamsLuks1View, LibcryptErr> {
        let hash = read_text_spec(self.hash);
        let data_device = read_opt_path_spec(self.data_device);
        if hash is Err {
            Err(hash->Err_0)
        } else if data_device is Err {
            Err(data_device->Err_0)
        } else {
            Ok(
                CryptParamsLuks1View {
                    hash: hash->Ok_0,
                    data_alignment: self.data_alignment,
                    data_device: data_device->Ok_0,
                },
            )
        }
    }
}

/// LUKS1 parameters that are materialized and read back out of the native structure are
/// unchanged.
pub proof fn lemma_luks1_round_trip(p: CryptParamsLuks1View)
    requires
        p.to_native() is Ok,
    ensures
        p.to_native()->Ok_0.to_owned() == Ok::<CryptParamsLuks1View, LibcryptErr>(p),
{
    lemma_text_pointer_round_trip(p.hash);
    if p.data_device is Some {
        lemma_path_round_trip(p.data_device->0);
    }
}

/// LUKS1 parameters materialized for one native call, together with the parameters they
/// were made from.
#[derive(Debug)]
pub struct CryptParamsLuks1Ref<'a> {
    /// The parameters in the layout of the native library.
    pub inner: NativeParamsLuks1,
    /// The parameters that the materialized form was made from.
    pub reference: &'a CryptParamsLuks1,
}

impl CryptParamsLuks1 {
    /// Materializes the parameters in the layout of the native library.
    pub fn try_into<'a>(&'a self) -> (r: Result<CryptParamsLuks1Ref<'a>, LibcryptErr>)
        ensures
            match r {
                Ok(m) => self@.to_native() == Ok::<NativeParamsLuks1View, LibcryptErr>(m.inner@)
                    && m.reference == self,
                Err(e) => self@.to_native() == Err::<NativeParamsLuks1View, LibcryptErr>(e),
            },
    {
        let hash = match to_cstring(self.hash.as_str()) {
            Ok(c) => c,
            Err(e) => {
                return Err(e);
            },
        };
        let data_device = match opt_path_to_cstring(&self.data_device) {
            Ok(c) => c,
            Err(e) => {
                return Err(e);
            },
        };
        let inner = NativeParamsLuks1 {
            hash: Some(hash),
            data_alignment: self.data_alignment,
            data_device,
        };
        Ok(CryptParamsLuks1Ref { inner, reference: self })
    }

    /// Reads the parameters out of a native structure.
    pub fn try_from(v: &NativeParamsLuks1) -> (r: Result<CryptParamsLuks1, LibcryptErr>)
        ensures
            match r {
                Ok(p) => v@.to_owned() == Ok::<CryptParamsLuks1View, LibcryptErr>(p@),
                Err(e) => v@.to_owned() == Err::<CryptParamsLuks1View, LibcryptErr>(e),
            },
    {
        let hash = match read_text(&v.hash) {
            Ok(t) => t,
            Err(e) => {
                return Err(e);
            },
        };
        let data_device = match read_opt_path(&v.data_device) {
            Ok(p) => p,
            Err(e) => {
                return Err(e);
            },
        };
        Ok(CryptParamsLuks1 { hash, data_alignment: v.data_alignment, data_device })
    }
}

/// Parameters of the LUKS2 format.
#[derive(Debug)]
pub struct CryptParamsLuks2 {
    /// The key derivation settings of the first key slot.
    pub pbkdf: Option<CryptPbkdfType>,
    /// The integrity algorithm.
    pub integrity: Option<String>,
    /// The parameters of the integrity layer.
    pub integrity_params: Option<CryptParamsIntegrity>,
    /// The alignment of the data area, in sectors.
    pub data_alignment: usize,
    /// The path of the data device, as the bytes of its name, where the header is detached.
    pub data_device: Option<Vec<u8>>,
    /// The sector size of the encryption, in bytes.
    pub sector_size: u32,
    /// The label of the device.
    pub label: Option<String>,
    /// The subsystem label of the device.
    pub subsystem: Option<String>,
}

/// The LUKS2 parameters as a mathematical value.
pub ghost struct CryptParamsLuks2View {
    pub pbkdf: Option<CryptPbkdfTypeView>,
    pub integrity: Option<Seq<char>>,
    pub integrity_params: Option<CryptParamsIntegrityView>,
    pub data_alignment: usize,
    pub data_device: Option<Seq<u8>>,
    pub sector_size: u32,
    pub label: Option<Seq<char>>,
    pub subsystem: Option<Seq<char>>,
}

impl View for CryptParamsLuks2 {
    type V = CryptParamsLuks2View;

    open spec fn view(&self) -> CryptParamsLuks2View {
        CryptParamsLuks2View {
            pbkdf: CryptPbkdfType::opt_view(self.pbkdf),
            integrity: opt_text(self.integrity),
            integrity_params: CryptParamsIntegrity::opt_view(self.integrity_params),
            data_alignment: self.data_alignment,
            data_device: opt_bytes(self.data_device),
            sector_size: self.sector_size,
            label: opt_text(self.label),
            subsystem: opt_text(self.subsystem),
        }
    }
}

/// The LUKS2 parameters in the layout of the native library. A pointer of the native
/// structure is held as what it points to, a null pointer as an absent value.
#[derive(Debug)]
pub struct NativeParamsLuks2 {
    /// The key derivation settings of the first key slot.
    pub pbkdf: Option<NativePbkdfType>,
    /// The integrity algorithm.
    pub integrity: Option<NativeText>,
    /// The parameters of the integrity layer.
    pub integrity_params: Option<NativeParamsIntegrity>,
    /// The alignment of the data area, in sectors.
    pub data_alignment: usize,
    /// The path of the data device.
    pub data_device: Option<NativeText>,
    /// The sector size of the encryption, in bytes.
    pub sector_size: u32,
    /// The label of the device.
    pub label: Option<NativeText>,
    /// The subsystem label of the device.
    pub subsystem: Option<NativeText>,
}

/// The native LUKS2 parameters as a mathematical value.
pub ghost struct NativeParamsLuks2View {
    pub pbkdf: Option<NativePbkdfTypeView>,
    pub integrity: Option<Seq<u8>>,
    pub integrity_params: Option<NativeParamsIntegrityView>,
    pub data_alignment: usize,
    pub data_device: Option<Seq<u8>>,
    pub sector_size: u32,
    pub label: Option<Seq<u8>>,
    pub subsystem: Option<Seq<u8>>,
}

impl View for NativeParamsLuks2 {
    type V = NativeParamsLuks2View;

    open spec fn view(&self) -> NativeParamsLuks2View {
        NativeParamsLuks2View {
            pbkdf: NativePbkdfType::opt_view(self.pbkdf),
            integrity: opt_native(self.integrity),
            integrity_params: NativeParamsIntegrity::opt_view(self.integrity_params),
            data_alignment: self.data_alignment,
            data_device: opt_native(self.data_device),
            sector_size: self.sector_size,
            label: opt_native(self.label),
            subsystem: opt_native(self.subsystem),
        }
    }
}

impl CryptParamsLuks2View {
    /// The native form of the parameters. The nested groups are materialized first, then
    /// the texts in the order of the fields; the first piece that cannot be marshalled
    /// decides the failure. An absent field gives a null pointer, a present one the
    /// marshalled value.
    pub open spec fn to_native(self) -> Result<NativeParamsLuks2View, LibcryptErr> {
        let pbkdf = CryptPbkdfTypeView::opt_to_native(self.pbkdf);
        let integrity_params = CryptParamsIntegrityView::opt_to_native(self.integrity_params);
        let integrity = marshal_opt_spec(opt_text_bytes(self.integrity));
        let data_device = marshal_opt_path_spec(self.data_device);
        let label = marshal_opt_spec(opt_text_bytes(self.label));
        let subsystem = marshal_opt_spec(opt_text_bytes(self.subsystem));
        if pbkdf is Err {
            Err(pbkdf->Err_0)
        } else if integrity_params is Err {
            Err(integrity_params->Err_0)
        } else if integrity is Err {
            Err(integrity->Err_0)
        } else if data_device is Err {
            Err(data_device->Err_0)
        } else if label is Err {
            Err(label->Err_0)
        } else if subsystem is Err {
            Err(subsystem->Err_0)
        } else {
            Ok(
                NativeParamsLuks2View {
                    pbkdf: pbkdf->Ok_0,
                    integrity: integrity->Ok_0,
                    integrity_params: integrity_params->Ok_0,
                    data_alignment: self.data_alignment,
                    data_device: data_device->Ok_0,
                    sector_size: self.sector_size,
                    label: label->Ok_0,
                    subsystem: subsystem->Ok_0,
                },
            )
        }
    }
}

impl NativeParamsLuks2View {
    /// The parameters that a native structure holds. The fields are read in the order of
    /// the structure, and the first one that cannot be read decides the failure. A null
    /// pointer gives an absent field.
    pub open spec fn to_owned(self) -> Result<CryptParamsLuks2View, LibcryptErr> {
        let pbkdf = NativePbkdfTypeView::opt_to_owned(self.pbkdf);
        let integrity = read_opt_text_spec(self.integrity);
        let integrity_params = NativeParamsIntegrityView::opt_to_owned(self.integrity_params);
        let data_device = read_opt_path_spec(self.data_device);
        let label = read_opt_text_spec(self.label);
        let subsystem = read_opt_text_spec(self.subsystem);
        if pbkdf is Err {
            Err(pbkdf->Err_0)
        } else if integrity is Err {
            Err(integrity->Err_0)
        } else if integrity_params is Err {
            Err(integrity_params->Err_0)
        } else if data_device is Err {
            Err(data_device->Err_0)
        } else if label is Err {
            Err(label->Err_0)
        } else if subsystem is Err {
            Err(subsystem->Err_0)
        } else {
            Ok(
                CryptParamsLuks2View {
                    pbkdf: pbkdf->Ok_0,
                    integrity: integrity->Ok_0,
                    integrity_params: integrity_params->Ok_0,
                    data_alignment: self.data_alignment,
                    data_device: data_device->Ok_0,
                    sector_size: self.sector_size,
                    label: label->Ok_0,
                    subsystem: subsystem->Ok_0,
                },
            )
        }
    }
}

/// In the native form of LUKS2 parameters, an optional field that is absent is a null
/// pointer, and one that is present is a pointer to exactly the bytes of the owned value:
/// the bytes of the text, or the name of the path.
pub proof fn lemma_luks2_optional_fields(p: CryptParamsLuks2View)
    requires
        p.to_native() is Ok,
    ensures
        ({
            let n = p.to_native()->Ok_0;
            &&& n.pbkdf is None <==> p.pbkdf is None
            &&& n.integrity_params is None <==> p.integrity_params is None
            &&& p.pbkdf matches Some(k) ==> k.to_native() == Ok::<
                NativePbkdfTypeView,
                LibcryptErr,
            >(n.pbkdf->0)
            &&& p.integrity_params matches Some(i) ==> i.to_native() == Ok::<
                NativeParamsIntegrityView,
                LibcryptErr,
            >(n.integrity_params->0)
            &&& n.integrity == opt_text_bytes(p.integrity)
            &&& n.label == opt_text_bytes(p.label)
            &&& n.subsystem == opt_text_bytes(p.subsystem)
            &&& n.data_device == p.data_device
            &&& n.data_alignment == p.data_alignment
            &&& n.sector_size == p.sector_size
        }),
{
}

/// LUKS2 parameters materialized for one native call, together with the parameters they
/// were made from. The nested groups and every buffer that a pointer of the native
/// structure stands for are parts of this value: none of them can go away before it does.
#[derive(Debug)]
pub struct CryptParamsLuks2Ref<'a> {
    /// The parameters in the layout of the native library.
    pub inner: NativeParamsLuks2,
    /// The parameters that the materialized form was made from.
    pub reference: &'a CryptParamsLuks2,
}

impl CryptParamsLuks2 {
    /// Materializes the parameters in the layout of the native library, bottom-up: the
    /// nested groups first, then the texts, and the native structure last.
    pub fn try_into<'a>(&'a self) -> (r: Result<CryptParamsLuks2Ref<'a>, LibcryptErr>)
        ensures
            match r {
                Ok(m) => self@.to_native() == Ok::<NativeParamsLuks2View, LibcryptErr>(m.inner@)
                    && m.reference == self,
                Err(e) => self@.to_native() == Err::<NativeParamsLuks2View, LibcryptErr>(e),
            },
    {
        let pbkdf = match &self.pbkdf {
            None => None,
            Some(p) => match p.try_into() {
                Ok(m) => Some(m.inner),
                Err(e) => {
                    return Err(e);
                },
            },
        };
        let integrity_params = match &self.integrity_params {
            None => None,
            Some(p) => match p.try_into() {
                Ok(m) => Some(m.inner),
                Err(e) => {
                    return Err(e);
                },
            },
        };
        let integrity = match opt_to_cstring(&self.integrity) {
            Ok(c) => c,
            Err(e) => {
                return Err(e);
            },
        };
        let data_device = match opt_path_to_cstring(&self.data_device) {
            Ok(c) => c,
            Err(e) => {
                return Err(e);
            },
        };
        let label = match opt_to_cstring(&self.label) {
            Ok(c) => c,
            Err(e) => {
                return Err(e);
            },
        };
        let subsystem = match opt_to_cstring(&self.subsystem) {
            Ok(c) => c,
            Err(e) => {
                return Err(e);
            },
        };
        let inner = NativeParamsLuks2 {
            pbkdf,
            integrity,
            integrity_params,
            data_alignment: self.data_alignment,
            data_device,
            sector_size: self.sector_size,
            label,
            subsystem,
        };
        Ok(CryptParamsLuks2Ref { inner, reference: self })
    }

    /// Reads the parameters out of a native structure.
    pub fn try_from(v: &NativeParamsLuks2) -> (r: Result<CryptParamsLuks2, LibcryptErr>)
        ensures
            match r {
                Ok(p) => v@.to_owned() == Ok::<CryptParamsLuks2View, LibcryptErr>(p@),
                Err(e) => v@.to_owned() == Err::<CryptParamsLuks2View, LibcryptErr>(e),
            },
    {
        let pbkdf = match &v.pbkdf {
            None => None,
            Some(p) => match CryptPbkdfType::try_from(p) {
                Ok(o) => Some(o),
                Err(e) => {
                    return Err(e);
                },
            },
        };
        let integrity = match read_opt_text(&v.integrity) {
            Ok(t) => t,
            Err(e) => {
                return Err(e);
            },
        };
        let integrity_params = match &v.integrity_params {
            None => None,
            Some(p) => match CryptParamsIntegrity::try_from(p) {
                Ok(o) => Some(o),
                Err(e) => {
                    return Err(e);
                },
            },
        };
        let data_device = match read_opt_path(&v.data_device) {
            Ok(p) => p,
            Err(e) => {
                return Err(e);
            },
        };
        let label = match read_opt_text(&v.label) {
            Ok(t) => t,
            Err(e) => {
                return Err(e);
            },
        };
        let subsystem = match read_opt_text(&v.subsystem) {
            Ok(t) => t,
            Err(e) => {
                return Err(e);
            },
        };
        Ok(
            CryptParamsLuks2 {
                pbkdf,
                integrity,
                integrity_params,
                data_alignment: v.data_alignment,
                data_device,
                sector_size: v.sector_size,
                label,
                subsystem,
            },
        )
    }
}

/// Parameters of the verity format.
#[derive(Debug)]
pub struct CryptParamsVerity {
    /// The name of the hash function.
    pub hash_name: String,
    /// The path of the data device, as the bytes of its name.
    pub data_device: Vec<u8>,
    /// The path of the hash device, as the bytes of its name.
    pub hash_device: Vec<u8>,
    /// The path of the device with the error correction data, as the bytes of its name.
    pub fec_device: Vec<u8>,
    /// The salt.
    pub salt: Vec<u8>,
    /// The version of the hash format.
    pub hash_type: u32,
    /// The block size of the data device, in bytes.
    pub data_block_size: u32,
    /// The block size of the hash device, in bytes.
    pub hash_block_size: u32,
    /// The size of the data, in blocks.
    pub data_size: u64,
    /// The offset of the hash area, in bytes.
    pub hash_area_offset: u64,
    /// The offset of the error correction area, in bytes.
    pub fec_area_offset: u64,
    /// The number of parity bytes of the error correction.
    pub fec_roots: u32,
    /// The flags of the format.
    pub flags: CryptVerityFlags,
}

/// The verity parameters as a mathematical value.
pub ghost struct CryptParamsVerityView {
    pub hash_name: Seq<char>,
    pub data_device: Seq<u8>,
    pub hash_device: Seq<u8>,
    pub fec_device: Seq<u8>,
    pub salt: Seq<u8>,
    pub hash_type: u32,
    pub data_block_size: u32,
    pub hash_block_size: u32,
    pub data_size: u64,
    pub hash_area_offset: u64,
    pub fec_area_offset: u64,
    pub fec_roots: u32,
    pub flags: Seq<CryptVerityFlag>,
}

impl View for CryptParamsVerity {
    type V = CryptParamsVerityView;

    open spec fn view(&self) -> CryptParamsVerityView {
        CryptParamsVerityView {
            hash_name: self.hash_name@,
            data_device: self.data_device@,
            hash_device: self.hash_device@,
            fec_device: self.fec_device@,
            salt: self.salt@,
            hash_type: self.hash_type,
            data_block_size: self.data_block_size,
            hash_block_size: self.hash_block_size,
            data_size: self.data_size,
            hash_area_offset: self.hash_area_offset,
            fec_area_offset: self.fec_area_offset,
            fec_roots: self.fec_roots,
            flags: self.flags@,
        }
    }
}

/// The verity parameters in the layout of the native library.
#[derive(Debug)]
pub struct NativeParamsVerity {
    /// The name of the hash function.
    pub hash_name: Option<NativeText>,
    /// The path of the data device.
    pub data_device: Option<NativeText>,
    /// The path of the hash device.
    pub hash_device: Option<NativeText>,
    /// The path of the device with the error correction data.
    pub fec_device: Option<NativeText>,
    /// The salt.
    pub salt: Option<Vec<u8>>,
    /// The length reported for the salt.
    pub salt_size: u32,
    /// The version of the hash format.
    pub hash_type: u32,
    /// The block size of the data device, in bytes.
    pub data_block_size: u32,
    /// The block size of the hash device, in bytes.
    pub hash_block_size: u32,
    /// The size of the data, in blocks.
    pub data_size: u64,
    /// The offset of the hash area, in bytes.
    pub hash_area_offset: u64,
    /// The offset of the error correction area, in bytes.
    pub fec_area_offset: u64,
    /// The number of parity bytes of the error correction.
    pub fec_roots: u32,
    /// The flags of the format, as one flag word.
    pub flags: u32,
}

/// The native verity parameters as a mathematical value.
pub ghost struct NativeParamsVerityView {
    pub hash_name: Option<Seq<u8>>,
    pub data_device: Option<Seq<u8>>,
    pub hash_device: Option<Seq<u8>>,
    pub fec_device: Option<Seq<u8>>,
    pub salt: Option<Seq<u8>>,
    pub salt_size: u32,
    pub hash_type: u32,
    pub data_block_size: u32,
    pub hash_block_size: u32,
    pub data_size: u64,
    pub hash_area_offset: u64,
    pub fec_area_offset: u64,
    pub fec_roots: u32,
    pub flags: u32,
}

impl View for NativeParamsVerity {
    type V = NativeParamsVerityView;

    open spec fn view(&self) -> NativeParamsVerityView {
        NativeParamsVerityView {
            hash_name: opt_native(self.hash_name),
            data_device: opt_native(self.data_device),
            hash_device: opt_native(self.hash_device),
            fec_device: opt_native(self.fec_device),
            salt: opt_bytes(self.salt),
            salt_size: self.salt_size,
            hash_type: self.hash_type,
            data_block_size: self.data_block_size,
            hash_block_size: self.hash_block_size,
            data_size: self.data_size,
            hash_area_offset: self.hash_area_offset,
            fec_area_offset: self.fec_area_offset,
            fec_roots: self.fec_roots,
            flags: self.flags,
        }
    }
}

impl CryptParamsVerityView {
    /// The native form of the parameters. The hash name and the three paths are marshalled
    /// in this order, and the first one that cannot be decides the failure. The salt keeps
    /// its bytes, and its reported length is its length cut to 32 bits.
    pub open spec fn to_native(self) -> Result<NativeParamsVerityView, LibcryptErr> {
        let hash_name = marshal_spec(encode_utf8(self.hash_name));
        let data_device = marshal_path_spec(self.data_device);
        let hash_device = marshal_path_spec(self.hash_device);
        let fec_device = marshal_path_spec(self.fec_device);
        if hash_name is Err {
            Err(hash_name->Err_0)
        } else if data_device is Err {
            Err(data_device->Err_0)
        } else if hash_device is Err {
            Err(hash_device->Err_0)
        } else if fec_device is Err {
            Err(fec_device->Err_0)
        } else {
            Ok(
                NativeParamsVerityView {
                    hash_name: Some(hash_name->Ok_0),
                    data_device: Some(data_device->Ok_0),
                    hash_device: Some(hash_device->Ok_0),
                    fec_device: Some(fec_device->Ok_0),
                    salt: Some(self.salt),
                    salt_size: self.salt.len() as u32,
                    hash_type: self.hash_type,
                    data_block_size: self.data_block_size,
                    hash_block_size: self.hash_block_size,
                    data_size: self.data_size,
                    hash_area_offset: self.hash_area_offset,
                    fec_area_offset: self.fec_area_offset,
                    fec_roots: self.fec_roots,
                    flags: union_of(self.flags),
                },
            )
        }
    }
}

impl NativeParamsVerityView {
    /// The parameters that a native structure holds. The fields are read in the order of
    /// the structure, and the first one that cannot be read decides the failure.
    pub open spec fn to_owned(self) -> Result<CryptParamsVerityView, LibcryptErr> {
        let hash_name = read_text_spec(self.hash_name);
        let data_device = read_path_spec(self.data_device);
        let hash_device = read_path_spec(self.hash_device);
        let fec_device = read_path_spec(self.fec_device);
        let salt = read_bytes_spec(self.salt, self.salt_size as nat);
        let flags = decode_spec::<CryptVerityFlag>(self.flags);
        if hash_name is Err {
            Err(hash_name->Err_0)
        } else if data_device is Err {
            Err(data_device->Err_0)
        } else if hash_device is Err {
            Err(hash_device->Err_0)
        } else if fec_device is Err {
            Err(fec_device->Err_0)
        } else if salt is Err {
            Err(salt->Err_0)
        } else if flags is None {
            Err(LibcryptErr::InvalidConversion)
        } else {
            Ok(
                CryptParamsVerityView {
                    hash_name: hash_name->Ok_0,
                    data_device: data_device->Ok_0,
                    hash_device: hash_device->Ok_0,
                    fec_device: fec_device->Ok_0,
                    salt: salt->Ok_0,
                    hash_type: self.hash_type,
                    data_block_size: self.data_block_size,
                    hash_block_size: self.hash_block_size,
                    data_size: self.data_size,
                    hash_area_offset: self.hash_area_offset,
                    fec_area_offset: self.fec_area_offset,
                    fec_roots: self.fec_roots,
                    flags: flags->0,
                },
            )
        }
    }
}

/// Verity parameters materialized for one native call, together with the parameters they
/// were made from.
#[derive(Debug)]
pub struct CryptParamsVerityRef<'a> {
    /// The parameters in the layout of the native library.
    pub inner: NativeParamsVerity,
    /// The parameters that the materialized form was made from.
    pub reference: &'a CryptParamsVerity,
}

impl CryptParamsVerity {
    /// Materializes the parameters in the layout of the native library.
    pub fn try_into<'a>(&'a self) -> (r: Result<CryptParamsVerityRef<'a>, LibcryptErr>)
        ensures
            match r {
                Ok(m) => self@.to_native() == Ok::<NativeParamsVerityView, LibcryptErr>(m.inner@)
                    && m.reference == self,
                Err(e) => self@.to_native() == Err::<NativeParamsVerityView, LibcryptErr>(e),
            },
    {
        let hash_name = match to_cstring(self.hash_name.as_str()) {
            Ok(c) => c,
            Err(e) => {
                return Err(e);
            },
        };
        let data_device = match path_to_cstring(self.data_device.as_slice()) {
            Ok(c) => c,
            Err(e) => {
                return Err(e);
            },
        };
        let hash_device = match path_to_cstring(self.hash_device.as_slice()) {
            Ok(c) => c,
            Err(e) => {
                return Err(e);
            },
        };
        let fec_device = match path_to_cstring(self.fec_device.as_slice()) {
            Ok(c) => c,
            Err(e) => {
                return Err(e);
            },
        };
        let inner = NativeParamsVerity {
            hash_name: Some(hash_name),
            data_device: Some(data_device),
            hash_device: Some(hash_device),
            fec_device: Some(fec_device),
            salt: Some(slice_to_vec(self.salt.as_slice())),
            salt_size: reported_length(self.salt.len()),
            hash_type: self.hash_type,
            data_block_size: self.data_block_size,
            hash_block_size: self.hash_block_size,
            data_size: self.data_size,
            hash_area_offset: self.hash_area_offset,
            fec_area_offset: self.fec_area_offset,
            fec_roots: self.fec_roots,
            flags: self.flags.bits(),
        };
        Ok(CryptParamsVerityRef { inner, reference: self })
    }

    /// Reads the parameters out of a native structure.
    pub fn try_from(v: &NativeParamsVerity) -> (r: Result<CryptParamsVerity, LibcryptErr>)
        ensures
            match r {
                Ok(p) => v@.to_owned() == Ok::<CryptParamsVerityView, LibcryptErr>(p@),
                Err(e) => v@.to_owned() == Err::<CryptParamsVerityView, LibcryptErr>(e),
            },
    {
        let hash_name = match read_text(&v.hash_name) {
            Ok(t) => t,
            Err(e) => {
                return Err(e);
            },
        };
        let data_device = match read_path(&v.data_device) {
            Ok(p) => p,
            Err(e) => {
                return Err(e);
            },
        };
        let hash_device = match read_path(&v.hash_device) {
            Ok(p) => p,
            Err(e) => {
                return Err(e);
            },
        };
        let fec_device = match read_path(&v.fec_device) {
            Ok(p) => p,
            Err(e) => {
                return Err(e);
            },
        };
        let salt = match read_bytes(&v.salt, v.salt_size as usize) {
            Ok(b) => b,
            Err(e) => {
                return Err(e);
            },
        };
        let flags = match CryptVerityFlags::try_from(v.flags) {
            Ok(f) => f,
            Err(e) => {
                return Err(e);
            },
        };
        Ok(
            CryptParamsVerity {
                hash_name,
                data_device,
                hash_device,
                fec_device,
                salt,
                hash_type: v.hash_type,
                data_block_size: v.data_block_size,
                hash_block_size: v.hash_block_size,
                data_size: v.data_size,
                hash_area_offset: v.hash_area_offset,
                fec_area_offset: v.fec_area_offset,
                fec_roots: v.fec_roots,
                flags,
            },
        )
    }
}

/// Parameters of the loop-AES format.
#[derive(Debug)]
pub struct CryptParamsLoopaes {
    /// The name of the hash function for the key.
    pub hash: String,
    /// The offset of the data, in sectors.
    pub offset: u64,
    /// The offset of the initialization vectors, in sectors.
    pub skip: u64,
}

/// The loop-AES parameters as a mathematical value.
pub ghost struct CryptParamsLoopaesView {
    pub hash: Seq<char>,
    pub offset: u64,
    pub skip: u64,
}

impl View for CryptParamsLoopaes {
    type V = CryptParamsLoopaesView;

    open spec fn view(&self) -> CryptParamsLoopaesView {
        CryptParamsLoopaesView { hash: self.hash@, offset: self.offset, skip: self.skip }
    }
}

/// The loop-AES parameters in the layout of the native library.
#[derive(Debug)]
pub struct NativeParamsLoopaes {
    /// The name of the hash function for the key.
    pub hash: Option<NativeText>,
    /// The offset of the data, in sectors.
    pub offset: u64,
    /// The offset of the initialization vectors, in sectors.
    pub skip: u64,
}

/// The native loop-AES parameters as a mathematical value.
pub ghost struct NativeParamsLoopaesView {
    pub hash: Option<Seq<u8>>,
    pub offset: u64,
    pub skip: u64,
}

impl View for NativeParamsLoopaes {
    type V = NativeParamsLoopaesView;

    open spec fn view(&self) -> NativeParamsLoopaesView {
        NativeParamsLoopaesView {
            hash: opt_native(self.hash),
            offset: self.offset,
            skip: self.skip,
        }
    }
}

impl CryptParamsLoopaesView {
    /// The native form of the parameters.
    pub open spec fn to_native(self) -> Result<NativeParamsLoopaesView, LibcryptErr> {
        match marshal_spec(encode_utf8(self.hash)) {
            Err(e) => Err(e),
            Ok(hash) => Ok(
                NativeParamsLoopaesView { hash: Some(hash), offset: self.offset, skip: self.skip },
            ),
        }
    }
}

impl NativeParamsLoopaesView {
    /// The parameters that a native structure holds.
    pub open spec fn to_owned(self) -> Result<CryptParamsLoopaesView, LibcryptErr> {
        match read_text_spec(self.hash) {
            Err(e) => Err(e),
            Ok(hash) => Ok(CryptParamsLoopaesView { hash, offset: self.offset, skip: self.skip }),
        }
    }
}

/// Loop-AES parameters that are materialized and read back out of the native structure are
/// unchanged.
pub proof fn lemma_loopaes_round_trip(p: CryptParamsLoopaesView)
    requires
        p.to_native() is Ok,
    ensures
        p.to_native()->Ok_0.to_owned() == Ok::<CryptParamsLoopaesView, LibcryptErr>(p),
{
    lemma_text_pointer_round_trip(p.hash);
}

/// Loop-AES parameters materialized for one native call, together with the parameters they
/// were made from.
#[derive(Debug)]
pub struct CryptParamsLoopaesRef<'a> {
    /// The parameters in the layout of the native library.
    pub inner: NativeParamsLoopaes,
    /// The parameters that the materialized form was made from.
    pub reference: &'a CryptParamsLoopaes,
}

impl CryptParamsLoopaes {
    /// Materializes the parameters in the layout of the native library.
    pub fn try_into<'a>(&'a self) -> (r: Result<CryptParamsLoopaesRef<'a>, LibcryptErr>)
        ensures
            match r {
                Ok(m) => self@.to_native() == Ok::<NativeParamsLoopaesView, LibcryptErr>(m.inner@)
                    && m.reference == self,
                Err(e) => self@.to_native() == Err::<NativeParamsLoopaesView, LibcryptErr>(e),
            },
    {
        match to_cstring(self.hash.as_str()) {
            Ok(hash) => Ok(
                CryptParamsLoopaesRef {
                    inner: NativeParamsLoopaes {
                        hash: Some(hash),
                        offset: self.offset,
                        skip: self.skip,
                    },
                    reference: self,
                },
            ),
            Err(e) => Err(e),
        }
    }

    /// Reads the parameters out of a native structure.
    pub fn try_from(v: &NativeParamsLoopaes) -> (r: Result<CryptParamsLoopaes, LibcryptErr>)
        ensures
            match r {
                Ok(p) => v@.to_owned() == Ok::<CryptParamsLoopaesView, LibcryptErr>(p@),
                Err(e) => v@.to_owned() == Err::<CryptParamsLoopaesView, LibcryptErr>(e),
            },
    {
        match read_text(&v.hash) {
            Ok(hash) => Ok(CryptParamsLoopaes { hash, offset: v.offset, skip: v.skip }),
            Err(e) => Err(e),
        }
    }
}

/// Parameters of plain encryption.
#[derive(Debug)]
pub struct CryptParamsPlain {
    /// The name of the hash function for the passphrase.
    pub hash: String,
    /// The offset of the data, in sectors.
    pub offset: u64,
    /// The sector size, in bytes.
    pub sector_size: u32,
    /// The size of the mapped device, in sectors.
    pub size: u64,
    /// The offset of the initialization vectors, in sectors.
    pub skip: u64,
}

/// The parameters of plain encryption as a mathematical value.
pub ghost struct CryptParamsPlainView {
    pub hash: Seq<char>,
    pub offset: u64,
    pub sector_size: u32,
    pub size: u64,
    pub skip: u64,
}

impl View for CryptParamsPlain {
    type V = CryptParamsPlainView;

    open spec fn view(&self) -> CryptParamsPlainView {
        CryptParamsPlainView {
            hash: self.hash@,
            offset: self.offset,
            sector_size: self.sector_size,
            size: self.size,
            skip: self.skip,
        }
    }
}

/// The parameters of plain encryption in the layout of the native library.
#[derive(Debug)]
pub struct NativeParamsPlain {
    /// The name of the hash function for the passphrase.
    pub hash: Option<NativeText>,
    /// The offset of the data, in sectors.
    pub offset: u64,
    /// The offset of the initialization vectors, in sectors.
    pub skip: u64,
    /// The size of the mapped device, in sectors.
    pub size: u64,
    /// The sector size, in bytes.
    pub sector_size: u32,
}

/// The native parameters of plain encryption as a mathematical value.
pub ghost struct NativeParamsPlainView {
    pub hash: Option<Seq<u8>>,
    pub offset: u64,
    pub skip: u64,
    pub size: u64,
    pub sector_size: u32,
}

impl View for NativeParamsPlain {
    type V = NativeParamsPlainView;

    open spec fn view(&self) -> NativeParamsPlainView {
        NativeParamsPlainView {
            hash: opt_native(self.hash),
            offset: self.offset,
            skip: self.skip,
            size: self.size,
            sector_size: self.sector_size,
        }
    }
}

impl CryptParamsPlainView {
    /// The native form of the parameters.
    pub open spec fn to_native(self) -> Result<NativeParamsPlainView, LibcryptErr> {
        match marshal_spec(encode_utf8(self.hash)) {
            Err(e) => Err(e),
            Ok(hash) => Ok(
                NativeParamsPlainView {
                    hash: Some(hash),
                    offset: self.offset,
                    skip: self.skip,
                    size: self.size,
                    sector_size: self.sector_size,
                },
            ),
        }
    }
}

impl NativeParamsPlainView {
    /// The parameters that a native structure holds.
    pub open spec fn to_owned(self) -> Result<CryptParamsPlainView, LibcryptErr> {
        match read_text_spec(self.hash) {
            Err(e) => Err(e),
            Ok(hash) => Ok(
                CryptParamsPlainView {
                    hash,
                    offset: self.offset,
                    sector_size: self.sector_size,
                    size: self.size,
                    skip: self.skip,
                },
            ),
        }
    }
}

/// Parameters of plain encryption that are materialized and read back out of the native
/// structure are unchanged.
pub proof fn lemma_plain_round_trip(p: CryptParamsPlainView)
    requires
        p.to_native() is Ok,
    ensures
        p.to_native()->Ok_0.to_owned() == Ok::<CryptParamsPlainView, LibcryptErr>(p),
{
    lemma_text_pointer_round_trip(p.hash);
}

/// Parameters of plain encryption materialized for one native call, together with the
/// parameters they were made from.
#[derive(Debug)]
pub struct CryptParamsPlainRef<'a> {
    /// The parameters in the layout of the native library.
    pub inner: NativeParamsPlain,
    /// The parameters that the materialized form was made from.
    pub reference: &'a CryptParamsPlain,
}

impl CryptParamsPlain {
    /// Materializes the parameters in the layout of the native library.
    pub fn try_into<'a>(&'a self) -> (r: Result<CryptParamsPlainRef<'a>, LibcryptErr>)
        ensures
            match r {
                Ok(m) => self@.to_native() == Ok::<NativeParamsPlainView, LibcryptErr>(m.inner@)
                    && m.reference == self,
                Err(e) => self@.to_native() == Err::<NativeParamsPlainView, LibcryptErr>(e),
            },
    {
        match to_cstring(self.hash.as_str()) {
            Ok(hash) => Ok(
                CryptParamsPlainRef {
                    inner: NativeParamsPlain {
                        hash: Some(hash),
                        offset: self.offset,
                        skip: self.skip,
                        size: self.size,
                        sector_size: self.sector_size,
                    },
                    reference: self,
                },
            ),
            Err(e) => Err(e),
        }
    }

    /// Reads the parameters out of a native structure.
    pub fn try_from(v: &NativeParamsPlain) -> (r: Result<CryptParamsPlain, LibcryptErr>)
        ensures
            match r {
                Ok(p) => v@.to_owned() == Ok::<CryptParamsPlainView, LibcryptErr>(p@),
                Err(e) => v@.to_owned() == Err::<CryptParamsPlainView, LibcryptErr>(e),
            },
    {
        match read_text(&v.hash) {
            Ok(hash) => Ok(
                CryptParamsPlain {
                    hash,
                    offset: v.offset,
                    sector_size: v.sector_size,
                    size: v.size,
                    skip: v.skip,
                },
            ),
            Err(e) => Err(e),
        }
    }
}

/// Parameters of the tcrypt format.
#[derive(Debug)]
pub struct CryptParamsTcrypt {
    /// The passphrase.
    pub passphrase: Option<Vec<u8>>,
    /// The paths of the key files, each as the bytes of its name.
    pub keyfiles: Option<Vec<Vec<u8>>>,
    /// The name of the hash function.
    pub hash_name: String,
    /// The cipher chain.
    pub cipher: String,
    /// The cipher mode.
    pub mode: String,
    /// The size of the key, in bytes.
    pub key_size: usize,
    /// The flags of the format.
    pub flags: CryptTcryptFlags,
    /// The iteration multiplier of VeraCrypt.
    pub veracrypt_pim: u32,
}

/// The tcrypt parameters as a mathematical value.
pub ghost struct CryptParamsTcryptView {
    pub passphrase: Option<Seq<u8>>,
    pub keyfiles: Option<Seq<Seq<u8>>>,
    pub hash_name: Seq<char>,
    pub cipher: Seq<char>,
    pub mode: Seq<char>,
    pub key_size: usize,
    pub flags: Seq<CryptTcryptFlag>,
    pub veracrypt_pim: u32,
}

impl View for CryptParamsTcrypt {
    type V = CryptParamsTcryptView;

    open spec fn view(&self) -> CryptParamsTcryptView {
        CryptParamsTcryptView {
            passphrase: opt_bytes(self.passphrase),
            keyfiles: match self.keyfiles {
                None => None,
                Some(k) => Some(buffers_view(k)),
            },
            hash_name: self.hash_name@,
            cipher: self.cipher@,
            mode: self.mode@,
            key_size: self.key_size,
            flags: self.flags@,
            veracrypt_pim: self.veracrypt_pim,
        }
    }
}

/// The tcrypt parameters in the layout of the native library. The array of key file
/// pointers is held as the list of the buffers they point to.
#[derive(Debug)]
pub struct NativeParamsTcrypt {
    /// The passphrase; null where there is none.
    pub passphrase: Option<Vec<u8>>,
    /// The length reported for the passphrase.
    pub passphrase_size: usize,
    /// The paths of the key files.
    pub keyfiles: Vec<NativeText>,
    /// The number of key files reported.
    pub keyfiles_count: u32,
    /// The name of the hash function.
    pub hash_name: Option<NativeText>,
    /// The cipher chain.
    pub cipher: Option<NativeText>,
    /// The cipher mode.
    pub mode: Option<NativeText>,
    /// The size of the key, in bytes.
    pub key_size: usize,
    /// The flags of the format, as one flag word.
    pub flags: u32,
    /// The iteration multiplier of VeraCrypt.
    pub veracrypt_pim: u32,
}

/// The native tcrypt parameters as a mathematical value.
pub ghost struct NativeParamsTcryptView {
    pub passphrase: Option<Seq<u8>>,
    pub passphrase_size: usize,
    pub keyfiles: Seq<Seq<u8>>,
    pub keyfiles_count: u32,
    pub hash_name: Option<Seq<u8>>,
    pub cipher: Option<Seq<u8>>,
    pub mode: Option<Seq<u8>>,
    pub key_size: usize,
    pub flags: u32,
    pub veracrypt_pim: u32,
}

impl View for NativeParamsTcrypt {
    type V = NativeParamsTcryptView;

    open spec fn view(&self) -> NativeParamsTcryptView {
        NativeParamsTcryptView {
            passphrase: opt_bytes(self.passphrase),
            passphrase_size: self.passphrase_size,
            keyfiles: natives_view(self.keyfiles),
            keyfiles_count: self.keyfiles_count,
            hash_name: opt_native(self.hash_name),
            cipher: opt_native(self.cipher),
            mode: opt_native(self.mode),
            key_size: self.key_size,
            flags: self.flags,
            veracrypt_pim: self.veracrypt_pim,
        }
    }
}

impl CryptParamsTcryptView {
    /// The paths of the key files; none where the list is absent.
    pub open spec fn keyfile_paths(self) -> Seq<Seq<u8>> {
        match self.keyfiles {
            None => Seq::empty(),
            Some(k) => k,
        }
    }

    /// The native form of the parameters. The key file paths are marshalled first, one
    /// buffer for each path, then the three texts in the order of the fields; the first
    /// piece that cannot be marshalled decides the failure. An absent passphrase gives a
    /// null pointer and the length zero, a present one its bytes and its length. The
    /// number of key files reported is the length of the list, cut to 32 bits.
    pub open spec fn to_native(self) -> Result<NativeParamsTcryptView, LibcryptErr> {
        let keyfiles = marshal_paths_spec(self.keyfile_paths());
        let hash_name = marshal_spec(encode_utf8(self.hash_name));
        let cipher = marshal_spec(encode_utf8(self.cipher));
        let mode = marshal_spec(encode_utf8(self.mode));
        if keyfiles is Err {
            Err(keyfiles->Err_0)
        } else if hash_name is Err {
            Err(hash_name->Err_0)
        } else if cipher is Err {
            Err(cipher->Err_0)
        } else if mode is Err {
            Err(mode->Err_0)
        } else {
            Ok(
                NativeParamsTcryptView {
                    passphrase: self.passphrase,
                    passphrase_size: match self.passphrase {
                        None => 0,
                        Some(p) => p.len() as usize,
                    },
                    keyfiles: keyfiles->Ok_0,
                    keyfiles_count: self.keyfile_paths().len() as u32,
                    hash_name: Some(hash_name->Ok_0),
                    cipher: Some(cipher->Ok_0),
                    mode: Some(mode->Ok_0),
                    key_size: self.key_size,
                    flags: union_of(self.flags),
                    veracrypt_pim: self.veracrypt_pim,
                },
            )
        }
    }
}

impl NativeParamsTcryptView {
    /// The key file paths that a native structure holds: those behind the first pointers
    /// of the array, as many as the structure reports. An array shorter than the number
    /// reported is a conversion error.
    pub open spec fn keyfile_paths(self) -> Result<Seq<Seq<u8>>, LibcryptErr> {
        if self.keyfiles_count as nat > self.keyfiles.len() {
            Err(LibcryptErr::InvalidConversion)
        } else {
            read_paths_spec(self.keyfiles.subrange(0, self.keyfiles_count as int))
        }
    }

    /// The passphrase that a native structure holds: none behind a null pointer, else the
    /// bytes behind the pointer, as many as the structure reports.
    pub open spec fn read_passphrase(self) -> Result<Option<Seq<u8>>, LibcryptErr> {
        match self.passphrase {
            None => Ok(None),
            Some(buffer) => match read_bytes_spec(Some(buffer), self.passphrase_size as nat) {
                Ok(p) => Ok(Some(p)),
                Err(e) => Err(e),
            },
        }
    }

    /// The parameters that a native structure holds. The key files are read first, then
    /// the fields in the order of the structure; the first piece that cannot be read
    /// decides the failure. An empty list of key files is an absent list.
    pub open spec fn to_owned(self) -> Result<CryptParamsTcryptView, LibcryptErr> {
        let keyfiles = self.keyfile_paths();
        let passphrase = self.read_passphrase();
        let hash_name = read_text_spec(self.hash_name);
        let cipher = read_text_spec(self.cipher);
        let mode = read_text_spec(self.mode);
        let flags = decode_spec::<CryptTcryptFlag>(self.flags);
        if keyfiles is Err {
            Err(keyfiles->Err_0)
        } else if passphrase is Err {
            Err(passphrase->Err_0)
        } else if hash_name is Err {
            Err(hash_name->Err_0)
        } else if cipher is Err {
            Err(cipher->Err_0)
        } else if mode is Err {
            Err(mode->Err_0)
        } else if flags is None {
            Err(LibcryptErr::InvalidConversion)
        } else {
            Ok(
                CryptParamsTcryptView {
                    passphrase: passphrase->Ok_0,
                    keyfiles: if keyfiles->Ok_0.len() == 0 {
                        None
                    } else {
                        Some(keyfiles->Ok_0)
                    },
                    hash_name: hash_name->Ok_0,
                    cipher: cipher->Ok_0,
                    mode: mode->Ok_0,
                    key_size: self.key_size,
                    flags: flags->0,
                    veracrypt_pim: self.veracrypt_pim,
                },
            )
        }
    }
}

/// In the native form of tcrypt parameters, an absent passphrase is a null pointer with the
/// length zero, a present one is a pointer to its bytes with their number, and there is one
/// key file buffer for each key file path.
pub proof fn lemma_tcrypt_optional_fields(p: CryptParamsTcryptView)
    requires
        p.to_native() is Ok,
    ensures
        ({
            let n = p.to_native()->Ok_0;
            &&& p.passphrase is None ==> n.passphrase is None && n.passphrase_size == 0
            &&& p.passphrase matches Some(b) ==> n.passphrase == Some(b) && n.passphrase_size
                == b.len() as usize
            &&& n.keyfiles.len() == p.keyfile_paths().len()
            &&& p.keyfiles is None ==> n.keyfiles.len() == 0 && n.keyfiles_count == 0
        }),
{
    lemma_marshal_paths_len(p.keyfile_paths());
}

/// Tcrypt parameters materialized for one native call, together with the parameters they
/// were made from.
#[derive(Debug)]
pub struct CryptParamsTcryptRef<'a> {
    /// The parameters in the layout of the native library.
    pub inner: NativeParamsTcrypt,
    /// The parameters that the materialized form was made from.
    pub reference: &'a CryptParamsTcrypt,
}

impl CryptParamsTcrypt {
    /// Materializes the parameters in the layout of the native library. The list of key
    /// file buffers has the length of the list of key file paths.
    pub fn try_into<'a>(&'a self) -> (r: Result<CryptParamsTcryptRef<'a>, LibcryptErr>)
        ensures
            match r {
                Ok(m) => self@.to_native() == Ok::<NativeParamsTcryptView, LibcryptErr>(m.inner@)
                    && m.reference == self && m.inner.keyfiles@.len()
                    == self@.keyfile_paths().len(),
                Err(e) => self@.to_native() == Err::<NativeParamsTcryptView, LibcryptErr>(e),
            },
    {
        let keyfiles = match &self.keyfiles {
            None => {
                let none: Vec<NativeText> = Vec::new();
                proof {
                    assert(natives_view(none) =~= Seq::<Seq<u8>>::empty());
                }
                none
            },
            Some(paths) => match paths_to_cstrings(paths) {
                Ok(c) => c,
                Err(e) => {
                    return Err(e);
                },
            },
        };
        let hash_name = match to_cstring(self.hash_name.as_str()) {
            Ok(c) => c,
            Err(e) => {
                return Err(e);
            },
        };
        let cipher = match to_cstring(self.cipher.as_str()) {
            Ok(c) => c,
            Err(e) => {
                return Err(e);
            },
        };
        let mode = match to_cstring(self.mode.as_str()) {
            Ok(c) => c,
            Err(e) => {
                return Err(e);
            },
        };
        let (passphrase, passphrase_size) = match &self.passphrase {
            None => (None, 0),
            Some(p) => (Some(slice_to_vec(p.as_slice())), p.len()),
        };
        let keyfiles_count = reported_length(keyfiles.len());
        let inner = NativeParamsTcrypt {
            passphrase,
            passphrase_size,
            keyfiles,
            keyfiles_count,
            hash_name: Some(hash_name),
            cipher: Some(cipher),
            mode: Some(mode),
            key_size: self.key_size,
            flags: self.flags.bits(),
            veracrypt_pim: self.veracrypt_pim,
        };
        Ok(CryptParamsTcryptRef { inner, reference: self })
    }

    /// Reads the parameters out of a native structure.
    pub fn try_from(v: &NativeParamsTcrypt) -> (r: Result<CryptParamsTcrypt, LibcryptErr>)
        ensures
            match r {
                Ok(p) => v@.to_owned() == Ok::<CryptParamsTcryptView, LibcryptErr>(p@),
                Err(e) => v@.to_owned() == Err::<CryptParamsTcryptView, LibcryptErr>(e),
            },
    {
        let count = v.keyfiles_count as usize;
        if count > v.keyfiles.len() {
            return Err(LibcryptErr::InvalidConversion);
        }
        let keyfiles = match read_paths(&v.keyfiles, count) {
            Ok(k) => k,
            Err(e) => {
                return Err(e);
            },
        };
        let passphrase = match &v.passphrase {
            None => None,
            Some(_) => match read_bytes(&v.passphrase, v.passphrase_size) {
                Ok(p) => Some(p),
                Err(e) => {
                    return Err(e);
                },
            },
        };
        let hash_name = match read_text(&v.hash_name) {
            Ok(t) => t,
            Err(e) => {
                return Err(e);
            },
        };
        let cipher = match read_text(&v.cipher) {
            Ok(t) => t,
            Err(e) => {
                return Err(e);
            },
        };
        let mode = match read_text(&v.mode) {
            Ok(t) => t,
            Err(e) => {
                return Err(e);
            },
        };
        let flags = match CryptTcryptFlags::try_from(v.flags) {
            Ok(f) => f,
            Err(e) => {
                return Err(e);
            },
        };
        let keyfiles = if keyfiles.len() == 0 {
            None
        } else {
            Some(keyfiles)
        };
        Ok(
            CryptParamsTcrypt {
                passphrase,
                keyfiles,
                hash_name,
                cipher,
                mode,
                key_size: v.key_size,
                flags,
                veracrypt_pim: v.veracrypt_pim,
            },
        )
    }
}

} // verus!
