//! Reencryption: states, modes, directions, flags and parameters.

use vstd::prelude::*;
use vstd::std_specs::convert::{FromSpecImpl, TryFromSpecImpl};
use vstd::utf8::*;

use crate::consts::{
    CRYPT_REENCRYPT_BACKWARD, CRYPT_REENCRYPT_CLEAN, CRYPT_REENCRYPT_CRASH, CRYPT_REENCRYPT_DECRYPT,
    CRYPT_REENCRYPT_ENCRYPT, CRYPT_REENCRYPT_FORWARD, CRYPT_REENCRYPT_INITIALIZE_ONLY,
    CRYPT_REENCRYPT_INVALID, CRYPT_REENCRYPT_MOVE_FIRST_SEGMENT, CRYPT_REENCRYPT_NONE,
    CRYPT_REENCRYPT_RECOVERY, CRYPT_REENCRYPT_REENCRYPT, CRYPT_REENCRYPT_RESUME_ONLY,
};
use crate::err::LibcryptErr;
use crate::flags::{lemma_variant_of, native_of, union_of, variant_of, FlagSet, NativeFlag};
use crate::format::{
    CryptParamsLuks2, CryptParamsLuks2View, NativeParamsLuks2, NativeParamsLuks2View,
};
use crate::marshal::{marshal_spec, opt_native, to_cstring, NativeText};

verus! {

/// The state of the reencryption of a device.
#[derive(Debug, PartialEq, Eq, Structural, Clone, Copy)]
pub enum CryptReencryptInfo {
    /// No reencryption is in progress.
    NotRunning,
    /// A reencryption is in progress and its metadata is sound.
    Clean,
    /// A reencryption was interrupted and needs recovery.
    Crash,
    /// The reencryption metadata is invalid.
    Invalid,
}

impl CryptReencryptInfo {
    /// The native constant of the variant.
    pub open spec fn native(self) -> u32 {
        match self {
            CryptReencryptInfo::NotRunning => CRYPT_REENCRYPT_NONE,
            CryptReencryptInfo::Clean => CRYPT_REENCRYPT_CLEAN,
            CryptReencryptInfo::Crash => CRYPT_REENCRYPT_CRASH,
            CryptReencryptInfo::Invalid => CRYPT_REENCRYPT_INVALID,
        }
    }

    /// The variant of a native constant, or a conversion error where the constant has none.
    pub open spec fn of_native(v: u32) -> Result<Self, LibcryptErr> {
        if v == CRYPT_REENCRYPT_NONE {
            Ok(CryptReencryptInfo::NotRunning)
        } else if v == CRYPT_REENCRYPT_CLEAN {
            Ok(CryptReencryptInfo::Clean)
        } else if v == CRYPT_REENCRYPT_CRASH {
            Ok(CryptReencryptInfo::Crash)
        } else if v == CRYPT_REENCRYPT_INVALID {
            Ok(CryptReencryptInfo::Invalid)
        } else {
            Err(LibcryptErr::InvalidConversion)
        }
    }

    /// Every variant has a constant that stands for it, and a constant stands for no
    /// variant but the one it belongs to.
    pub proof fn lemma_round_trip(e: Self, v: u32)
        ensures
            Self::of_native(e.native()) == Ok::<Self, LibcryptErr>(e),
            Self::of_native(v) == Ok::<Self, LibcryptErr>(e) ==> e.native() == v,
    {
    }
}

impl From<CryptReencryptInfo> for u32 {
    fn from(v: CryptReencryptInfo) -> (r: u32) {
        match v {
            CryptReencryptInfo::NotRunning => CRYPT_REENCRYPT_NONE,
            CryptReencryptInfo::Clean => CRYPT_REENCRYPT_CLEAN,
            CryptReencryptInfo::Crash => CRYPT_REENCRYPT_CRASH,
            CryptReencryptInfo::Invalid => CRYPT_REENCRYPT_INVALID,
        }
    }
}

impl FromSpecImpl<CryptReencryptInfo> for u32 {
    open spec fn obeys_from_spec() -> bool {
        true
    }

    open spec fn from_spec(v: CryptReencryptInfo) -> u32 {
        v.native()
    }
}

impl TryFrom<u32> for CryptReencryptInfo {
    type Error = LibcryptErr;

    fn try_from(v: u32) -> (r: Result<Self, LibcryptErr>) {
        if v == CRYPT_REENCRYPT_NONE {
            Ok(CryptReencryptInfo::NotRunning)
        } else if v == CRYPT_REENCRYPT_CLEAN {
            Ok(CryptReencryptInfo::Clean)
        } else if v == CRYPT_REENCRYPT_CRASH {
            Ok(CryptReencryptInfo::Crash)
        } else if v == CRYPT_REENCRYPT_INVALID {
            Ok(CryptReencryptInfo::Invalid)
        } else {
            Err(LibcryptErr::InvalidConversion)
        }
    }
}

impl TryFromSpecImpl<u32> for CryptReencryptInfo {
    open spec fn obeys_try_from_spec() -> bool {
        true
    }

    open spec fn try_from_spec(v: u32) -> Result<Self, LibcryptErr> {
        Self::of_native(v)
    }
}

/// The kind of a reencryption.
#[derive(Debug, PartialEq, Eq, Structural, Clone, Copy)]
pub enum CryptReencryptModeInfo {
    /// Encrypted data is encrypted anew.
    Reencrypt,
    /// Plain data is encrypted.
    Encrypt,
    /// Encrypted data is decrypted.
    Decrypt,
}

impl CryptReencryptModeInfo {
    /// The native constant of the variant.
    pub open spec fn native(self) -> u32 {
        match self {
            CryptReencryptModeInfo::Reencrypt => CRYPT_REENCRYPT_REENCRYPT,
            CryptReencryptModeInfo::Encrypt => CRYPT_REENCRYPT_ENCRYPT,
            CryptReencryptModeInfo::Decrypt => CRYPT_REENCRYPT_DECRYPT,
        }
    }

    /// The variant of a native constant, or a conversion error where the constant has none.
    pub open spec fn of_native(v: u32) -> Result<Self, LibcryptErr> {
        if v == CRYPT_REENCRYPT_REENCRYPT {
            Ok(CryptReencryptModeInfo::Reencrypt)
        } else if v == CRYPT_REENCRYPT_ENCRYPT {
            Ok(CryptReencryptModeInfo::Encrypt)
        } else if v == CRYPT_REENCRYPT_DECRYPT {
            Ok(CryptReencryptModeInfo::Decrypt)
        } else {
            Err(LibcryptErr::InvalidConversion)
        }
    }

    /// Every variant has a constant that stands for it, and a constant stands for no
    /// variant but the one it belongs to.
    pub proof fn lemma_round_trip(e: Self, v: u32)
        ensures
            Self::of_native(e.native()) == Ok::<Self, LibcryptErr>(e),
            Self::of_native(v) == Ok::<Self, LibcryptErr>(e) ==> e.native() == v,
    {
    }
}

impl From<CryptReencryptModeInfo> for u32 {
    fn from(v: CryptReencryptModeInfo) -> (r: u32) {
        match v {
            CryptReencryptModeInfo::Reencrypt => CRYPT_REENCRYPT_REENCRYPT,
            CryptReencryptModeInfo::Encrypt => CRYPT_REENCRYPT_ENCRYPT,
            CryptReencryptModeInfo::Decrypt => CRYPT_REENCRYPT_DECRYPT,
        }
    }
}

impl FromSpecImpl<CryptReencryptModeInfo> for u32 {
    open spec fn obeys_from_spec() -> bool {
        true
    }

    open spec fn from_spec(v: CryptReencryptModeInfo) -> u32 {
        v.native()
    }
}

impl TryFrom<u32> for CryptReencryptModeInfo {
    type Error = LibcryptErr;

    fn try_from(v: u32) -> (r: Result<Self, LibcryptErr>) {
        if v == CRYPT_REENCRYPT_REENCRYPT {
            Ok(CryptReencryptModeInfo::Reencrypt)
        } else if v == CRYPT_REENCRYPT_ENCRYPT {
            Ok(CryptReencryptModeInfo::Encrypt)
        } else if v == CRYPT_REENCRYPT_DECRYPT {
            Ok(CryptReencryptModeInfo::Decrypt)
        } else {
            Err(LibcryptErr::InvalidConversion)
        }
    }
}

impl TryFromSpecImpl<u32> for CryptReencryptModeInfo {
    open spec fn obeys_try_from_spec() -> bool {
        true
    }

    open spec fn try_from_spec(v: u32) -> Result<Self, LibcryptErr> {
        Self::of_native(v)
    }
}

/// The direction in which a reencryption walks the device.
#[derive(Debug, PartialEq, Eq, Structural, Clone, Copy)]
pub enum CryptReencryptDirectionInfo {
    /// From the start of the device to its end.
    Forward,
    /// From the end of the device to its start.
    Backward,
}

impl CryptReencryptDirectionInfo {
    /// The native constant of the variant.
    pub open spec fn native(self) -> u32 {
        match self {
            CryptReencryptDirectionInfo::Forward => CRYPT_REENCRYPT_FORWARD,
            CryptReencryptDirectionInfo::Backward => CRYPT_REENCRYPT_BACKWARD,
        }
    }

    /// The variant of a native constant, or a conversion error where the constant has none.
    pub open spec fn of_native(v: u32) -> Result<Self, LibcryptErr> {
        if v == CRYPT_REENCRYPT_FORWARD {
            Ok(CryptReencryptDirectionInfo::Forward)
        } else if v == CRYPT_REENCRYPT_BACKWARD {
            Ok(CryptReencryptDirectionInfo::Backward)
        } else {
            Err(LibcryptErr::InvalidConversion)
        }
    }

    /// Every variant has a constant that stands for it, and a constant stands for no
    /// variant but the one it belongs to.
    pub proof fn lemma_round_trip(e: Self, v: u32)
        ensures
            Self::of_native(e.native()) == Ok::<Self, LibcryptErr>(e),
            Self::of_native(v) == Ok::<Self, LibcryptErr>(e) ==> e.native() == v,
    {
    }
}

impl From<CryptReencryptDirectionInfo> for u32 {
    fn from(v: CryptReencryptDirectionInfo) -> (r: u32) {
        match v {
            CryptReencryptDirectionInfo::Forward => CRYPT_REENCRYPT_FORWARD,
            CryptReencryptDirectionInfo::Backward => CRYPT_REENCRYPT_BACKWARD,
        }
    }
}

impl FromSpecImpl<CryptReencryptDirectionInfo> for u32 {
    open spec fn obeys_from_spec() -> bool {
        true
    }

    open spec fn from_spec(v: CryptReencryptDirectionInfo) -> u32 {
        v.native()
    }
}

impl TryFrom<u32> for CryptReencryptDirectionInfo {
    type Error = LibcryptErr;

    fn try_from(v: u32) -> (r: Result<Self, LibcryptErr>) {
        if v == CRYPT_REENCRYPT_FORWARD {
            Ok(CryptReencryptDirectionInfo::Forward)
        } else if v == CRYPT_REENCRYPT_BACKWARD {
            Ok(CryptReencryptDirectionInfo::Backward)
        } else {
            Err(LibcryptErr::InvalidConversion)
        }
    }
}

impl TryFromSpecImpl<u32> for CryptReencryptDirectionInfo {
    open spec fn obeys_try_from_spec() -> bool {
        true
    }

    open spec fn try_from_spec(v: u32) -> Result<Self, LibcryptErr> {
        Self::of_native(v)
    }
}

/// One of the flags that steer a reencryption.
#[derive(Debug, PartialEq, Eq, Structural, Clone, Copy)]
pub enum CryptReencryptFlag {
    /// Write the reencryption metadata and stop.
    InitializeOnly,
    /// Move the first data segment to the end of the device.
    MoveFirstSegment,
    /// Go on with a reencryption that was started before.
    ResumeOnly,
    /// Run the recovery of an interrupted reencryption.
    Recovery,
}

impl NativeFlag for CryptReencryptFlag {
    open spec fn position(self) -> u32 {
        match self {
            CryptReencryptFlag::InitializeOnly => 0,
            CryptReencryptFlag::MoveFirstSegment => 1,
            CryptReencryptFlag::ResumeOnly => 2,
            CryptReencryptFlag::Recovery => 3,
        }
    }

    fn to_native(self) -> (r: u32) {
        match self {
            CryptReencryptFlag::InitializeOnly => CRYPT_REENCRYPT_INITIALIZE_ONLY,
            CryptReencryptFlag::MoveFirstSegment => CRYPT_REENCRYPT_MOVE_FIRST_SEGMENT,
            CryptReencryptFlag::ResumeOnly => CRYPT_REENCRYPT_RESUME_ONLY,
            CryptReencryptFlag::Recovery => CRYPT_REENCRYPT_RECOVERY,
        }
    }

    fn from_native(v: u32) -> (r: Result<Self, LibcryptErr>) {
        if v == CRYPT_REENCRYPT_INITIALIZE_ONLY {
            Ok(CryptReencryptFlag::InitializeOnly)
        } else if v == CRYPT_REENCRYPT_MOVE_FIRST_SEGMENT {
            Ok(CryptReencryptFlag::MoveFirstSegment)
        } else if v == CRYPT_REENCRYPT_RESUME_ONLY {
            Ok(CryptReencryptFlag::ResumeOnly)
        } else if v == CRYPT_REENCRYPT_RECOVERY {
            Ok(CryptReencryptFlag::Recovery)
        } else {
            Err(LibcryptErr::InvalidConversion)
        }
    }

    proof fn lemma_position_in_word(self) {
    }

    proof fn lemma_position_injective(self, other: Self) {
    }
}

impl From<CryptReencryptFlag> for u32 {
    fn from(v: CryptReencryptFlag) -> (r: u32) {
        v.to_native()
    }
}

impl FromSpecImpl<CryptReencryptFlag> for u32 {
    open spec fn obeys_from_spec() -> bool {
        true
    }

    open spec fn from_spec(v: CryptReencryptFlag) -> u32 {
        native_of(v)
    }
}

impl TryFrom<u32> for CryptReencryptFlag {
    type Error = LibcryptErr;

    fn try_from(v: u32) -> (r: Result<Self, LibcryptErr>) {
        let r = Self::from_native(v);
        proof {
            if let Ok(f) = r {
                lemma_variant_of(f);
            }
        }
        r
    }
}

impl TryFromSpecImpl<u32> for CryptReencryptFlag {
    open spec fn obeys_try_from_spec() -> bool {
        true
    }

    open spec fn try_from_spec(v: u32) -> Result<Self, LibcryptErr> {
        variant_of::<Self>(v)
    }
}

/// A set of reencryption flags.
pub type CryptReencryptFlags = FlagSet<CryptReencryptFlag>;

/// Parameters of a reencryption.
#[derive(Debug)]
pub struct CryptParamsReencrypt {
    /// The kind of the reencryption.
    pub mode: CryptReencryptModeInfo,
    /// The direction in which the device is walked.
    pub direction: CryptReencryptDirectionInfo,
    /// The resilience mode.
    pub resilience: String,
    /// The name of the hash function of the resilience mode.
    pub hash: String,
    /// The shift of the data, in sectors.
    pub data_shift: u64,
    /// The largest size of the hot zone, in sectors.
    pub max_hotzone_size: u64,
    /// The size of the device, in sectors.
    pub device_size: u64,
    /// The LUKS2 parameters of the new encryption.
    pub luks2: CryptParamsLuks2,
    /// The flags of the reencryption.
    pub flags: CryptReencryptFlags,
}

/// The reencryption parameters as a mathematical value.
pub ghost struct CryptParamsReencryptView {
    pub mode: CryptReencryptModeInfo,
    pub direction: CryptReencryptDirectionInfo,
    pub resilience: Seq<char>,
    pub hash: Seq<char>,
    pub data_shift: u64,
    pub max_hotzone_size: u64,
    pub device_size: u64,
    pub luks2: CryptParamsLuks2View,
    pub flags: Seq<CryptReencryptFlag>,
}

impl View for CryptParamsReencrypt {
    type V = CryptParamsReencryptView;

    open spec fn view(&self) -> CryptParamsReencryptView {
        CryptParamsReencryptView {
            mode: self.mode,
            direction: self.direction,
            resilience: self.resilience@,
            hash: self.hash@,
            data_shift: self.data_shift,
            max_hotzone_size: self.max_hotzone_size,
            device_size: self.device_size,
            luks2: self.luks2@,
            flags: self.flags@,
        }
    }
}

/// The reencryption parameters in the layout of the native library. A pointer of the
/// native structure is held as what it points to.
#[derive(Debug)]
pub struct NativeParamsReencrypt {
    /// The kind of the reencryption, as its native constant.
    pub mode: u32,
    /// The direction, as its native constant.
    pub direction: u32,
    /// The resilience mode.
    pub resilience: Option<NativeText>,
    /// The name of the hash function of the resilience mode.
    pub hash: Option<NativeText>,
    /// The shift of the data, in sectors.
    pub data_shift: u64,
    /// The largest size of the hot zone, in sectors.
    pub max_hotzone_size: u64,
    /// The size of the device, in sectors.
    pub device_size: u64,
    /// The LUKS2 parameters of the new encryption.
    pub luks2: Option<NativeParamsLuks2>,
    /// The flags of the reencryption, as one flag word.
    pub flags: u32,
}

/// The native reencryption parameters as a mathematical value.
pub ghost struct NativeParamsReencryptView {
    pub mode: u32,
    pub direction: u32,
    pub resilience: Option<Seq<u8>>,
    pub hash: Option<Seq<u8>>,
    pub data_shift: u64,
    pub max_hotzone_size: u64,
    pub device_size: u64,
    pub luks2: Option<NativeParamsLuks2View>,
    pub flags: u32,
}

impl View for NativeParamsReencrypt {
    type V = NativeParamsReencryptView;

    open spec fn view(&self) -> NativeParamsReencryptView {
        NativeParamsReencryptView {
            mode: self.mode,
            direction: self.direction,
            resilience: opt_native(self.resilience),
            hash: opt_native(self.hash),
            data_shift: self.data_shift,
            max_hotzone_size: self.max_hotzone_size,
            device_size: self.device_size,
            luks2: match self.luks2 {
                None => None,
                Some(p) => Some(p@),
            },
            flags: self.flags,
        }
    }
}

impl CryptParamsReencryptView {
    /// The native form of the parameters. The LUKS2 parameters are materialized first, then
    /// the resilience mode and the hash name; the first piece that cannot be marshalled
    /// decides the failure.
    pub open spec fn to_native(self) -> Result<NativeParamsReencryptView, LibcryptErr> {
        let luks2 = self.luks2.to_native();
        let resilience = marshal_spec(encode_utf8(self.resilience));
        let hash = marshal_spec(encode_utf8(self.hash));
        if luks2 is Err {
            Err(luks2->Err_0)
        } else if resilience is Err {
            Err(resilience->Err_0)
        } else if hash is Err {
            Err(hash->Err_0)
        } else {
            Ok(
                NativeParamsReencryptView {
                    mode: self.mode.native(),
                    direction: self.direction.native(),
                    resilience: Some(resilience->Ok_0),
                    hash: Some(hash->Ok_0),
                    data_shift: self.data_shift,
                    max_hotzone_size: self.max_hotzone_size,
                    device_size: self.device_size,
                    luks2: Some(luks2->Ok_0),
                    flags: union_of(self.flags),
                },
            )
        }
    }
}

/// Reencryption parameters materialized for one native call, together with the parameters
/// they were made from. The materialized LUKS2 parameters are a part of this value.
#[derive(Debug)]
pub struct CryptParamsReencryptRef<'a> {
    /// The parameters in the layout of the native library.
    pub inner: NativeParamsReencrypt,
    /// The parameters that the materialized form was made from.
    pub reference: &'a CryptParamsReencrypt,
}

impl CryptParamsReencrypt {
    /// Materializes the parameters in the layout of the native library, bottom-up: the
    /// LUKS2 parameters first, then the texts, and the native structure last.
    pub fn try_into<'a>(&'a self) -> (r: Result<CryptParamsReencryptRef<'a>, LibcryptErr>)
        ensures
            match r {
                Ok(m) => self@.to_native() == Ok::<NativeParamsReencryptView, LibcryptErr>(
                    m.inner@,
                ) && m.reference == self,
                Err(e) => self@.to_native() == Err::<NativeParamsReencryptView, LibcryptErr>(e),
            },
    {
        let luks2 = match CryptParamsLuks2::try_into(&self.luks2) {
            Ok(m) => m.inner,
            Err(e) => {
                return Err(e);
            },
        };
        let resilience = match to_cstring(self.resilience.as_str()) {
            Ok(c) => c,
            Err(e) => {
                return Err(e);
            },
        };
        let hash = match to_cstring(self.hash.as_str()) {
            Ok(c) => c,
            Err(e) => {
                return Err(e);
            },
        };
        let inner = NativeParamsReencrypt {
            mode: u32::from(self.mode),
            direction: u32::from(self.direction),
            resilience: Some(resilience),
            hash: Some(hash),
            data_shift: self.data_shift,
            max_hotzone_size: self.max_hotzone_size,
            device_size: self.device_size,
            luks2: Some(luks2),
            flags: self.flags.bits(),
        };
        Ok(CryptParamsReencryptRef { inner, reference: self })
    }
}

} // verus!
