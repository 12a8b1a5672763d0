//! Device settings: random source, key derivation, metadata sizes.

use libc::c_int;

use vstd::prelude::*;
use vstd::std_specs::convert::{FromSpecImpl, TryFromSpecImpl};
use vstd::string::*;
use vstd::utf8::*;

use crate::consts::{
    CRYPT_PBKDF_ITER_TIME_SET, CRYPT_PBKDF_NO_BENCHMARK, CRYPT_RNG_RANDOM, CRYPT_RNG_URANDOM,
};
use crate::err::LibcryptErr;
use crate::flags::{
    decode_spec, lemma_variant_of, native_of, union_of, variant_of, FlagSet, NativeFlag,
};
use crate::marshal::{
    bytes_eq, lemma_ascii_name, marshal_spec, name_to_cstring, opt_native, read_text,
    read_text_spec, to_cstring, NativeText,
};

verus! {

/// The random number source for key material.
#[derive(Debug, PartialEq, Eq, Structural, Clone, Copy)]
pub enum CryptRngFlag {
    /// The non-blocking source.
    Urandom,
    /// The blocking source.
    Random,
}

impl CryptRngFlag {
    /// The native constant of the variant.
    pub open spec fn native(self) -> u32 {
        match self {
            CryptRngFlag::Urandom => CRYPT_RNG_URANDOM,
            CryptRngFlag::Random => CRYPT_RNG_RANDOM,
        }
    }

    /// The variant of a native constant, or a conversion error where the constant has none.
    pub open spec fn of_native(v: u32) -> Result<Self, LibcryptErr> {
        if v == CRYPT_RNG_URANDOM {
            Ok(CryptRngFlag::Urandom)
        } else if v == CRYPT_RNG_RANDOM {
            Ok(CryptRngFlag::Random)
        } else {
            Err(LibcryptErr::InvalidConversion)
        }
    }

    /// Every variant has a constant that stands for it, and a constant stands for no
    /// variant but the one it belongs to.
    pub proof fn lemma_round_trip(e: Self, v: u32)
        ensures
            Self::of_native(e.native()) == Ok::<Self, LibcryptErr>(e),
            Self::of_native(v) == Ok::<Self, LibcryptErr>(e) ==> e.native() == v,
    {
    }
}

impl From<CryptRngFlag> for u32 {
    fn from(v: CryptRngFlag) -> (r: u32) {
        match v {
            CryptRngFlag::Urandom => CRYPT_RNG_URANDOM,
            CryptRngFlag::Random => CRYPT_RNG_RANDOM,
        }
    }
}

impl FromSpecImpl<CryptRngFlag> for u32 {
    open spec fn obeys_from_spec() -> bool {
        true
    }

    open spec fn from_spec(v: CryptRngFlag) -> u32 {
        v.native()
    }
}

impl TryFrom<u32> for CryptRngFlag {
    type Error = LibcryptErr;

    fn try_from(v: u32) -> (r: Result<Self, LibcryptErr>) {
        if v == CRYPT_RNG_URANDOM {
            Ok(CryptRngFlag::Urandom)
        } else if v == CRYPT_RNG_RANDOM {
            Ok(CryptRngFlag::Random)
        } else {
            Err(LibcryptErr::InvalidConversion)
        }
    }
}

impl TryFromSpecImpl<u32> for CryptRngFlag {
    open spec fn obeys_try_from_spec() -> bool {
        true
    }

    open spec fn try_from_spec(v: u32) -> Result<Self, LibcryptErr> {
        Self::of_native(v)
    }
}

/// One of the flags of a key derivation setting.
#[derive(Debug, PartialEq, Eq, Structural, Clone, Copy)]
pub enum CryptPbkdfFlag {
    /// The iteration time was set by the caller.
    IterTimeSet,
    /// Take the given costs as they are, without a benchmark.
    NoBenchmark,
}

impl NativeFlag for CryptPbkdfFlag {
    open spec fn position(self) -> u32 {
        match self {
            CryptPbkdfFlag::IterTimeSet => 0,
            CryptPbkdfFlag::NoBenchmark => 1,
        }
    }

    fn to_native(self) -> (r: u32) {
        match self {
            CryptPbkdfFlag::IterTimeSet => CRYPT_PBKDF_ITER_TIME_SET,
            CryptPbkdfFlag::NoBenchmark => CRYPT_PBKDF_NO_BENCHMARK,
        }
    }

    fn from_native(v: u32) -> (r: Result<Self, LibcryptErr>) {
        if v == CRYPT_PBKDF_ITER_TIME_SET {
            Ok(CryptPbkdfFlag::IterTimeSet)
        } else if v == CRYPT_PBKDF_NO_BENCHMARK {
            Ok(CryptPbkdfFlag::NoBenchmark)
        } else {
            Err(LibcryptErr::InvalidConversion)
        }
    }

    proof fn lemma_position_in_word(self) {
    }

    proof fn lemma_position_injective(self, other: Self) {
    }
}

impl From<CryptPbkdfFlag> for u32 {
    fn from(v: CryptPbkdfFlag) -> (r: u32) {
        v.to_native()
    }
}

impl FromSpecImpl<CryptPbkdfFlag> for u32 {
    open spec fn obeys_from_spec() -> bool {
        true
    }

    open spec fn from_spec(v: CryptPbkdfFlag) -> u32 {
        native_of(v)
    }
}

impl TryFrom<u32> for CryptPbkdfFlag {
    type Error = LibcryptErr;

    fn try_from(v: u32) -> (r: Result<Self, LibcryptErr>) {
        let r = Self::from_native(v);
        proof {
            if let Ok(f) = r {
                lemma_variant_of(f);
            }
        }
        r
    }
}

impl TryFromSpecImpl<u32> for CryptPbkdfFlag {
    open spec fn obeys_try_from_spec() -> bool {
        true
    }

    open spec fn try_from_spec(v: u32) -> Result<Self, LibcryptErr> {
        variant_of::<Self>(v)
    }
}

/// A set of key derivation flags.
pub type CryptPbkdfFlags = FlagSet<CryptPbkdfFlag>;

/// The key derivation function of a key slot.
#[derive(Debug, PartialEq, Eq, Structural, Clone, Copy)]
pub enum CryptKdf {
    /// PBKDF2.
    Pbkdf2,
    /// Argon2i.
    Argon2I,
    /// Argon2id.
    Argon2Id,
}

impl CryptKdf {
    /// The name by which the native library knows the function.
    pub open spec fn name(self) -> Seq<char> {
        match self {
            CryptKdf::Pbkdf2 => "pbkdf2"@,
            CryptKdf::Argon2I => "argon2i"@,
            CryptKdf::Argon2Id => "argon2id"@,
        }
    }

    /// The function that a native name stands for, or a conversion error where the name
    /// stands for none.
    pub open spec fn of_name(name: Seq<u8>) -> Result<Self, LibcryptErr> {
        if name == encode_utf8("pbkdf2"@) {
            Ok(CryptKdf::Pbkdf2)
        } else if name == encode_utf8("argon2i"@) {
            Ok(CryptKdf::Argon2I)
        } else if name == encode_utf8("argon2id"@) {
            Ok(CryptKdf::Argon2Id)
        } else {
            Err(LibcryptErr::InvalidConversion)
        }
    }

    /// The names are made of ASCII letters and digits, and no two are the same.
    pub proof fn lemma_names()
        ensures
            forall|k: Self| !(#[trigger] encode_utf8(k.name())).contains(0u8),
            forall|k: Self| Self::of_name(#[trigger] encode_utf8(k.name())) == Ok::<
                Self,
                LibcryptErr,
            >(k),
    {
        reveal_strlit("pbkdf2");
        reveal_strlit("argon2i");
        reveal_strlit("argon2id");
        lemma_ascii_name("pbkdf2");
        lemma_ascii_name("argon2i");
        lemma_ascii_name("argon2id");
        assert("pbkdf2"@.len() == 6);
        assert("argon2i"@.len() == 7);
        assert("argon2id"@.len() == 8);
        encode_utf8_decode_utf8("pbkdf2"@);
        encode_utf8_decode_utf8("argon2i"@);
        encode_utf8_decode_utf8("argon2id"@);
    }

    /// Gives the name by which the native library knows the function.
    pub fn as_str(&self) -> (r: &'static str)
        ensures
            r@ == self.name(),
    {
        match self {
            CryptKdf::Pbkdf2 => "pbkdf2",
            CryptKdf::Argon2I => "argon2i",
            CryptKdf::Argon2Id => "argon2id",
        }
    }

    /// Gives the native name of the function in its null-terminated form.
    pub fn as_ptr(&self) -> (r: NativeText)
        ensures
            r@ == encode_utf8(self.name()),
    {
        proof {
            Self::lemma_names();
        }
        name_to_cstring(self.as_str())
    }

    /// Finds the function that a native name stands for. Fails with a conversion error
    /// where the name is none of the known names.
    pub fn from_ptr(ptr: &NativeText) -> (r: Result<Self, LibcryptErr>)
        ensures
            r == Self::of_name(ptr@),
    {
        let name = ptr.as_bytes();
        if bytes_eq(name, "pbkdf2".as_bytes()) {
            Ok(CryptKdf::Pbkdf2)
        } else if bytes_eq(name, "argon2i".as_bytes()) {
            Ok(CryptKdf::Argon2I)
        } else if bytes_eq(name, "argon2id".as_bytes()) {
            Ok(CryptKdf::Argon2Id)
        } else {
            Err(LibcryptErr::InvalidConversion)
        }
    }
}

/// The key derivation settings of a key slot.
#[derive(Debug)]
pub struct CryptPbkdfType {
    /// The key derivation function.
    pub type_: CryptKdf,
    /// The name of the hash function.
    pub hash: String,
    /// The time that one derivation is meant to take, in milliseconds.
    pub time_ms: u32,
    /// The number of iterations.
    pub iterations: u32,
    /// The memory cost, in kilobytes.
    pub max_memory_kb: u32,
    /// The number of threads.
    pub parallel_threads: u32,
    /// The flags of the setting.
    pub flags: CryptPbkdfFlags,
}

/// The key derivation settings as a mathematical value.
pub ghost struct CryptPbkdfTypeView {
    pub type_: CryptKdf,
    pub hash: Seq<char>,
    pub time_ms: u32,
    pub iterations: u32,
    pub max_memory_kb: u32,
    pub parallel_threads: u32,
    pub flags: Seq<CryptPbkdfFlag>,
}

impl View for CryptPbkdfType {
    type V = CryptPbkdfTypeView;

    open spec fn view(&self) -> CryptPbkdfTypeView {
        CryptPbkdfTypeView {
            type_: self.type_,
            hash: self.hash@,
            time_ms: self.time_ms,
            iterations: self.iterations,
            max_memory_kb: self.max_memory_kb,
            parallel_threads: self.parallel_threads,
            flags: self.flags@,
        }
    }
}

/// The key derivation settings in the layout of the native library. A pointer of the native
/// structure is held as the buffer it points to, a null pointer as an absent buffer.
#[derive(Debug)]
pub struct NativePbkdfType {
    /// The name of the key derivation function.
    pub type_: Option<NativeText>,
    /// The name of the hash function.
    pub hash: Option<NativeText>,
    /// The time that one derivation is meant to take, in milliseconds.
    pub time_ms: u32,
    /// The number of iterations.
    pub iterations: u32,
    /// The memory cost, in kilobytes.
    pub max_memory_kb: u32,
    /// The number of threads.
    pub parallel_threads: u32,
    /// The flags of the setting, as one flag word.
    pub flags: u32,
}

/// The native key derivation settings as a mathematical value.
pub ghost struct NativePbkdfTypeView {
    pub type_: Option<Seq<u8>>,
    pub hash: Option<Seq<u8>>,
    pub time_ms: u32,
    pub iterations: u32,
    pub max_memory_kb: u32,
    pub parallel_threads: u32,
    pub flags: u32,
}

impl NativePbkdfType {
    /// The mathematical value of an optional native structure.
    pub open spec fn opt_view(settings: Option<Self>) -> Option<NativePbkdfTypeView> {
        match settings {
            None => None,
            Some(p) => Some(p@),
        }
    }
}

impl View for NativePbkdfType {
    type V = NativePbkdfTypeView;

    open spec fn view(&self) -> NativePbkdfTypeView {
        NativePbkdfTypeView {
            type_: opt_native(self.type_),
            hash: opt_native(self.hash),
            time_ms: self.time_ms,
            iterations: self.iterations,
            max_memory_kb: self.max_memory_kb,
            parallel_threads: self.parallel_threads,
            flags: self.flags,
        }
    }
}

impl CryptPbkdfTypeView {
    /// The native form of the settings: every text marshalled, the flags as one word. The
    /// only failure is a hash name that holds a terminator byte.
    pub open spec fn to_native(self) -> Result<NativePbkdfTypeView, LibcryptErr> {
        match marshal_spec(encode_utf8(self.hash)) {
            Err(e) => Err(e),
            Ok(hash) => Ok(
                NativePbkdfTypeView {
                    type_: Some(encode_utf8(self.type_.name())),
                    hash: Some(hash),
                    time_ms: self.time_ms,
                    iterations: self.iterations,
                    max_memory_kb: self.max_memory_kb,
                    parallel_threads: self.parallel_threads,
                    flags: union_of(self.flags),
                },
            ),
        }
    }
}

impl CryptPbkdfTypeView {
    /// The native form of optional settings: absent settings stay absent.
    pub open spec fn opt_to_native(settings: Option<Self>) -> Result<
        Option<NativePbkdfTypeView>,
        LibcryptErr,
    > {
        match settings {
            None => Ok(None),
            Some(p) => match p.to_native() {
                Ok(n) => Ok(Some(n)),
                Err(e) => Err(e),
            },
        }
    }
}

impl NativePbkdfTypeView {
    /// The settings behind a pointer that may be null.
    pub open spec fn opt_to_owned(settings: Option<Self>) -> Result<
        Option<CryptPbkdfTypeView>,
        LibcryptErr,
    > {
        match settings {
            None => Ok(None),
            Some(p) => match p.to_owned() {
                Ok(n) => Ok(Some(n)),
                Err(e) => Err(e),
            },
        }
    }

    /// The settings that a native structure holds. The fields are read in the order of the
    /// structure, and the first one that cannot be read decides the failure: a null pointer,
    /// a name that stands for no function, text that is no UTF-8, a flag word with an
    /// unknown bit.
    pub open spec fn to_owned(self) -> Result<CryptPbkdfTypeView, LibcryptErr> {
        if self.type_ is None {
            Err(LibcryptErr::NullPtr)
        } else if CryptKdf::of_name(self.type_->0) is Err {
            Err(LibcryptErr::InvalidConversion)
        } else if read_text_spec(self.hash) is Err {
            Err(read_text_spec(self.hash)->Err_0)
        } else if decode_spec::<CryptPbkdfFlag>(self.flags) is None {
            Err(LibcryptErr::InvalidConversion)
        } else {
            Ok(
                CryptPbkdfTypeView {
                    type_: CryptKdf::of_name(self.type_->0)->Ok_0,
                    hash: read_text_spec(self.hash)->Ok_0,
                    time_ms: self.time_ms,
                    iterations: self.iterations,
                    max_memory_kb: self.max_memory_kb,
                    parallel_threads: self.parallel_threads,
                    flags: decode_spec::<CryptPbkdfFlag>(self.flags)->0,
                },
            )
        }
    }
}

impl CryptPbkdfType {
    /// The mathematical value of optional settings.
    pub open spec fn opt_view(settings: Option<Self>) -> Option<CryptPbkdfTypeView> {
        match settings {
            None => None,
            Some(p) => Some(p@),
        }
    }

    /// Reads the settings out of a native structure.
    pub fn try_from(v: &NativePbkdfType) -> (r: Result<CryptPbkdfType, LibcryptErr>)
        ensures
            match r {
                Ok(p) => v@.to_owned() == Ok::<CryptPbkdfTypeView, LibcryptErr>(p@),
                Err(e) => v@.to_owned() == Err::<CryptPbkdfTypeView, LibcryptErr>(e),
            },
    {
        let type_ = match &v.type_ {
            None => {
                return Err(LibcryptErr::NullPtr);
            },
            Some(name) => match CryptKdf::from_ptr(name) {
                Ok(k) => k,
                Err(e) => {
                    return Err(e);
                },
            },
        };
        let hash = match read_text(&v.hash) {
            Ok(h) => h,
            Err(e) => {
                return Err(e);
            },
        };
        let flags = match CryptPbkdfFlags::try_from(v.flags) {
            Ok(f) => f,
            Err(e) => {
                return Err(e);
            },
        };
        Ok(
            CryptPbkdfType {
                type_,
                hash,
                time_ms: v.time_ms,
                iterations: v.iterations,
                max_memory_kb: v.max_memory_kb,
                parallel_threads: v.parallel_threads,
                flags,
            },
        )
    }

    /// Materializes the settings in the layout of the native library. The result keeps the
    /// buffers that its pointers stand for, so they live as long as the result does.
    pub fn try_into<'a>(&'a self) -> (r: Result<CryptPbkdfTypeRef<'a>, LibcryptErr>)
        ensures
            match r {
                Ok(m) => self@.to_native() == Ok::<NativePbkdfTypeView, LibcryptErr>(m.inner@)
                    && m.reference == self,
                Err(e) => self@.to_native() == Err::<NativePbkdfTypeView, LibcryptErr>(e),
            },
    {
        let hash = match to_cstring(self.hash.as_str()) {
            Ok(h) => h,
            Err(e) => {
                return Err(e);
            },
        };
        let inner = NativePbkdfType {
            type_: Some(self.type_.as_ptr()),
            hash: Some(hash),
            time_ms: self.time_ms,
            iterations: self.iterations,
            max_memory_kb: self.max_memory_kb,
            parallel_threads: self.parallel_threads,
            flags: self.flags.bits(),
        };
        Ok(CryptPbkdfTypeRef { inner, reference: self })
    }
}

/// Key derivation settings materialized for one native call, together with the settings
/// they were made from.
#[derive(Debug)]
pub struct CryptPbkdfTypeRef<'a> {
    /// The settings in the layout of the native library.
    pub inner: NativePbkdfType,
    /// The settings that the materialized form was made from.
    pub reference: &'a CryptPbkdfType,
}

/// The version of the LUKS format.
#[derive(Debug, PartialEq, Eq, Structural, Clone, Copy)]
pub enum LuksType {
    /// LUKS, version 1.
    Luks1,
    /// LUKS, version 2.
    Luks2,
}

impl LuksType {
    /// The name by which the native library knows the version.
    pub open spec fn name(self) -> Seq<char> {
        match self {
            LuksType::Luks1 => "LUKS1"@,
            LuksType::Luks2 => "LUKS2"@,
        }
    }

    /// Gives the native name of the version in its null-terminated form.
    pub fn as_ptr(&self) -> (r: NativeText)
        ensures
            r@ == encode_utf8(self.name()),
    {
        proof {
            reveal_strlit("LUKS1");
            reveal_strlit("LUKS2");
            lemma_ascii_name("LUKS1");
            lemma_ascii_name("LUKS2");
        }
        match self {
            LuksType::Luks1 => name_to_cstring("LUKS1"),
            LuksType::Luks2 => name_to_cstring("LUKS2"),
        }
    }
}

/// The state of the memory lock.
#[derive(Debug, PartialEq, Eq, Structural, Clone, Copy)]
pub enum LockState {
    /// The memory of the process is not locked.
    Unlocked,
    /// The memory of the process is locked.
    Locked,
}

impl From<c_int> for LockState {
    fn from(v: c_int) -> (r: LockState) {
        if v == 0 {
            LockState::Unlocked
        } else {
            LockState::Locked
        }
    }
}

impl FromSpecImpl<c_int> for LockState {
    open spec fn obeys_from_spec() -> bool {
        true
    }

    open spec fn from_spec(v: c_int) -> LockState {
        if v == 0 {
            LockState::Unlocked
        } else {
            LockState::Locked
        }
    }
}

impl From<LockState> for c_int {
    fn from(v: LockState) -> (r: c_int) {
        match v {
            LockState::Unlocked => 0,
            LockState::Locked => 1,
        }
    }
}

impl FromSpecImpl<LockState> for c_int {
    open spec fn obeys_from_spec() -> bool {
        true
    }

    open spec fn from_spec(v: LockState) -> c_int {
        match v {
            LockState::Unlocked => 0,
            LockState::Locked => 1,
        }
    }
}

/// The size of the metadata area of a header.
#[derive(Debug, PartialEq, Eq, Structural, Clone, Copy)]
pub enum MetadataSize {
    /// 16 kilobytes.
    Kb16,
    /// 32 kilobytes.
    Kb32,
    /// 64 kilobytes.
    Kb64,
    /// 128 kilobytes.
    Kb128,
    /// 256 kilobytes.
    Kb256,
    /// 512 kilobytes.
    Kb512,
    /// 1024 kilobytes.
    Kb1024,
    /// 2048 kilobytes.
    Kb2048,
    /// 4096 kilobytes.
    Kb4096,
}

impl MetadataSize {
    /// The size in bytes.
    pub open spec fn bytes(self) -> u64 {
        match self {
            MetadataSize::Kb16 => 0x4_000,
            MetadataSize::Kb32 => 0x8_000,
            MetadataSize::Kb64 => 0x10_000,
            MetadataSize::Kb128 => 0x20_000,
            MetadataSize::Kb256 => 0x40_000,
            MetadataSize::Kb512 => 0x80_000,
            MetadataSize::Kb1024 => 0x100_000,
            MetadataSize::Kb2048 => 0x200_000,
            MetadataSize::Kb4096 => 0x400_000,
        }
    }

    /// The size that a number of bytes stands for, or a conversion error where the number
    /// is none of the sizes.
    pub open spec fn of_bytes(v: u64) -> Result<Self, LibcryptErr> {
        if v == 0x4_000 {
            Ok(MetadataSize::Kb16)
        } else if v == 0x8_000 {
            Ok(MetadataSize::Kb32)
        } else if v == 0x10_000 {
            Ok(MetadataSize::Kb64)
        } else if v == 0x20_000 {
            Ok(MetadataSize::Kb128)
        } else if v == 0x40_000 {
            Ok(MetadataSize::Kb256)
        } else if v == 0x80_000 {
            Ok(MetadataSize::Kb512)
        } else if v == 0x100_000 {
            Ok(MetadataSize::Kb1024)
        } else if v == 0x200_000 {
            Ok(MetadataSize::Kb2048)
        } else if v == 0x400_000 {
            Ok(MetadataSize::Kb4096)
        } else {
            Err(LibcryptErr::InvalidConversion)
        }
    }

    /// Every size is the size that its number of bytes stands for, and a number of bytes
    /// stands for no size but the one with that number.
    pub proof fn lemma_round_trip(size: Self, v: u64)
        ensures
            Self::of_bytes(size.bytes()) == Ok::<Self, LibcryptErr>(size),
            Self::of_bytes(v) == Ok::<Self, LibcryptErr>(size) ==> size.bytes() == v,
    {
    }
}

impl TryFrom<u64> for MetadataSize {
    type Error = LibcryptErr;

    fn try_from(v: u64) -> (r: Result<Self, LibcryptErr>) {
        if v == 0x4_000 {
            Ok(MetadataSize::Kb16)
        } else if v == 0x8_000 {
            Ok(MetadataSize::Kb32)
        } else if v == 0x10_000 {
            Ok(MetadataSize::Kb64)
        } else if v == 0x20_000 {
            Ok(MetadataSize::Kb128)
        } else if v == 0x40_000 {
            Ok(MetadataSize::Kb256)
        } else if v == 0x80_000 {
            Ok(MetadataSize::Kb512)
        } else if v == 0x100_000 {
            Ok(MetadataSize::Kb1024)
        } else if v == 0x200_000 {
            Ok(MetadataSize::Kb2048)
        } else if v == 0x400_000 {
            Ok(MetadataSize::Kb4096)
        } else {
            Err(LibcryptErr::InvalidConversion)
        }
    }
}

impl TryFromSpecImpl<u64> for MetadataSize {
    open spec fn obeys_try_from_spec() -> bool {
        true
    }

    open spec fn try_from_spec(v: u64) -> Result<Self, LibcryptErr> {
        Self::of_bytes(v)
    }
}

impl core::ops::Deref for MetadataSize {
    type Target = u64;

    fn deref(&self) -> (r: &u64)
        ensures
            *r == self.bytes(),
    {
        match *self {
            MetadataSize::Kb16 => &0x4_000,
            MetadataSize::Kb32 => &0x8_000,
            MetadataSize::Kb64 => &0x10_000,
            MetadataSize::Kb128 => &0x20_000,
            MetadataSize::Kb256 => &0x40_000,
            MetadataSize::Kb512 => &0x80_000,
            MetadataSize::Kb1024 => &0x100_000,
            MetadataSize::Kb2048 => &0x200_000,
            MetadataSize::Kb4096 => &0x400_000,
        }
    }
}

/// The size of the key slot area of a header, in bytes: a multiple of 4 kilobytes that is no
/// larger than 128 megabytes.
#[derive(Debug)]
pub struct KeyslotsSize(u64);

impl KeyslotsSize {
    /// True when `v` is a size that a key slot area can have.
    pub open spec fn valid(v: u64) -> bool {
        v <= 0x800_0000 && v % 0x1000 == 0
    }

    /// The size in bytes.
    pub closed spec fn size(self) -> u64 {
        self.0
    }

    #[verifier::type_invariant]
    spec fn well_formed(self) -> bool {
        Self::valid(self.0)
    }

    /// Accepts a number of bytes as the size of a key slot area. Fails with a conversion
    /// error exactly when the number is larger than 128 megabytes or no multiple of
    /// 4 kilobytes.
    pub fn try_from(v: u64) -> (r: Result<Self, LibcryptErr>)
        ensures
            match r {
                Ok(k) => Self::valid(v) && k.size() == v,
                Err(e) => !Self::valid(v) && e is InvalidConversion,
            },
    {
        if v > 0x800_0000 || v % 0x1000 != 0 {
            return Err(LibcryptErr::InvalidConversion);
        }
        Ok(KeyslotsSize(v))
    }
}

impl core::ops::Deref for KeyslotsSize {
    type Target = u64;

    fn deref(&self) -> (r: &u64)
        ensures
            *r == self.size(),
            KeyslotsSize::valid(*r),
    {
        proof {
            use_type_invariant(self);
        }
        &self.0
    }
}

/// Reads the two sizes that the native library reports for a header: the size of the
/// metadata area first, then the size of the key slot area. The first one that is no valid
/// size decides the failure, which is a conversion error.
pub fn metadata_sizes(metadata_size: u64, keyslots_size: u64) -> (r: Result<
    (MetadataSize, KeyslotsSize),
    LibcryptErr,
>)
    ensures
        match r {
            Ok((m, k)) => MetadataSize::of_bytes(metadata_size) == Ok::<MetadataSize, LibcryptErr>(
                m,
            ) && KeyslotsSize::valid(keyslots_size) && k.size() == keyslots_size,
            Err(e) => e is InvalidConversion && (MetadataSize::of_bytes(metadata_size) is Err
                || !KeyslotsSize::valid(keyslots_size)),
        },
{
    let msize = match MetadataSize::try_from(metadata_size) {
        Ok(m) => m,
        Err(e) => {
            return Err(e);
        },
    };
    let ksize = match KeyslotsSize::try_from(keyslots_size) {
        Ok(k) => k,
        Err(e) => {
            return Err(e);
        },
    };
    Ok((msize, ksize))
}

} // verus!
