//! The attributes of an active mapping.

use vstd::prelude::*;

use crate::activate::{CryptActivateFlag, CryptActivateFlags};
use crate::err::LibcryptErr;
use crate::flags::decode_spec;

verus! {

/// The attributes of an active mapping.
#[derive(Debug)]
pub struct ActiveDevice {
    /// The offset of the data on the underlying device, in sectors.
    pub offset: u64,
    /// The offset of the initialization vectors, in sectors.
    pub iv_offset: u64,
    /// The size of the mapping, in sectors.
    pub size: u64,
    /// The flags that the mapping was activated with.
    pub flags: CryptActivateFlags,
}

/// The attributes of an active mapping in the layout of the native library.
#[derive(Debug, Clone, Copy)]
pub struct NativeActiveDevice {
    /// The offset of the data on the underlying device, in sectors.
    pub offset: u64,
    /// The offset of the initialization vectors, in sectors.
    pub iv_offset: u64,
    /// The size of the mapping, in sectors.
    pub size: u64,
    /// The activation flags, as one flag word.
    pub flags: u32,
}

impl ActiveDevice {
    /// Reads the attributes out of a native structure. Fails with a conversion error
    /// exactly when the flag word holds a bit that belongs to no activation flag.
    pub fn try_from(v: &NativeActiveDevice) -> (r: Result<ActiveDevice, LibcryptErr>)
        ensures
            match r {
                Ok(d) => decode_spec::<CryptActivateFlag>(v.flags) == Some(d.flags@) && d.offset
                    == v.offset && d.iv_offset == v.iv_offset && d.size == v.size,
                Err(e) => e is InvalidConversion && decode_spec::<CryptActivateFlag>(v.flags)
                    is None,
            },
    {
        match CryptActivateFlags::try_from(v.flags) {
            Ok(flags) => Ok(
                ActiveDevice { offset: v.offset, iv_offset: v.iv_offset, size: v.size, flags },
            ),
            Err(e) => Err(e),
        }
    }
}

} // verus!
