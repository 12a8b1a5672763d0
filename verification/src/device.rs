//! Values handed to the native library when a device is set up.

use vstd::prelude::*;

verus! {

/// The number of 512-byte sectors in one 4096-byte sector.
pub const SECTORS_PER_BLOCK: u64 = 8;

/// Converts the offset of the data area from 4096-byte sectors, in which callers give it, to
/// the 512-byte sectors that the native library counts in.
pub fn data_offset_sectors(offset: u64) -> (r: u64)
    requires
        offset * SECTORS_PER_BLOCK <= u64::MAX,
    ensures
        r == offset * SECTORS_PER_BLOCK,
{
    offset * SECTORS_PER_BLOCK
}

/// Converts the offset of the data area as `data_offset_sectors` does, where the result
/// fits in 64 bits; gives nothing where it does not.
pub fn checked_data_offset_sectors(offset: u64) -> (r: Option<u64>)
    ensures
        r == if offset * SECTORS_PER_BLOCK <= u64::MAX {
            Some((offset * SECTORS_PER_BLOCK) as u64)
        } else {
            None
        },
{
    if offset <= u64::MAX / SECTORS_PER_BLOCK {
        Some(data_offset_sectors(offset))
    } else {
        None
    }
}

/// The volume key argument of a format call: the key itself, or the length in bytes of a
/// key that the native library is to generate.
#[derive(Debug)]
pub enum VolumeKey<'a> {
    /// The key to use.
    Key(&'a [u8]),
    /// The length of the key to generate, in bytes.
    Length(usize),
}

impl<'a> VolumeKey<'a> {
    /// The buffer and the length that are handed to the native library: the key and its
    /// length, or a null pointer and the length asked for.
    pub fn as_native(&self) -> (r: (Option<&'a [u8]>, usize))
        ensures
            r == match *self {
                VolumeKey::Key(key) => (Some(key), key@.len() as usize),
                VolumeKey::Length(len) => (None::<&[u8]>, len),
            },
    {
        match *self {
            VolumeKey::Key(key) => (Some(key), key.len()),
            VolumeKey::Length(len) => (None, len),
        }
    }
}

} // verus!
