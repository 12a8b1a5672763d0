//! Safe marshalling layer for the native disk-encryption library.

use vstd::prelude::*;
use vstd::std_specs::convert::FromSpecImpl;

pub use libc::{c_int, c_uint, size_t};

pub mod activate;
pub mod consts;
pub mod debug;
pub mod device;
pub mod err;
pub mod flags;
pub mod format;
pub mod keyfile;
pub mod keyslot;
pub mod log;
pub mod luks2_flags;
pub mod luks2_reencrypt;
pub mod luks2_token;
pub mod marshal;
pub mod runtime;
pub mod settings;
pub mod status;
pub mod wipe;

verus! {

/// A yes or a no, as native code reports it in an integer.
#[derive(Debug, PartialEq, Eq, Structural, Clone, Copy)]
pub enum Bool {
    /// False.
    No,
    /// True.
    Yes,
}

impl From<c_int> for Bool {
    fn from(v: c_int) -> (r: Bool) {
        if v == 0 {
            Bool::No
        } else {
            Bool::Yes
        }
    }
}

impl FromSpecImpl<c_int> for Bool {
    open spec fn obeys_from_spec() -> bool {
        true
    }

    /// Zero is a no, every other value a yes.
    open spec fn from_spec(v: c_int) -> Bool {
        if v == 0 {
            Bool::No
        } else {
            Bool::Yes
        }
    }
}

impl From<Bool> for c_int {
    fn from(v: Bool) -> (r: c_int) {
        match v {
            Bool::No => 0,
            Bool::Yes => 1,
        }
    }
}

impl FromSpecImpl<Bool> for c_int {
    open spec fn obeys_from_spec() -> bool {
        true
    }

    open spec fn from_spec(v: Bool) -> c_int {
        match v {
            Bool::No => 0,
            Bool::Yes => 1,
        }
    }
}

/// The answer of a progress callback: whether the operation is to be interrupted.
#[derive(Debug, PartialEq, Eq, Structural, Clone, Copy)]
pub enum Interrupt {
    /// The operation goes on.
    No,
    /// The operation stops.
    Yes,
}

impl From<c_int> for Interrupt {
    fn from(v: c_int) -> (r: Interrupt) {
        if v == 0 {
            Interrupt::No
        } else {
            Interrupt::Yes
        }
    }
}

impl FromSpecImpl<c_int> for Interrupt {
    open spec fn obeys_from_spec() -> bool {
        true
    }

    /// Zero is a no, every other value a yes.
    open spec fn from_spec(v: c_int) -> Interrupt {
        if v == 0 {
            Interrupt::No
        } else {
            Interrupt::Yes
        }
    }
}

impl From<Interrupt> for c_int {
    fn from(v: Interrupt) -> (r: c_int) {
        match v {
            Interrupt::No => 0,
            Interrupt::Yes => 1,
        }
    }
}

impl FromSpecImpl<Interrupt> for c_int {
    open spec fn obeys_from_spec() -> bool {
        true
    }

    open spec fn from_spec(v: Interrupt) -> c_int {
        match v {
            Interrupt::No => 0,
            Interrupt::Yes => 1,
        }
    }
}

} // verus!
