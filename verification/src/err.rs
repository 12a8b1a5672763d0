//! The failure kinds of the boundary layer, and the translation of native return codes.

use vstd::prelude::*;

verus! {

/// The error of the UUID parser of the `uuid` crate, carried as it is.
#[verifier::external_type_specification]
#[verifier::external_body]
pub struct ExUuidParseError(uuid::parser::ParseError);

/// The error of the UTF-8 check of the standard library, carried as it is.
#[verifier::external_type_specification]
#[verifier::external_body]
pub struct ExUtf8Error(std::str::Utf8Error);

/// The error of the `serde_json` crate, carried as it is.
#[verifier::external_type_specification]
#[verifier::external_body]
pub struct ExJsonError(serde_json::Error);

/// Error returned from any operation of this library.
#[derive(Debug)]
pub enum LibcryptErr {
    /// The native call failed with an operating-system error. Holds the error number, that is
    /// the negated return code of the call.
    IOError(i32),
    /// The text handed back by the native library is no UUID.
    UuidError(uuid::parser::ParseError),
    /// A text value holds an embedded terminator byte and has no null-terminated form. Holds
    /// the position of the first such byte.
    NullError(usize),
    /// Bytes handed back by the native library are not valid UTF-8 text.
    Utf8Error(std::str::Utf8Error),
    /// A token document could not be encoded or decoded as JSON.
    JsonError(serde_json::Error),
    /// A value has no counterpart on the other side of the boundary.
    InvalidConversion,
    /// The native library returned a null pointer where a value was required.
    NullPtr,
    /// A name that has to end in a terminator byte does not.
    NoNull(&'static str),
}

/// What `errno` answers on a return code that is zero or negative.
pub open spec fn errno_spec(rc: i32) -> Result<(), LibcryptErr> {
    if rc < 0 {
        Err(LibcryptErr::IOError((-rc) as i32))
    } else {
        Ok(())
    }
}

/// What `errno_int_success` answers on a return code.
pub open spec fn errno_int_success_spec(rc: i32) -> Result<i32, LibcryptErr> {
    if rc < 0 {
        Err(LibcryptErr::IOError((-rc) as i32))
    } else {
        Ok(rc)
    }
}

/// Translates the return code of a native call that reports success as zero.
///
/// A negative code becomes an operating-system error that carries the code's magnitude.
/// A positive code is outside the native contract and is not accepted here.
pub fn errno(rc: i32) -> (r: Result<(), LibcryptErr>)
    requires
        i32::MIN < rc <= 0,
    ensures
        r == errno_spec(rc),
{
    if rc < 0 {
        Err(LibcryptErr::IOError(-rc))
    } else {
        Ok(())
    }
}

/// Translates the return code of a native call that reports success as a non-negative value.
///
/// A negative code becomes an operating-system error that carries the code's magnitude;
/// any other code is handed back unchanged.
pub fn errno_int_success(rc: i32) -> (r: Result<i32, LibcryptErr>)
    requires
        i32::MIN < rc,
    ensures
        r == errno_int_success_spec(rc),
{
    if rc < 0 {
        Err(LibcryptErr::IOError(-rc))
    } else {
        Ok(rc)
    }
}

/// Turns a pointer that may be null, held as an optional value, into a result.
pub fn ptr_to_result<T>(ptr: Option<T>) -> (r: Result<T, LibcryptErr>)
    ensures
        r == match ptr {
            Some(p) => Ok::<T, LibcryptErr>(p),
            None => Err::<T, LibcryptErr>(LibcryptErr::NullPtr),
        },
{
    match ptr {
        Some(p) => Ok(p),
        None => Err(LibcryptErr::NullPtr),
    }
}

/// What `errno_uint_success` answers on a return code.
pub open spec fn errno_uint_success_spec(rc: i32) -> Result<u32, LibcryptErr> {
    if rc < 0 {
        Err(LibcryptErr::IOError((-rc) as i32))
    } else {
        Ok(rc as u32)
    }
}

/// Translates the return code of a native call that reports success as the number of a key
/// slot or of a token: a negative code becomes an operating-system error that carries the
/// code's magnitude, any other code is the number.
pub fn errno_uint_success(rc: i32) -> (r: Result<u32, LibcryptErr>)
    requires
        i32::MIN < rc,
    ensures
        r == errno_uint_success_spec(rc),
{
    if rc < 0 {
        Err(LibcryptErr::IOError(-rc))
    } else {
        Ok(rc as u32)
    }
}

} // verus!
