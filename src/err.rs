use vstd::prelude::*;

verus! {

/// Errors reported by the status queries.
#[derive(Debug, Clone, Copy, PartialEq, Eq, Structural)]
pub enum LibcryptErr {
    /// An integer code from the engine matches no known enumerant.
    InvalidConversion,
    /// The engine reported a negative result; the payload is the OS error number.
    SystemError(u32),
    /// Text from the engine is not a valid UUID.
    UuidError,
    /// A raw parameter record is inconsistent: a length mismatch, a missing
    /// mandatory field or text that is not UTF-8.
    DecodeError,
}

/// The OS error number reported for a mandatory text field that the engine
/// left null or filled with bytes that are not UTF-8.
pub const EINVAL: u32 = 22;

/// What a raw engine result means: success when it is zero or more, otherwise
/// the negated OS error number.
pub open spec fn errno_spec(rc: i32) -> Result<(), LibcryptErr> {
    if rc < 0 {
        Err(LibcryptErr::SystemError((-rc) as u32))
    } else {
        Ok(())
    }
}

/// Translates the result of an engine call that returns no value.
pub fn errno(rc: i32) -> (r: Result<(), LibcryptErr>)
    ensures
        r == errno_spec(rc),
        rc >= 0 ==> r is Ok,
        rc < 0 ==> (r matches Err(LibcryptErr::SystemError(c)) && c as int == -(rc as int)),
{
    if rc < 0 {
        let code: u32 = (-(rc as i64)) as u32;
        Err(LibcryptErr::SystemError(code))
    } else {
        Ok(())
    }
}

} // verus!
