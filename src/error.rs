use vstd::prelude::*;

verus! {

/// Code for a request that names a bad address or an unknown command.
pub const ADDRESS_INVALID: u32 = 1;

/// Code for a page erase or a program that the flash controller refused.
pub const OPERATION_FAILED: u32 = 2;

/// Code for a mass erase that the flash controller refused.
pub const MASS_ERASE_FAILED: u32 = 0x70d0;

/// A nonzero numeric error code handed back to the host.
#[derive(Clone, Copy, Debug, PartialEq, Eq, Structural)]
pub struct ErrorCode {
    code: u32,
}

impl ErrorCode {
    /// The numeric value of the code.
    pub closed spec fn value(self) -> u32 {
        self.code
    }

    /// Makes a code from a number; zero is no error code.
    pub fn new(code: u32) -> (r: Option<ErrorCode>)
        ensures
            r.is_some() == (code != 0),
            r matches Some(e) ==> e.value() == code,
    {
        if code == 0 {
            None
        } else {
            Some(ErrorCode { code })
        }
    }

    /// The numeric value of the code, never zero for a code made by `new`.
    pub fn get(&self) -> (r: u32)
        ensures
            r == self.value(),
    {
        self.code
    }

    pub(crate) fn address_invalid() -> (r: ErrorCode)
        ensures
            r.value() == ADDRESS_INVALID,
    {
        ErrorCode { code: ADDRESS_INVALID }
    }

    pub(crate) fn operation_failed() -> (r: ErrorCode)
        ensures
            r.value() == OPERATION_FAILED,
    {
        ErrorCode { code: OPERATION_FAILED }
    }

    pub(crate) fn mass_erase_failed() -> (r: ErrorCode)
        ensures
            r.value() == MASS_ERASE_FAILED,
    {
        ErrorCode { code: MASS_ERASE_FAILED }
    }
}

} // verus!
