use vstd::prelude::*;

use crate::error::{ErrorCode, ADDRESS_INVALID};

verus! {

/// Lowest address of the window that `verify` reads as commands.
pub const COMMAND_WINDOW_START: u32 = 0xFFFF_F000;

/// Highest address of the command window, included.
pub const COMMAND_WINDOW_END: u32 = 0xFFFF_FFF0;

/// Command address: copy the device's unique identifier out for the host.
pub const READ_DEVICE_UID: u32 = 0xFFFF_F001;

/// Command address: run the on-device self-test.
pub const RUN_SELF_TEST: u32 = 0xFFFF_F002;

/// What a `verify` address asks for.
#[derive(Clone, Copy, Debug, PartialEq, Eq, Structural)]
pub enum VerifyRequest {
    /// An ordinary verification of data at this address.
    Data(u32),
    /// Copy the device unique identifier out.
    ReadDeviceUid,
    /// Run the self-test.
    RunSelfTest,
    /// An address in the command window that names no command.
    Unknown(u32),
}

/// `addr` lies in the reserved command window.
pub open spec fn in_command_window(addr: u32) -> bool {
    COMMAND_WINDOW_START <= addr <= COMMAND_WINDOW_END
}

/// How `verify` reads an address.
pub open spec fn request_of(addr: u32) -> VerifyRequest {
    if !in_command_window(addr) {
        VerifyRequest::Data(addr)
    } else if addr == READ_DEVICE_UID {
        VerifyRequest::ReadDeviceUid
    } else if addr == RUN_SELF_TEST {
        VerifyRequest::RunSelfTest
    } else {
        VerifyRequest::Unknown(addr)
    }
}

/// What `verify` answers to a request. Data verification and both commands
/// are not carried out yet and report success; an unknown command is an
/// address error.
pub open spec fn verify_outcome_ok(req: VerifyRequest) -> bool {
    !(req is Unknown)
}

/// Splits the address space of `verify` into data addresses and commands.
pub fn classify(addr: u32) -> (r: VerifyRequest)
    ensures
        r == request_of(addr),
{
    if addr < COMMAND_WINDOW_START || addr > COMMAND_WINDOW_END {
        VerifyRequest::Data(addr)
    } else if addr == READ_DEVICE_UID {
        VerifyRequest::ReadDeviceUid
    } else if addr == RUN_SELF_TEST {
        VerifyRequest::RunSelfTest
    } else {
        VerifyRequest::Unknown(addr)
    }
}

/// The `verify` entry point. An address outside the command window is a data
/// verification, which does not compare bytes yet and reports success
/// whatever `size` and `data` hold. The two known commands report success
/// without doing their work yet. Any other address of the window fails with
/// `ADDRESS_INVALID`.
pub fn route_verify(address: u32, size: u32, data: Option<&[u8]>) -> (r: Result<(), ErrorCode>)
    ensures
        r is Ok <==> verify_outcome_ok(request_of(address)),
        r is Ok <==> (!in_command_window(address) || address == READ_DEVICE_UID || address
            == RUN_SELF_TEST),
        r matches Err(e) ==> e.value() == ADDRESS_INVALID,
{
    match classify(address) {
        VerifyRequest::Data(_) => Ok(()),
        VerifyRequest::ReadDeviceUid => Ok(()),
        VerifyRequest::RunSelfTest => Ok(()),
        VerifyRequest::Unknown(_) => Err(ErrorCode::address_invalid()),
    }
}

} // verus!
