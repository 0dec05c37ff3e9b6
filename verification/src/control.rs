//! The control-channel protocol: codes and dispatch.
//!
//! A device-control request carries a 32-bit code and a raw input buffer.
//! The codes are built the way the platform composes them: device type,
//! required access and transfer method in the high bits, a per-function
//! ordinal shifted into the low bits.  Dispatch decodes the payload where
//! one is expected, mutates the registry, and reports success or an
//! invalid-request outcome; every request completes synchronously.

use vstd::prelude::*;

use crate::codec::decode_utf16_payload;
use crate::codec::decode_utf8_payload;
use crate::codec::strip_nul_u16;
use crate::codec::strip_nul_u8;
use crate::codec::utf16_lossy;
use crate::codec::utf8_lossy;
use crate::codec::words_of;
use crate::registry::push_model;
use crate::registry::ProtectedNameRegistry;

verus! {

/// Add a protected name given as UTF-8 bytes.  Device type 0x8000 in the
/// high half, function ordinal 0x800 shifted left by the two method bits.
pub const IOCTL_DELPROTECT_ADD_EXE_UTF8: u32 = 0x80002000;

/// Add a protected name given as UTF-16 code units (function 0x801).
pub const IOCTL_DELPROTECT_ADD_EXE_UTF16: u32 = 0x80002004;

/// Remove one protected name (function 0x802).  Reserved: the code is
/// accepted, but no selective removal is performed.
pub const IOCTL_DELPROTECT_REMOVE_EXE_UTF8: u32 = 0x80002008;

/// Empty the registry (function 0x803).
pub const IOCTL_DELPROTECT_CLEAR: u32 = 0x8000200C;

/// The synchronous outcome of one control request.
#[derive(Clone, Copy, Debug, PartialEq, Eq, Structural)]
pub enum ControlStatus {
    /// The request was recognized and fully applied.
    Success,
    /// The code is not part of the protocol; nothing was mutated.
    InvalidRequest,
}

/// Apply one control request to the registry.
///
/// An add request (either encoding) decodes its payload — one trailing
/// terminator stripped, the text reconstructed lossily — and pushes the
/// result at the registry tail, evicting the oldest entry first at
/// capacity.  Clear empties the registry.  The remove code is accepted
/// but performs nothing (reserved).  Any other code is rejected with no
/// effect.
pub fn dispatch_device_control(
    registry: &mut ProtectedNameRegistry,
    code: u32,
    payload: &Vec<u8>,
) -> (status: ControlStatus)
    requires
        old(registry).wf(),
    ensures
        final(registry).wf(),
        code == IOCTL_DELPROTECT_ADD_EXE_UTF8 ==> {
            &&& status == ControlStatus::Success
            &&& final(registry)@ =~= push_model(
                old(registry)@,
                utf8_lossy(strip_nul_u8(payload@)),
            )
        },
        code == IOCTL_DELPROTECT_ADD_EXE_UTF16 ==> {
            &&& status == ControlStatus::Success
            &&& final(registry)@ =~= push_model(
                old(registry)@,
                utf16_lossy(strip_nul_u16(words_of(payload@))),
            )
        },
        code == IOCTL_DELPROTECT_CLEAR ==> {
            &&& status == ControlStatus::Success
            &&& final(registry)@.len() == 0
        },
        code == IOCTL_DELPROTECT_REMOVE_EXE_UTF8 ==> {
            &&& status == ControlStatus::Success
            &&& final(registry)@ == old(registry)@
        },
        code != IOCTL_DELPROTECT_ADD_EXE_UTF8 && code != IOCTL_DELPROTECT_ADD_EXE_UTF16
            && code != IOCTL_DELPROTECT_CLEAR && code != IOCTL_DELPROTECT_REMOVE_EXE_UTF8 ==> {
            &&& status == ControlStatus::InvalidRequest
            &&& final(registry)@ == old(registry)@
        },
{
    if code == IOCTL_DELPROTECT_ADD_EXE_UTF8 {
        let name = decode_utf8_payload(payload);
        registry.push_item(name);
        ControlStatus::Success
    } else if code == IOCTL_DELPROTECT_ADD_EXE_UTF16 {
        let name = decode_utf16_payload(payload);
        registry.push_item(name);
        ControlStatus::Success
    } else if code == IOCTL_DELPROTECT_CLEAR {
        registry.clear();
        ControlStatus::Success
    } else if code == IOCTL_DELPROTECT_REMOVE_EXE_UTF8 {
        ControlStatus::Success
    } else {
        ControlStatus::InvalidRequest
    }
}

} // verus!
