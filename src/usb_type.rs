//! Telling PPS from MIPPS by the USB type that the kernel reports.
use vstd::prelude::*;
use crate::text::{chars_of, contains, contains_chars};

verus! {

/// The handshake that a USB type report shows.
#[derive(Clone, Copy, Debug, PartialEq, Eq, Structural)]
pub enum UsbProtocol {
    /// `[PD]` is the active type while `PD_PPS` is still listed: the vendor pseudo-PPS.
    Mipps,
    /// `[PD_PPS]` is the active type: genuine PPS.
    Pps,
    /// Neither of the above.
    Unrecognized,
}

/// The handshake that the report `s` shows; MIPPS is tested first.
pub open spec fn protocol_of(s: Seq<char>) -> UsbProtocol {
    if contains(s, "[PD]"@) && contains(s, "PD_PPS"@) {
        UsbProtocol::Mipps
    } else if contains(s, "[PD_PPS]"@) {
        UsbProtocol::Pps
    } else {
        UsbProtocol::Unrecognized
    }
}

/// Classifies the contents of the USB type node, such as `PD_DRP [PD_PPS] PD`.
pub fn classify_usb_type(content: &str) -> (r: UsbProtocol)
    ensures
        r == protocol_of(content@),
{
    let cs = chars_of(content);
    if contains_chars(&cs, &chars_of("[PD]")) && contains_chars(&cs, &chars_of("PD_PPS")) {
        UsbProtocol::Mipps
    } else if contains_chars(&cs, &chars_of("[PD_PPS]")) {
        UsbProtocol::Pps
    } else {
        UsbProtocol::Unrecognized
    }
}

} // verus!
