//! The kernel nodes that the daemon writes, and how a write to one is planned.
use vstd::prelude::*;
use crate::error::FreePPSError;

verus! {

/// Qualcomm PD authentication flag (the kernel spells it "verifed").
pub const PD_VERIFIED_PATH: &'static str = "/sys/class/qcom-battery/pd_verifed";

/// MediaTek USB-PD adapter authentication flag.
pub const PD_ADAPTER_VERIFIED_PATH: &'static str = "/sys/class/Charging_Adapter/pd_adapter/usbpd_verifed";

/// Charging input suspend, written only by the Qualcomm MIPPS pulse.
pub const INPUT_SUSPEND_PATH: &'static str = "/sys/class/power_supply/battery/input_suspend";

/// The USB type that the kernel reports, the active one in brackets.
pub const USB_TYPE_PATH: &'static str = "/sys/class/power_supply/usb/usb_type";

/// What a write of "1"/"0" to a node comes to: the write itself when the node exists,
/// else a warning and success, so that a device lacking one platform's node keeps working.
#[derive(Clone, Copy, Debug, PartialEq, Eq)]
pub enum SysfsWrite {
    Write { path: &'static str, value: &'static str },
    Missing { path: &'static str },
}

/// The text written for a flag.
pub open spec fn flag_text(enable: bool) -> Seq<char> {
    if enable { "1"@ } else { "0"@ }
}

/// The text written for a flag.
pub fn flag_value(enable: bool) -> (r: &'static str)
    ensures
        r@ == flag_text(enable),
{
    if enable { "1" } else { "0" }
}

/// The plan for writing `enable` to the node at `path`, given whether it exists.
pub open spec fn write_plan(w: SysfsWrite, path: &'static str, enable: bool, node_exists: bool) -> bool {
    if node_exists {
        w matches SysfsWrite::Write { path: p, value: v } && p == path && v@ == flag_text(enable)
    } else {
        w == SysfsWrite::Missing { path }
    }
}

fn plan_write(path: &'static str, enable: bool, node_exists: bool) -> (r: SysfsWrite)
    ensures
        write_plan(r, path, enable, node_exists),
{
    if node_exists {
        SysfsWrite::Write { path, value: flag_value(enable) }
    } else {
        SysfsWrite::Missing { path }
    }
}

/// Writes the Qualcomm PD authentication flag.
#[derive(Clone, Copy, Debug, PartialEq, Eq)]
pub struct PdVerifier;

impl PdVerifier {
    pub fn new() -> (r: Result<PdVerifier, FreePPSError>)
        ensures
            r is Ok,
    {
        Ok(PdVerifier)
    }

    /// The write that sets the Qualcomm flag to `enable`.
    pub fn set_pd_verified(&self, enable: bool, node_exists: bool) -> (r: SysfsWrite)
        ensures
            write_plan(r, PD_VERIFIED_PATH, enable, node_exists),
    {
        plan_write(PD_VERIFIED_PATH, enable, node_exists)
    }
}

/// Writes the MediaTek adapter authentication flag.
#[derive(Clone, Copy, Debug, PartialEq, Eq)]
pub struct PdAdapterVerifier;

impl PdAdapterVerifier {
    pub fn new() -> (r: Result<PdAdapterVerifier, FreePPSError>)
        ensures
            r is Ok,
    {
        Ok(PdAdapterVerifier)
    }

    /// The write that sets the MediaTek flag to `enable`.
    pub fn set_pd_adapter_verified(&self, enable: bool, node_exists: bool) -> (r: SysfsWrite)
        ensures
            write_plan(r, PD_ADAPTER_VERIFIED_PATH, enable, node_exists),
    {
        plan_write(PD_ADAPTER_VERIFIED_PATH, enable, node_exists)
    }
}

/// The write that sets the input-suspend node to `suspend`.
pub fn set_input_suspend(suspend: bool, node_exists: bool) -> (r: SysfsWrite)
    ensures
        write_plan(r, INPUT_SUSPEND_PATH, suspend, node_exists),
{
    plan_write(INPUT_SUSPEND_PATH, suspend, node_exists)
}

} // verus!
