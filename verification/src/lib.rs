//! Client-side protocol for a virtual-gamepad bus driver.
//!
//! The driver exposes a catalogue of control operations (plug a virtual
//! controller in, wait until it is ready, submit an input report, unplug it)
//! that a client invokes over a device handle.  This crate covers everything
//! on the client side that can be checked: the byte-exact layout of every
//! control command and input report, the bit-packed button, status and touch
//! encodings, and the lifecycle state machine that sequences the operations
//! for a virtual Xbox 360 or DualShock 4 controller.
//!
//! The one thing the crate does not do itself is talk to the device: every
//! control operation is issued through the [`DeviceControl`] trait, a
//! synchronous "send these bytes, get bytes or an error code back" primitive
//! that the host program implements over its platform's device handle.  The
//! state machine is verified for every possible answer such a port can give.

use vstd::prelude::*;

mod bus;
mod error;
mod x360;
mod ds4;
pub mod wire;

pub use bus::digest_submit;
pub use bus::spec_le32;
pub use bus::CheckVersion;
pub use bus::ConnectScan;
pub use bus::DS4SubmitReport;
pub use bus::DS4SubmitReportEx;
pub use bus::DeviceControl;
pub use bus::plugin_probe;
pub use bus::PluginTarget;
pub use bus::UnplugTarget;
pub use bus::WaitDeviceReady;
pub use bus::XUsbGetUserIndex;
pub use bus::XUsbRequestNotification;
pub use bus::XUsbSubmitReport;
pub use bus::IOCTL_CHECK_VERSION;
pub use bus::IOCTL_DS4_SUBMIT_REPORT;
pub use bus::IOCTL_PLUGIN_TARGET;
pub use bus::IOCTL_UNPLUG_TARGET;
pub use bus::IOCTL_WAIT_DEVICE_READY;
pub use bus::IOCTL_XUSB_GET_USER_INDEX;
pub use bus::IOCTL_XUSB_REQUEST_NOTIFICATION;
pub use bus::IOCTL_XUSB_SUBMIT_REPORT;
pub use bus::TARGET_TYPE_DUALSHOCK4_WIRED;
pub use bus::TARGET_TYPE_XBOX360_WIRED;
pub use x360::Xbox360Wired;
pub use x360::XButtons;
pub use x360::XGamepad;
pub use x360::XNotification;
pub use x360::XNotifyState;
pub use x360::lemma_xgamepad_round_trip;
pub use error::Error;
pub use error::ERROR_DEV_NOT_EXIST;
pub use error::ERROR_INVALID_DATA;
pub use error::ERROR_INVALID_DEVICE_OBJECT_PARAMETER;
pub use error::ERROR_INVALID_PARAMETER;
pub use error::ERROR_IO_INCOMPLETE;
pub use error::ERROR_OPERATION_ABORTED;
pub use ds4::dpad_set;
pub use ds4::lemma_battery_status_round_trip;
pub use ds4::lemma_dpad_code_round_trip;
pub use ds4::lemma_dpad_last_direction_wins;
pub use ds4::lemma_ds4_report_ex_round_trip;
pub use ds4::lemma_ds4_report_round_trip;
pub use ds4::lemma_touch_point_round_trip;
pub use ds4::opt_byte_or;
pub use ds4::opt_i16_or;
pub use ds4::opt_touch_or_default;
pub use ds4::opt_u16_or;
pub use ds4::DualShock4Wired;
pub use ds4::DS4Buttons;
pub use ds4::DS4SpecialButtons;
pub use ds4::DpadDirection;
pub use ds4::BatteryStatus;
pub use ds4::DS4Report;
pub use ds4::DS4Status;
pub use ds4::DS4TouchPoint;
pub use ds4::DS4TouchReport;
pub use ds4::DS4ReportBuilder;
pub use ds4::DS4ReportEx;
pub use ds4::DS4ReportExBuilder;

verus! {

/// Vendor and product ids a target is registered under.
///
/// The pair is fixed at construction time and only used by the plug-in
/// command; it never changes afterwards.
#[derive(Copy, Clone, Debug, Eq, PartialEq, Hash, Structural)]
pub struct TargetId {
    pub vendor: u16,
    pub product: u16,
}

impl TargetId {
    /// The well-known vendor and product ids for a wired Xbox360 target.
    pub fn xbox360_wired() -> (r: TargetId)
        ensures
            r == (TargetId { vendor: 0x045E, product: 0x028E }),
    {
        TargetId { vendor: 0x045E, product: 0x028E }
    }

    /// The well-known vendor and product ids for a wired DualShock4 target.
    pub fn dualshock4_wired() -> (r: TargetId)
        ensures
            r == (TargetId { vendor: 0x054C, product: 0x05C4 }),
    {
        TargetId { vendor: 0x054C, product: 0x05C4 }
    }
}

} // verus!
