//! The DualShock 4 side of the client: button, status and report codecs.

mod button;
mod reports;

pub use button::dpad_set;
pub use button::lemma_dpad_code_round_trip;
pub use button::lemma_dpad_last_direction_wins;
pub use button::DS4Buttons;
pub use button::DS4SpecialButtons;
pub use button::DpadDirection;
pub use reports::lemma_battery_status_round_trip;
pub use reports::lemma_ds4_report_ex_round_trip;
pub use reports::lemma_ds4_report_round_trip;
pub use reports::lemma_touch_point_round_trip;
pub use reports::opt_byte_or;
pub use reports::opt_i16_or;
pub use reports::opt_touch_or_default;
pub use reports::opt_u16_or;
pub use reports::BatteryStatus;
pub use reports::DS4Report;
pub use reports::DS4Status;
pub use reports::DS4TouchPoint;
pub use reports::DS4TouchReport;
pub use reports::DS4ReportBuilder;
pub use reports::DS4ReportEx;
pub use reports::DS4ReportExBuilder;

use crate::error::Error;

use vstd::prelude::*;

verus! {

/// A virtual Sony DualShock 4 (wired).
///
/// Created detached; [`DualShock4Wired::plugin`] attaches it to a
/// driver-assigned slot, [`DualShock4Wired::update`] and
/// [`DualShock4Wired::update_ex`] stream reports to the slot while
/// attached, and [`DualShock4Wired::unplug`] releases it.  The serial
/// number is zero exactly while detached; it is set only by a successful
/// plug-in and cleared only by a successful unplug.
pub struct DualShock4Wired<CL: crate::bus::DeviceControl> {
    client: CL,
    serial_no: u32,
    id: crate::TargetId,
}

impl<CL: crate::bus::DeviceControl> DualShock4Wired<CL> {
    /// The driver-assigned slot, 0 while detached.
    pub closed spec fn spec_serial(self) -> u32 {
        self.serial_no
    }

    /// The vendor and product ids the target was constructed with.
    pub closed spec fn spec_id(self) -> crate::TargetId {
        self.id
    }

    /// Whether the target is plugged in: exactly when it holds a slot.
    pub open spec fn spec_attached(self) -> bool {
        self.spec_serial() != 0
    }

    /// Creates a new instance, detached.
    pub fn new(client: CL, id: crate::TargetId) -> (r: DualShock4Wired<CL>)
        ensures
            !r.spec_attached(),
            r.spec_serial() == 0,
            r.spec_id() == id,
    {
        DualShock4Wired { client, serial_no: 0, id }
    }

    /// Returns if the controller is plugged in.
    pub fn is_attached(&self) -> (r: bool)
        ensures
            r == self.spec_attached(),
    {
        self.serial_no != 0
    }

    /// Returns the id the controller was constructed with.
    pub fn id(&self) -> (r: crate::TargetId)
        ensures
            r == self.spec_id(),
    {
        self.id
    }

    /// Returns the client.
    pub fn client(&self) -> &CL {
        &self.client
    }

    /// Unplugs and destroys the controller, returning the client.
    ///
    /// The unplug is best-effort: a teardown must not fail the caller's
    /// broader shutdown, so any failure is discarded.
    pub fn drop(self) -> CL {
        let mut this = self;
        let _ = this.unplug();
        let DualShock4Wired { client, serial_no: _, id: _ } = this;
        client
    }

    /// Plugs the controller in.
    ///
    /// Fails at once with [`Error::AlreadyConnected`] when already
    /// attached.  Otherwise the driver is probed for a free slot, serial
    /// number 1 first and upward on each rejection; exhausting the serial
    /// number space fails with [`Error::NoFreeSlot`], and success leaves
    /// the target attached to the slot the driver accepted.
    pub fn plugin(&mut self) -> (r: Result<(), Error>)
        ensures
            final(self).spec_id() == old(self).spec_id(),
            old(self).spec_attached() ==> r == Err::<(), Error>(Error::AlreadyConnected)
                && final(self).spec_serial() == old(self).spec_serial(),
            !old(self).spec_attached() ==> match r {
                Ok(_) => final(self).spec_attached() && 1 <= final(self).spec_serial()
                    < 0xFFFFu32,
                Err(e) => e == Error::NoFreeSlot && !final(self).spec_attached(),
            },
    {
        if self.serial_no != 0 {
            return Err(Error::AlreadyConnected);
        }
        match crate::bus::plugin_probe(
            &mut self.client,
            crate::bus::TARGET_TYPE_DUALSHOCK4_WIRED,
            self.id,
        ) {
            Ok(serial) => {
                self.serial_no = serial;
                Ok(())
            },
            Err(e) => Err(e),
        }
    }

    /// Unplugs the controller.
    ///
    /// Fails at once with [`Error::NotPluggedIn`] when detached.  On a
    /// completed unplug the slot is released and the target is detached;
    /// a driver failure is passed through as [`Error::WinError`] and
    /// leaves the target attached.
    pub fn unplug(&mut self) -> (r: Result<(), Error>)
        ensures
            final(self).spec_id() == old(self).spec_id(),
            !old(self).spec_attached() ==> r == Err::<(), Error>(Error::NotPluggedIn)
                && final(self).spec_serial() == old(self).spec_serial(),
            old(self).spec_attached() ==> match r {
                Ok(_) => !final(self).spec_attached(),
                Err(e) => (e matches Error::WinError(_)) && final(self).spec_serial() == old(
                    self,
                ).spec_serial(),
            },
    {
        if self.serial_no == 0 {
            return Err(Error::NotPluggedIn);
        }
        let cmd = crate::bus::UnplugTarget::new(self.serial_no);
        let bytes = cmd.to_bytes();
        let outcome = self.client.device_control(
            crate::bus::IOCTL_UNPLUG_TARGET,
            bytes.as_slice(),
            0,
        );
        match crate::bus::UnplugTarget::digest(outcome) {
            Ok(_) => {
                self.serial_no = 0;
                Ok(())
            },
            Err(e) => Err(e),
        }
    }

    /// Waits until the virtual controller is ready.
    ///
    /// Any updates submitted before the virtual controller is ready may
    /// return an error.  Fails at once with [`Error::NotPluggedIn`] when
    /// detached; never changes the attachment state.  An old driver's
    /// "invalid parameter" answer counts as success, so the only errors
    /// are passed-through platform codes.
    pub fn wait_ready(&mut self) -> (r: Result<(), Error>)
        ensures
            final(self).spec_serial() == old(self).spec_serial(),
            final(self).spec_id() == old(self).spec_id(),
            !old(self).spec_attached() ==> r == Err::<(), Error>(Error::NotPluggedIn),
            old(self).spec_attached() ==> match r {
                Ok(_) => true,
                Err(e) => e matches Error::WinError(code) && code != crate::ERROR_INVALID_PARAMETER,
            },
    {
        if self.serial_no == 0 {
            return Err(Error::NotPluggedIn);
        }
        let cmd = crate::bus::WaitDeviceReady::new(self.serial_no);
        let bytes = cmd.to_bytes();
        let outcome = self.client.device_control(
            crate::bus::IOCTL_WAIT_DEVICE_READY,
            bytes.as_slice(),
            0,
        );
        crate::bus::WaitDeviceReady::digest(outcome)
    }

    /// Updates the virtual controller state.
    ///
    /// Fails at once with [`Error::NotPluggedIn`] when detached; never
    /// changes the attachment state.  The driver's "device not exist"
    /// answer becomes [`Error::TargetNotReady`], so a caller can tell a
    /// not-yet-ready target from other faults.
    pub fn update(&mut self, report: &DS4Report) -> (r: Result<(), Error>)
        ensures
            final(self).spec_serial() == old(self).spec_serial(),
            final(self).spec_id() == old(self).spec_id(),
            !old(self).spec_attached() ==> r == Err::<(), Error>(Error::NotPluggedIn),
            old(self).spec_attached() ==> match r {
                Ok(_) => true,
                Err(e) => e == Error::TargetNotReady || (e matches Error::WinError(code) && code
                    != crate::ERROR_DEV_NOT_EXIST),
            },
    {
        if self.serial_no == 0 {
            return Err(Error::NotPluggedIn);
        }
        let cmd = crate::bus::DS4SubmitReport::new(self.serial_no, *report);
        let bytes = cmd.to_bytes();
        let outcome = self.client.device_control(
            crate::bus::IOCTL_DS4_SUBMIT_REPORT,
            bytes.as_slice(),
            0,
        );
        crate::bus::digest_submit(outcome)
    }

    /// Updates the virtual controller state using the extended report.
    ///
    /// Behaves as [`DualShock4Wired::update`], submitting the packed
    /// 63-byte extended report instead.
    pub fn update_ex(&mut self, report: &DS4ReportEx) -> (r: Result<(), Error>)
        ensures
            final(self).spec_serial() == old(self).spec_serial(),
            final(self).spec_id() == old(self).spec_id(),
            !old(self).spec_attached() ==> r == Err::<(), Error>(Error::NotPluggedIn),
            old(self).spec_attached() ==> match r {
                Ok(_) => true,
                Err(e) => e == Error::TargetNotReady || (e matches Error::WinError(code) && code
                    != crate::ERROR_DEV_NOT_EXIST),
            },
    {
        if self.serial_no == 0 {
            return Err(Error::NotPluggedIn);
        }
        let cmd = crate::bus::DS4SubmitReportEx::new(self.serial_no, *report);
        let bytes = cmd.to_bytes();
        let outcome = self.client.device_control(
            crate::bus::IOCTL_DS4_SUBMIT_REPORT,
            bytes.as_slice(),
            0,
        );
        crate::bus::digest_submit(outcome)
    }
}

} // verus!
