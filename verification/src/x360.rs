//! The Xbox 360 side of the client: XInput-compatible reports and
//! notifications.

use vstd::prelude::*;

use crate::error::Error;
use crate::error::ERROR_INVALID_DATA;
use crate::error::ERROR_IO_INCOMPLETE;
use crate::error::ERROR_OPERATION_ABORTED;
use crate::wire;

verus! {

/// XInput compatible button flags.
///
/// The raw value is the 16-bit button word of the gamepad report; each
/// named constant is one button bit, and bits combine by OR.
#[derive(Copy, Clone, Debug, Eq, PartialEq, Hash, Structural)]
pub struct XButtons {
    pub raw: u16,
}

/// XInput compatible button flags built from a raw button word.
#[allow(non_snake_case)]
pub fn XButtons(raw: u16) -> (r: XButtons)
    ensures
        r.raw == raw,
{
    XButtons { raw }
}

impl XButtons {
    /// Dpad up button.
    pub const UP: u16 = 0x0001;
    /// Dpad down button.
    pub const DOWN: u16 = 0x0002;
    /// Dpad left button.
    pub const LEFT: u16 = 0x0004;
    /// Dpad right button.
    pub const RIGHT: u16 = 0x0008;
    /// Start button.
    pub const START: u16 = 0x0010;
    /// Back button.
    pub const BACK: u16 = 0x0020;
    /// Left thumb button.
    pub const LTHUMB: u16 = 0x0040;
    /// Right thumb button.
    pub const RTHUMB: u16 = 0x0080;
    /// Left shoulder button.
    pub const LB: u16 = 0x0100;
    /// Right shoulder button.
    pub const RB: u16 = 0x0200;
    /// Xbox guide button.
    pub const GUIDE: u16 = 0x0400;
    /// A button.
    pub const A: u16 = 0x1000;
    /// B button.
    pub const B: u16 = 0x2000;
    /// X button.
    pub const X: u16 = 0x4000;
    /// Y button.
    pub const Y: u16 = 0x8000;
}

impl Default for XButtons {
    /// No button pressed.
    fn default() -> (r: Self)
        ensures
            r.raw == 0,
    {
        XButtons { raw: 0 }
    }
}

/// XInput compatible gamepad report.
///
/// Sticks are signed 16-bit values centered at 0; triggers are unsigned
/// bytes, `0` released.
#[derive(Copy, Clone, Debug, Eq, PartialEq, Hash, Structural)]
pub struct XGamepad {
    pub buttons: XButtons,
    pub left_trigger: u8,
    pub right_trigger: u8,
    pub thumb_lx: i16,
    pub thumb_ly: i16,
    pub thumb_rx: i16,
    pub thumb_ry: i16,
}

impl XGamepad {
    /// The 12-byte wire form of the report: the button word, both
    /// triggers, then the four stick axes, all multi-byte fields
    /// little-endian.
    pub open spec fn spec_bytes(self) -> Seq<u8> {
        seq![
            wire::le16_lo(self.buttons.raw),
            wire::le16_hi(self.buttons.raw),
            self.left_trigger,
            self.right_trigger,
            wire::le16_lo(self.thumb_lx as u16),
            wire::le16_hi(self.thumb_lx as u16),
            wire::le16_lo(self.thumb_ly as u16),
            wire::le16_hi(self.thumb_ly as u16),
            wire::le16_lo(self.thumb_rx as u16),
            wire::le16_hi(self.thumb_rx as u16),
            wire::le16_lo(self.thumb_ry as u16),
            wire::le16_hi(self.thumb_ry as u16),
        ]
    }

    /// The report a 12-byte wire form stands for; anything of another
    /// length is not a gamepad report.
    pub open spec fn spec_from_bytes(b: Seq<u8>) -> Option<XGamepad> {
        if b.len() == 12 {
            Some(
                XGamepad {
                    buttons: XButtons { raw: wire::u16_from_le(b[0], b[1]) },
                    left_trigger: b[2],
                    right_trigger: b[3],
                    thumb_lx: wire::u16_from_le(b[4], b[5]) as i16,
                    thumb_ly: wire::u16_from_le(b[6], b[7]) as i16,
                    thumb_rx: wire::u16_from_le(b[8], b[9]) as i16,
                    thumb_ry: wire::u16_from_le(b[10], b[11]) as i16,
                },
            )
        } else {
            None
        }
    }

    /// Serialize the report to its exact 12-byte wire form.
    pub fn to_bytes(&self) -> (r: Vec<u8>)
        ensures
            r@ == self.spec_bytes(),
            r@.len() == 12,
    {
        let mut buf: Vec<u8> = Vec::new();
        wire::push_le16(&mut buf, self.buttons.raw);
        wire::push_u8(&mut buf, self.left_trigger);
        wire::push_u8(&mut buf, self.right_trigger);
        wire::push_le_i16(&mut buf, self.thumb_lx);
        wire::push_le_i16(&mut buf, self.thumb_ly);
        wire::push_le_i16(&mut buf, self.thumb_rx);
        wire::push_le_i16(&mut buf, self.thumb_ry);
        proof {
            assert(buf@ =~= self.spec_bytes());
        }
        buf
    }

    /// Decode a 12-byte wire form back into a report.
    pub fn from_bytes(b: &[u8]) -> (r: Option<XGamepad>)
        ensures
            r == XGamepad::spec_from_bytes(b@),
    {
        if b.len() != 12 {
            return None;
        }
        Some(
            XGamepad {
                buttons: XButtons { raw: wire::read_le16(b, 0) },
                left_trigger: b[2],
                right_trigger: b[3],
                thumb_lx: wire::read_le_i16(b, 4),
                thumb_ly: wire::read_le_i16(b, 6),
                thumb_rx: wire::read_le_i16(b, 8),
                thumb_ry: wire::read_le_i16(b, 10),
            },
        )
    }
}

impl Default for XGamepad {
    /// The neutral report: sticks centered at 0, nothing pressed.
    fn default() -> (r: Self)
        ensures
            r == (XGamepad {
                buttons: XButtons { raw: 0 },
                left_trigger: 0,
                right_trigger: 0,
                thumb_lx: 0,
                thumb_ly: 0,
                thumb_rx: 0,
                thumb_ry: 0,
            }),
    {
        XGamepad {
            buttons: XButtons { raw: 0 },
            left_trigger: 0,
            right_trigger: 0,
            thumb_lx: 0,
            thumb_ly: 0,
            thumb_rx: 0,
            thumb_ry: 0,
        }
    }
}

/// Decoding a gamepad report's wire form gives back exactly the report
/// that was encoded, whatever its field values.
pub proof fn lemma_xgamepad_round_trip(r: XGamepad)
    ensures
        XGamepad::spec_from_bytes(r.spec_bytes()) == Some(r),
{
    wire::lemma_le16_round_trip(r.buttons.raw);
    wire::lemma_le16_round_trip(r.thumb_lx as u16);
    wire::lemma_le16_round_trip(r.thumb_ly as u16);
    wire::lemma_le16_round_trip(r.thumb_rx as u16);
    wire::lemma_le16_round_trip(r.thumb_ry as u16);
    wire::lemma_i16_cast_round_trip(r.thumb_lx);
    wire::lemma_i16_cast_round_trip(r.thumb_ly);
    wire::lemma_i16_cast_round_trip(r.thumb_rx);
    wire::lemma_i16_cast_round_trip(r.thumb_ry);
}

/// One force-feedback notification pushed by the driver: motor speeds and
/// the LED number assigned to the slot.
#[derive(Copy, Clone, Debug, Eq, PartialEq, Hash, Structural)]
pub struct XNotification {
    pub large_motor: u8,
    pub small_motor: u8,
    pub led_number: u8,
}

/// The decision core of the notification channel for one target.
///
/// The host program owns the pending request buffer and the asynchronous
/// call; this state decides, from each poll answer, whether a notification
/// arrived, whether the loop should keep waiting, and when it must stop.
/// Once a poll reports that the pending request was aborted (the target
/// was unplugged), the serial number is cleared so that no new request can
/// be armed for a slot that may since have been reused by another target.
#[derive(Copy, Clone, Debug, Eq, PartialEq, Structural)]
pub struct XNotifyState {
    /// The slot notifications are requested for; 0 once detached.
    pub serial_no: u32,
}

impl XNotifyState {
    /// Create the notification state for an attached target's slot.
    pub fn new(serial_no: u32) -> (r: Self)
        ensures
            r.serial_no == serial_no,
    {
        XNotifyState { serial_no }
    }

    /// Returns if the underlying target is still attached.
    pub fn is_attached(&self) -> (r: bool)
        ensures
            r == (self.serial_no != 0),
    {
        self.serial_no != 0
    }

    /// Whether a new notification request may be armed.
    pub fn should_request(&self) -> (r: bool)
        ensures
            r == (self.serial_no != 0),
    {
        self.serial_no != 0
    }

    /// Digest one poll answer from the pending notification request.
    ///
    /// The answer is the raw outcome of the asynchronous call: the request
    /// buffer's bytes on completion, or a platform error code.  Returns:
    ///
    /// * `Ok(Some(_))` — a notification arrived; parsed from the motor and
    ///   LED bytes of the buffer.  Another request should be armed.
    /// * `Ok(None)` — the request is still pending (only a non-blocking
    ///   poll sees this).
    /// * `Err(OperationAborted)` — the pending request was canceled by the
    ///   target's teardown; the state detaches itself and the loop must
    ///   stop.
    /// * `Err(WinError(_))` — any other failure, including a completion
    ///   buffer too short to parse.
    pub fn on_poll(&mut self, outcome: Result<Vec<u8>, u32>) -> (r: Result<
        Option<XNotification>,
        Error,
    >)
        ensures
            match outcome {
                Ok(out) => {
                    &&& final(self).serial_no == old(self).serial_no
                    &&& if out@.len() >= 11 {
                        r == Ok::<_, Error>(
                            Some(
                                XNotification {
                                    large_motor: out@[8],
                                    small_motor: out@[9],
                                    led_number: out@[10],
                                },
                            ),
                        )
                    } else {
                        r == Err::<Option<XNotification>, _>(Error::WinError(ERROR_INVALID_DATA))
                    }
                },
                Err(code) => {
                    if code == ERROR_IO_INCOMPLETE {
                        &&& r == Ok::<_, Error>(None::<XNotification>)
                        &&& final(self).serial_no == old(self).serial_no
                    } else if code == ERROR_OPERATION_ABORTED {
                        &&& r == Err::<Option<XNotification>, _>(Error::OperationAborted)
                        &&& final(self).serial_no == 0
                    } else {
                        &&& r == Err::<Option<XNotification>, _>(Error::WinError(code))
                        &&& final(self).serial_no == old(self).serial_no
                    }
                },
            },
    {
        match outcome {
            Ok(out) => {
                if out.len() >= 11 {
                    Ok(
                        Some(
                            XNotification {
                                large_motor: out[8],
                                small_motor: out[9],
                                led_number: out[10],
                            },
                        ),
                    )
                } else {
                    Err(Error::WinError(ERROR_INVALID_DATA))
                }
            },
            Err(code) => {
                if code == ERROR_IO_INCOMPLETE {
                    Ok(None)
                } else if code == ERROR_OPERATION_ABORTED {
                    self.serial_no = 0;
                    Err(Error::OperationAborted)
                } else {
                    Err(Error::WinError(code))
                }
            },
        }
    }
}


/// A virtual Microsoft Xbox 360 Controller (wired).
///
/// Created detached; [`Xbox360Wired::plugin`] attaches it to a
/// driver-assigned slot, [`Xbox360Wired::update`] streams reports to the
/// slot while attached, and [`Xbox360Wired::unplug`] releases it.  The
/// serial number is zero exactly while detached; it is set only by a
/// successful plug-in and cleared only by a successful unplug.
pub struct Xbox360Wired<CL: crate::bus::DeviceControl> {
    client: CL,
    serial_no: u32,
    id: crate::TargetId,
}

impl<CL: crate::bus::DeviceControl> Xbox360Wired<CL> {
    /// The driver-assigned slot, 0 while detached.
    pub closed spec fn spec_serial(self) -> u32 {
        self.serial_no
    }

    /// The vendor and product ids the target was constructed with.
    pub closed spec fn spec_id(self) -> crate::TargetId {
        self.id
    }

    /// Whether the target is plugged in: exactly when it holds a slot.
    pub open spec fn spec_attached(self) -> bool {
        self.spec_serial() != 0
    }

    /// Creates a new instance, detached.
    pub fn new(client: CL, id: crate::TargetId) -> (r: Xbox360Wired<CL>)
        ensures
            !r.spec_attached(),
            r.spec_serial() == 0,
            r.spec_id() == id,
    {
        Xbox360Wired { client, serial_no: 0, id }
    }

    /// Returns if the controller is plugged in.
    pub fn is_attached(&self) -> (r: bool)
        ensures
            r == self.spec_attached(),
    {
        self.serial_no != 0
    }

    /// Returns the vendor and product ids.
    pub fn id(&self) -> (r: crate::TargetId)
        ensures
            r == self.spec_id(),
    {
        self.id
    }

    /// Returns the client.
    pub fn client(&self) -> &CL {
        &self.client
    }

    /// Unplugs and destroys the controller, returning the client.
    ///
    /// The unplug is best-effort: a teardown must not fail the caller's
    /// broader shutdown, so any failure is discarded.
    pub fn drop(self) -> CL {
        let mut this = self;
        let _ = this.unplug();
        let Xbox360Wired { client, serial_no: _, id: _ } = this;
        client
    }

    /// Plugs the controller in.
    ///
    /// Fails at once with [`Error::AlreadyConnected`] when already
    /// attached.  Otherwise the driver is probed for a free slot, serial
    /// number 1 first and upward on each rejection; exhausting the serial
    /// number space fails with [`Error::NoFreeSlot`], and success leaves
    /// the target attached to the slot the driver accepted.
    pub fn plugin(&mut self) -> (r: Result<(), Error>)
        ensures
            final(self).spec_id() == old(self).spec_id(),
            old(self).spec_attached() ==> r == Err::<(), Error>(Error::AlreadyConnected)
                && final(self).spec_serial() == old(self).spec_serial(),
            !old(self).spec_attached() ==> match r {
                Ok(_) => final(self).spec_attached() && 1 <= final(self).spec_serial()
                    < 0xFFFFu32,
                Err(e) => e == Error::NoFreeSlot && !final(self).spec_attached(),
            },
    {
        if self.serial_no != 0 {
            return Err(Error::AlreadyConnected);
        }
        match crate::bus::plugin_probe(
            &mut self.client,
            crate::bus::TARGET_TYPE_XBOX360_WIRED,
            self.id,
        ) {
            Ok(serial) => {
                self.serial_no = serial;
                Ok(())
            },
            Err(e) => Err(e),
        }
    }

    /// Unplugs the controller.
    ///
    /// Fails at once with [`Error::NotPluggedIn`] when detached.  On a
    /// completed unplug the slot is released and the target is detached;
    /// a driver failure is passed through as [`Error::WinError`] and
    /// leaves the target attached.
    pub fn unplug(&mut self) -> (r: Result<(), Error>)
        ensures
            final(self).spec_id() == old(self).spec_id(),
            !old(self).spec_attached() ==> r == Err::<(), Error>(Error::NotPluggedIn)
                && final(self).spec_serial() == old(self).spec_serial(),
            old(self).spec_attached() ==> match r {
                Ok(_) => !final(self).spec_attached(),
                Err(e) => (e matches Error::WinError(_)) && final(self).spec_serial() == old(
                    self,
                ).spec_serial(),
            },
    {
        if self.serial_no == 0 {
            return Err(Error::NotPluggedIn);
        }
        let cmd = crate::bus::UnplugTarget::new(self.serial_no);
        let bytes = cmd.to_bytes();
        let outcome = self.client.device_control(
            crate::bus::IOCTL_UNPLUG_TARGET,
            bytes.as_slice(),
            0,
        );
        match crate::bus::UnplugTarget::digest(outcome) {
            Ok(_) => {
                self.serial_no = 0;
                Ok(())
            },
            Err(e) => Err(e),
        }
    }

    /// Waits until the virtual controller is ready.
    ///
    /// Any updates submitted before the virtual controller is ready may
    /// return an error.  Fails at once with [`Error::NotPluggedIn`] when
    /// detached; never changes the attachment state.  An old driver's
    /// "invalid parameter" answer counts as success, so the only errors
    /// are passed-through platform codes.
    pub fn wait_ready(&mut self) -> (r: Result<(), Error>)
        ensures
            final(self).spec_serial() == old(self).spec_serial(),
            final(self).spec_id() == old(self).spec_id(),
            !old(self).spec_attached() ==> r == Err::<(), Error>(Error::NotPluggedIn),
            old(self).spec_attached() ==> match r {
                Ok(_) => true,
                Err(e) => e matches Error::WinError(code) && code != crate::ERROR_INVALID_PARAMETER,
            },
    {
        if self.serial_no == 0 {
            return Err(Error::NotPluggedIn);
        }
        let cmd = crate::bus::WaitDeviceReady::new(self.serial_no);
        let bytes = cmd.to_bytes();
        let outcome = self.client.device_control(
            crate::bus::IOCTL_WAIT_DEVICE_READY,
            bytes.as_slice(),
            0,
        );
        crate::bus::WaitDeviceReady::digest(outcome)
    }

    /// Gets the user index of the device in XInput.
    ///
    /// Fails at once with [`Error::NotPluggedIn`] when detached; never
    /// changes the attachment state.  A slot without an XInput index is
    /// reported as [`Error::UserIndexOutOfRange`].
    pub fn get_user_index(&mut self) -> (r: Result<u32, Error>)
        ensures
            final(self).spec_serial() == old(self).spec_serial(),
            final(self).spec_id() == old(self).spec_id(),
            !old(self).spec_attached() ==> r == Err::<u32, Error>(Error::NotPluggedIn),
            old(self).spec_attached() ==> match r {
                Ok(_) => true,
                Err(e) => e == Error::UserIndexOutOfRange || (e matches Error::WinError(_)),
            },
    {
        if self.serial_no == 0 {
            return Err(Error::NotPluggedIn);
        }
        let cmd = crate::bus::XUsbGetUserIndex::new(self.serial_no);
        let bytes = cmd.to_bytes();
        let outcome = self.client.device_control(
            crate::bus::IOCTL_XUSB_GET_USER_INDEX,
            bytes.as_slice(),
            12,
        );
        crate::bus::XUsbGetUserIndex::digest(outcome)
    }

    /// Updates the virtual controller state.
    ///
    /// Fails at once with [`Error::NotPluggedIn`] when detached; never
    /// changes the attachment state.  The driver's "device not exist"
    /// answer becomes [`Error::TargetNotReady`], so a caller can tell a
    /// not-yet-ready target from other faults.
    pub fn update(&mut self, gamepad: &XGamepad) -> (r: Result<(), Error>)
        ensures
            final(self).spec_serial() == old(self).spec_serial(),
            final(self).spec_id() == old(self).spec_id(),
            !old(self).spec_attached() ==> r == Err::<(), Error>(Error::NotPluggedIn),
            old(self).spec_attached() ==> match r {
                Ok(_) => true,
                Err(e) => e == Error::TargetNotReady || (e matches Error::WinError(code) && code
                    != crate::ERROR_DEV_NOT_EXIST),
            },
    {
        if self.serial_no == 0 {
            return Err(Error::NotPluggedIn);
        }
        let cmd = crate::bus::XUsbSubmitReport::new(self.serial_no, *gamepad);
        let bytes = cmd.to_bytes();
        let outcome = self.client.device_control(
            crate::bus::IOCTL_XUSB_SUBMIT_REPORT,
            bytes.as_slice(),
            0,
        );
        crate::bus::digest_submit(outcome)
    }

    /// Request notification state for this target's slot.
    ///
    /// Fails with [`Error::NotPluggedIn`] when detached.  The returned
    /// state carries the slot for the host program's notification loop;
    /// see [`XNotifyState`].  Do not create more than one per target:
    /// notifications may get lost or be received by only one listener.
    pub fn request_notification(&mut self) -> (r: Result<XNotifyState, Error>)
        ensures
            final(self).spec_serial() == old(self).spec_serial(),
            final(self).spec_id() == old(self).spec_id(),
            !old(self).spec_attached() ==> r == Err::<XNotifyState, Error>(Error::NotPluggedIn),
            old(self).spec_attached() ==> r == Ok::<XNotifyState, Error>(
                XNotifyState { serial_no: old(self).spec_serial() },
            ),
    {
        if self.serial_no == 0 {
            return Err(Error::NotPluggedIn);
        }
        Ok(XNotifyState::new(self.serial_no))
    }
}

} // verus!
