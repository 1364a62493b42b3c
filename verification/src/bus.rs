//! The driver's control-operation catalogue.
//!
//! Every operation the driver understands is a fixed-layout command buffer
//! sent over the device handle with a fixed 32-bit control code and awaited
//! synchronously.  Each command starts with a 4-byte size field holding the
//! buffer's own byte size, which the driver checks for protocol
//! compatibility.  This module defines the commands, their byte-exact wire
//! forms, and how each operation's raw answer is read.

use vstd::prelude::*;

use crate::error::Error;
use crate::error::ERROR_DEV_NOT_EXIST;
use crate::error::ERROR_INVALID_DATA;
use crate::error::ERROR_INVALID_DEVICE_OBJECT_PARAMETER;
use crate::error::ERROR_INVALID_PARAMETER;
use crate::wire;
use crate::ds4::DS4Report;
use crate::ds4::DS4ReportEx;
use crate::x360::XGamepad;
use crate::TargetId;

verus! {

/// Control code of the plug-in operation.
pub const IOCTL_PLUGIN_TARGET: u32 = 0x2AA004;

/// Control code of the unplug operation.
pub const IOCTL_UNPLUG_TARGET: u32 = 0x2AA008;

/// Control code of the version handshake.
pub const IOCTL_CHECK_VERSION: u32 = 0x2AA00C;

/// Control code of the wait-until-ready operation.
pub const IOCTL_WAIT_DEVICE_READY: u32 = 0x2AA010;

/// Control code of the Xbox 360 notification request.
pub const IOCTL_XUSB_REQUEST_NOTIFICATION: u32 = 0x2AE804;

/// Control code of the Xbox 360 report submission.
pub const IOCTL_XUSB_SUBMIT_REPORT: u32 = 0x2AA808;

/// Control code of the DualShock 4 report submission, basic and extended.
pub const IOCTL_DS4_SUBMIT_REPORT: u32 = 0x2AA80C;

/// Control code of the XInput user-index query.
pub const IOCTL_XUSB_GET_USER_INDEX: u32 = 0x2AE81C;

/// Target type code for a wired Xbox 360 controller.
pub const TARGET_TYPE_XBOX360_WIRED: i32 = 0;

/// Target type code for a wired DualShock 4 controller.
pub const TARGET_TYPE_DUALSHOCK4_WIRED: i32 = 2;

/// The synchronous device-call primitive every control operation goes
/// through.
///
/// One call sends `input` to the device under the operation's control
/// `code`, blocks until the device answers, and returns either the
/// operation's output buffer (up to `output_len` bytes; empty for
/// operations without output) or the platform's raw error code.  The host
/// program implements this over its device handle; everything this crate
/// proves about the state machines holds for every answer an
/// implementation can give.
pub trait DeviceControl {
    /// Issue one blocking control call.
    fn device_control(&mut self, code: u32, input: &[u8], output_len: usize) -> Result<
        Vec<u8>,
        u32,
    >;
}

/// The version handshake command, sent once per candidate device while
/// connecting.
///
/// Relies on the driver accepting or rejecting the client's protocol
/// version; a failed call counts as a rejection.
#[derive(Copy, Clone, Debug, Eq, PartialEq, Structural)]
pub struct CheckVersion {
    pub version: u32,
}

impl CheckVersion {
    /// The protocol version this client speaks.
    pub const COMMON: u32 = 0x0001;

    /// Wire size of the command: size field and version.
    pub const SIZE: u32 = 8;

    /// The command for the common protocol version.
    pub fn common() -> (r: CheckVersion)
        ensures
            r.version == CheckVersion::COMMON,
    {
        CheckVersion { version: CheckVersion::COMMON }
    }

    /// The 8-byte wire form: the size field, then the version.
    pub open spec fn spec_bytes(self) -> Seq<u8> {
        spec_le32(CheckVersion::SIZE) + spec_le32(self.version)
    }

    /// Serialize the command.
    pub fn to_bytes(&self) -> (r: Vec<u8>)
        ensures
            r@ == self.spec_bytes(),
            r@.len() == CheckVersion::SIZE,
    {
        let mut buf: Vec<u8> = Vec::new();
        wire::push_le32(&mut buf, CheckVersion::SIZE);
        wire::push_le32(&mut buf, self.version);
        proof {
            assert(buf@ =~= self.spec_bytes());
        }
        buf
    }

    /// Whether a version handshake's raw answer counts as acceptance:
    /// only a completed call does; every failure is a rejection.
    pub fn accepted(outcome: Result<Vec<u8>, u32>) -> (r: bool)
        ensures
            r == outcome is Ok,
    {
        outcome.is_ok()
    }
}

/// The four wire bytes of a 32-bit little-endian field.
pub open spec fn spec_le32(x: u32) -> Seq<u8> {
    seq![
        wire::le32_byte(x, 0),
        wire::le32_byte(x, 1),
        wire::le32_byte(x, 2),
        wire::le32_byte(x, 3),
    ]
}

/// The plug-in command: asks the driver to bind a serial number to a new
/// virtual device of the given type and ids.
///
/// The driver has no "allocate any free slot" operation; the client
/// proposes a serial number and retries with the next one on rejection.
#[derive(Copy, Clone, Debug, Eq, PartialEq, Structural)]
pub struct PluginTarget {
    pub serial_no: u32,
    pub target_type: i32,
    pub vendor_id: u16,
    pub product_id: u16,
}

impl PluginTarget {
    /// Wire size of the command: size field, serial number, type code and
    /// the two ids.
    pub const SIZE: u32 = 16;

    /// A plug-in command for one candidate serial number.
    pub fn new(serial_no: u32, target_type: i32, vendor_id: u16, product_id: u16) -> (r:
        PluginTarget)
        ensures
            r == (PluginTarget { serial_no, target_type, vendor_id, product_id }),
    {
        PluginTarget { serial_no, target_type, vendor_id, product_id }
    }

    /// A plug-in command for a wired Xbox 360 target.
    pub fn x360_wired(serial_no: u32, vendor_id: u16, product_id: u16) -> (r: PluginTarget)
        ensures
            r == (PluginTarget {
                serial_no,
                target_type: TARGET_TYPE_XBOX360_WIRED,
                vendor_id,
                product_id,
            }),
    {
        PluginTarget::new(serial_no, TARGET_TYPE_XBOX360_WIRED, vendor_id, product_id)
    }

    /// A plug-in command for a wired DualShock 4 target.
    pub fn ds4_wired(serial_no: u32, vendor_id: u16, product_id: u16) -> (r: PluginTarget)
        ensures
            r == (PluginTarget {
                serial_no,
                target_type: TARGET_TYPE_DUALSHOCK4_WIRED,
                vendor_id,
                product_id,
            }),
    {
        PluginTarget::new(serial_no, TARGET_TYPE_DUALSHOCK4_WIRED, vendor_id, product_id)
    }

    /// The 16-byte wire form: size, serial number, type code as its
    /// 32-bit two's-complement pattern, then vendor and product id.
    pub open spec fn spec_bytes(self) -> Seq<u8> {
        spec_le32(PluginTarget::SIZE) + spec_le32(self.serial_no) + spec_le32(
            self.target_type as u32,
        ) + seq![
            wire::le16_lo(self.vendor_id),
            wire::le16_hi(self.vendor_id),
            wire::le16_lo(self.product_id),
            wire::le16_hi(self.product_id),
        ]
    }

    /// Serialize the command.
    pub fn to_bytes(&self) -> (r: Vec<u8>)
        ensures
            r@ == self.spec_bytes(),
            r@.len() == PluginTarget::SIZE,
    {
        let mut buf: Vec<u8> = Vec::new();
        wire::push_le32(&mut buf, PluginTarget::SIZE);
        wire::push_le32(&mut buf, self.serial_no);
        wire::push_le32(&mut buf, self.target_type as u32);
        wire::push_le16(&mut buf, self.vendor_id);
        wire::push_le16(&mut buf, self.product_id);
        proof {
            assert(buf@ =~= self.spec_bytes());
        }
        buf
    }
}

/// The wait-until-ready command for one attached slot.
#[derive(Copy, Clone, Debug, Eq, PartialEq, Structural)]
pub struct WaitDeviceReady {
    pub serial_no: u32,
}

impl WaitDeviceReady {
    /// Wire size of the command: size field and serial number.
    pub const SIZE: u32 = 8;

    /// A wait-until-ready command for one slot.
    pub fn new(serial_no: u32) -> (r: WaitDeviceReady)
        ensures
            r.serial_no == serial_no,
    {
        WaitDeviceReady { serial_no }
    }

    /// The 8-byte wire form: the size field, then the serial number.
    pub open spec fn spec_bytes(self) -> Seq<u8> {
        spec_le32(WaitDeviceReady::SIZE) + spec_le32(self.serial_no)
    }

    /// Serialize the command.
    pub fn to_bytes(&self) -> (r: Vec<u8>)
        ensures
            r@ == self.spec_bytes(),
            r@.len() == WaitDeviceReady::SIZE,
    {
        let mut buf: Vec<u8> = Vec::new();
        wire::push_le32(&mut buf, WaitDeviceReady::SIZE);
        wire::push_le32(&mut buf, self.serial_no);
        proof {
            assert(buf@ =~= self.spec_bytes());
        }
        buf
    }

    /// Digest the raw answer of a wait-until-ready call.
    ///
    /// Driver versions that predate this operation answer it with the
    /// "invalid parameter" code; that answer is treated as success so old
    /// drivers keep working.  Every other failure is passed through.
    pub fn digest(outcome: Result<Vec<u8>, u32>) -> (r: Result<(), Error>)
        ensures
            match outcome {
                Ok(_) => r == Ok::<(), Error>(()),
                Err(code) => if code == ERROR_INVALID_PARAMETER {
                    r == Ok::<(), Error>(())
                } else {
                    r == Err::<(), Error>(Error::WinError(code))
                },
            },
    {
        match outcome {
            Ok(_) => Ok(()),
            Err(code) => {
                if code == ERROR_INVALID_PARAMETER {
                    Ok(())
                } else {
                    Err(Error::WinError(code))
                }
            },
        }
    }
}

/// The unplug command: detaches a slot and frees its serial number.
#[derive(Copy, Clone, Debug, Eq, PartialEq, Structural)]
pub struct UnplugTarget {
    pub serial_no: u32,
}

impl UnplugTarget {
    /// Wire size of the command: size field and serial number.
    pub const SIZE: u32 = 8;

    /// An unplug command for one slot.
    pub fn new(serial_no: u32) -> (r: UnplugTarget)
        ensures
            r.serial_no == serial_no,
    {
        UnplugTarget { serial_no }
    }

    /// The 8-byte wire form: the size field, then the serial number.
    pub open spec fn spec_bytes(self) -> Seq<u8> {
        spec_le32(UnplugTarget::SIZE) + spec_le32(self.serial_no)
    }

    /// Serialize the command.
    pub fn to_bytes(&self) -> (r: Vec<u8>)
        ensures
            r@ == self.spec_bytes(),
            r@.len() == UnplugTarget::SIZE,
    {
        let mut buf: Vec<u8> = Vec::new();
        wire::push_le32(&mut buf, UnplugTarget::SIZE);
        wire::push_le32(&mut buf, self.serial_no);
        proof {
            assert(buf@ =~= self.spec_bytes());
        }
        buf
    }

    /// Digest the raw answer of an unplug call: every failure is passed
    /// through.
    pub fn digest(outcome: Result<Vec<u8>, u32>) -> (r: Result<(), Error>)
        ensures
            match outcome {
                Ok(_) => r == Ok::<(), Error>(()),
                Err(code) => r == Err::<(), Error>(Error::WinError(code)),
            },
    {
        match outcome {
            Ok(_) => Ok(()),
            Err(code) => Err(Error::WinError(code)),
        }
    }
}

/// Digest the raw answer of a report submission, for either controller
/// type.
///
/// The driver answers with the "device not exist" code while the slot is
/// not ready for reports yet; that is surfaced as
/// [`Error::TargetNotReady`] so callers can tell it from other faults.
pub fn digest_submit(outcome: Result<Vec<u8>, u32>) -> (r: Result<(), Error>)
    ensures
        match outcome {
            Ok(_) => r == Ok::<(), Error>(()),
            Err(code) => if code == ERROR_DEV_NOT_EXIST {
                r == Err::<(), Error>(Error::TargetNotReady)
            } else {
                r == Err::<(), Error>(Error::WinError(code))
            },
        },
{
    match outcome {
        Ok(_) => Ok(()),
        Err(code) => {
            if code == ERROR_DEV_NOT_EXIST {
                Err(Error::TargetNotReady)
            } else {
                Err(Error::WinError(code))
            }
        },
    }
}

/// The Xbox 360 report submission command.
#[derive(Copy, Clone, Debug, Eq, PartialEq, Structural)]
pub struct XUsbSubmitReport {
    pub serial_no: u32,
    pub report: XGamepad,
}

impl XUsbSubmitReport {
    /// Wire size of the command: size field, serial number and the
    /// 12-byte report.
    pub const SIZE: u32 = 20;

    /// A submission command for one slot and report.
    pub fn new(serial_no: u32, report: XGamepad) -> (r: XUsbSubmitReport)
        ensures
            r.serial_no == serial_no,
            r.report == report,
    {
        XUsbSubmitReport { serial_no, report }
    }

    /// The 20-byte wire form: size, serial number, then the report.
    pub open spec fn spec_bytes(self) -> Seq<u8> {
        spec_le32(XUsbSubmitReport::SIZE) + spec_le32(self.serial_no) + self.report.spec_bytes()
    }

    /// Serialize the command.
    pub fn to_bytes(&self) -> (r: Vec<u8>)
        ensures
            r@ == self.spec_bytes(),
            r@.len() == XUsbSubmitReport::SIZE,
    {
        let mut buf: Vec<u8> = Vec::new();
        wire::push_le32(&mut buf, XUsbSubmitReport::SIZE);
        wire::push_le32(&mut buf, self.serial_no);
        let mut rep = self.report.to_bytes();
        buf.append(&mut rep);
        proof {
            assert(buf@ =~= self.spec_bytes());
        }
        buf
    }
}

/// The DualShock 4 basic report submission command.
#[derive(Copy, Clone, Debug, Eq, PartialEq, Structural)]
pub struct DS4SubmitReport {
    pub serial_no: u32,
    pub report: DS4Report,
}

impl DS4SubmitReport {
    /// Wire size of the command: size field, serial number, the 10-byte
    /// report and two trailing alignment bytes.
    pub const SIZE: u32 = 20;

    /// A submission command for one slot and report.
    pub fn new(serial_no: u32, report: DS4Report) -> (r: DS4SubmitReport)
        ensures
            r.serial_no == serial_no,
            r.report == report,
    {
        DS4SubmitReport { serial_no, report }
    }

    /// The 20-byte wire form: size, serial number, the report, then two
    /// alignment bytes, always zero.
    pub open spec fn spec_bytes(self) -> Seq<u8> {
        spec_le32(DS4SubmitReport::SIZE) + spec_le32(self.serial_no) + self.report.spec_bytes()
            + seq![0u8, 0u8]
    }

    /// Serialize the command.
    pub fn to_bytes(&self) -> (r: Vec<u8>)
        ensures
            r@ == self.spec_bytes(),
            r@.len() == DS4SubmitReport::SIZE,
    {
        let mut buf: Vec<u8> = Vec::new();
        wire::push_le32(&mut buf, DS4SubmitReport::SIZE);
        wire::push_le32(&mut buf, self.serial_no);
        let mut rep = self.report.to_bytes();
        buf.append(&mut rep);
        wire::push_u8(&mut buf, 0);
        wire::push_u8(&mut buf, 0);
        proof {
            assert(buf@ =~= self.spec_bytes());
        }
        buf
    }
}

/// The DualShock 4 extended report submission command.
///
/// Unlike the other commands this one is packed: the 63-byte report
/// follows the serial number directly, with no padding anywhere.
#[derive(Copy, Clone, Debug, Eq, PartialEq, Structural)]
pub struct DS4SubmitReportEx {
    pub serial_no: u32,
    pub report: DS4ReportEx,
}

impl DS4SubmitReportEx {
    /// Wire size of the command: size field, serial number and the
    /// 63-byte report, packed.
    pub const SIZE: u32 = 71;

    /// A submission command for one slot and extended report.
    pub fn new(serial_no: u32, report: DS4ReportEx) -> (r: DS4SubmitReportEx)
        ensures
            r.serial_no == serial_no,
            r.report == report,
    {
        DS4SubmitReportEx { serial_no, report }
    }

    /// The 71-byte wire form: size, serial number, then the packed
    /// report.
    pub open spec fn spec_bytes(self) -> Seq<u8> {
        spec_le32(DS4SubmitReportEx::SIZE) + spec_le32(self.serial_no) + self.report.spec_bytes()
    }

    /// Serialize the command.
    pub fn to_bytes(&self) -> (r: Vec<u8>)
        ensures
            r@ == self.spec_bytes(),
            r@.len() == DS4SubmitReportEx::SIZE,
    {
        let mut buf: Vec<u8> = Vec::new();
        wire::push_le32(&mut buf, DS4SubmitReportEx::SIZE);
        wire::push_le32(&mut buf, self.serial_no);
        let mut rep = self.report.to_bytes();
        buf.append(&mut rep);
        proof {
            assert(buf@ =~= self.spec_bytes());
        }
        buf
    }
}

/// The XInput user-index query command.  The driver writes the index into
/// the same buffer; [`XUsbGetUserIndex::digest`] reads it back out.
#[derive(Copy, Clone, Debug, Eq, PartialEq, Structural)]
pub struct XUsbGetUserIndex {
    pub serial_no: u32,
}

impl XUsbGetUserIndex {
    /// Wire size of the command: size field, serial number and room for
    /// the answered index.
    pub const SIZE: u32 = 12;

    /// A user-index query for one slot.
    pub fn new(serial_no: u32) -> (r: XUsbGetUserIndex)
        ensures
            r.serial_no == serial_no,
    {
        XUsbGetUserIndex { serial_no }
    }

    /// The 12-byte wire form: size, serial number, then a zero
    /// placeholder the driver overwrites with the index.
    pub open spec fn spec_bytes(self) -> Seq<u8> {
        spec_le32(XUsbGetUserIndex::SIZE) + spec_le32(self.serial_no) + spec_le32(0)
    }

    /// Serialize the command.
    pub fn to_bytes(&self) -> (r: Vec<u8>)
        ensures
            r@ == self.spec_bytes(),
            r@.len() == XUsbGetUserIndex::SIZE,
    {
        let mut buf: Vec<u8> = Vec::new();
        wire::push_le32(&mut buf, XUsbGetUserIndex::SIZE);
        wire::push_le32(&mut buf, self.serial_no);
        wire::push_le32(&mut buf, 0);
        proof {
            assert(buf@ =~= self.spec_bytes());
        }
        buf
    }

    /// Digest the raw answer of a user-index query.
    ///
    /// On completion the index sits at offset 8 of the answered buffer; a
    /// buffer too short to hold it is reported as invalid data.  The
    /// driver's "invalid device object parameter" answer means the slot
    /// has no XInput index and becomes
    /// [`Error::UserIndexOutOfRange`]; every other failure is passed
    /// through.
    pub fn digest(outcome: Result<Vec<u8>, u32>) -> (r: Result<u32, Error>)
        ensures
            match outcome {
                Ok(out) => if out@.len() >= 12 {
                    r == Ok::<u32, Error>(wire::u32_from_le(out@[8], out@[9], out@[10], out@[11]))
                } else {
                    r == Err::<u32, Error>(Error::WinError(ERROR_INVALID_DATA))
                },
                Err(code) => if code == ERROR_INVALID_DEVICE_OBJECT_PARAMETER {
                    r == Err::<u32, Error>(Error::UserIndexOutOfRange)
                } else {
                    r == Err::<u32, Error>(Error::WinError(code))
                },
            },
    {
        match outcome {
            Ok(out) => {
                if out.len() >= 12 {
                    Ok(wire::read_le32(out.as_slice(), 8))
                } else {
                    Err(Error::WinError(ERROR_INVALID_DATA))
                }
            },
            Err(code) => {
                if code == ERROR_INVALID_DEVICE_OBJECT_PARAMETER {
                    Err(Error::UserIndexOutOfRange)
                } else {
                    Err(Error::WinError(code))
                }
            },
        }
    }
}

/// The Xbox 360 notification request command.  The same buffer is both
/// input and output: the driver holds the call until feedback arrives and
/// answers with the motor and LED bytes filled in.
#[derive(Copy, Clone, Debug, Eq, PartialEq, Structural)]
pub struct XUsbRequestNotification {
    pub serial_no: u32,
}

impl XUsbRequestNotification {
    /// Wire size of the command: size field, serial number, the three
    /// feedback bytes and one trailing alignment byte.
    pub const SIZE: u32 = 12;

    /// A notification request for one slot.
    pub fn new(serial_no: u32) -> (r: XUsbRequestNotification)
        ensures
            r.serial_no == serial_no,
    {
        XUsbRequestNotification { serial_no }
    }

    /// The 12-byte wire form: size, serial number, zeroed feedback bytes
    /// and one alignment byte.
    pub open spec fn spec_bytes(self) -> Seq<u8> {
        spec_le32(XUsbRequestNotification::SIZE) + spec_le32(self.serial_no) + seq![
            0u8,
            0u8,
            0u8,
            0u8,
        ]
    }

    /// Serialize the command.
    pub fn to_bytes(&self) -> (r: Vec<u8>)
        ensures
            r@ == self.spec_bytes(),
            r@.len() == XUsbRequestNotification::SIZE,
    {
        let mut buf: Vec<u8> = Vec::new();
        wire::push_le32(&mut buf, XUsbRequestNotification::SIZE);
        wire::push_le32(&mut buf, self.serial_no);
        wire::push_u8(&mut buf, 0);
        wire::push_u8(&mut buf, 0);
        wire::push_u8(&mut buf, 0);
        wire::push_u8(&mut buf, 0);
        proof {
            assert(buf@ =~= self.spec_bytes());
        }
        buf
    }
}

/// Probe the driver for a free slot, plugging in a new target of the
/// given type and ids.
///
/// The driver has no "allocate any free slot" operation: the client
/// proposes serial number 1 and, on every rejection, the next one, until
/// the driver accepts or the 16-bit serial number space is exhausted.
/// Success yields the serial number the driver accepted, always in
/// `1..0xFFFF`; running out of candidates is the only failure.
pub fn plugin_probe<CL: DeviceControl>(port: &mut CL, target_type: i32, id: TargetId) -> (r:
    Result<u32, Error>)
    ensures
        match r {
            Ok(serial) => 1 <= serial < 0xFFFFu32,
            Err(e) => e == Error::NoFreeSlot,
        },
{
    let mut candidate: u32 = 1;
    loop
        invariant
            1 <= candidate < 0xFFFFu32,
        decreases 0xFFFFu32 - candidate,
    {
        let cmd = PluginTarget::new(candidate, target_type, id.vendor, id.product);
        let bytes = cmd.to_bytes();
        let outcome = port.device_control(IOCTL_PLUGIN_TARGET, bytes.as_slice(), 0);
        if outcome.is_ok() {
            return Ok(candidate);
        }
        candidate = candidate + 1;
        if candidate >= 0xFFFF {
            return Err(Error::NoFreeSlot);
        }
    }
}

/// The running outcome of a connection scan.
///
/// Connecting enumerates the driver's device interfaces and takes the
/// first instance that accepts the version handshake.  While no instance
/// has been taken, this records the error to report if the scan ends
/// empty-handed: nothing enumerated at all means the bus was not found;
/// otherwise the last failure seen wins, so the caller learns whether an
/// instance could not be opened or only spoke the wrong version.
#[derive(Copy, Clone, Debug, Eq, PartialEq, Structural)]
pub struct ConnectScan {
    /// The connection error to report if no instance is accepted.
    pub error: Error,
}

impl ConnectScan {
    /// Start a scan; with no instance seen yet the outcome is "bus not
    /// found".
    pub fn new() -> (r: ConnectScan)
        ensures
            r.error == Error::BusNotFound,
    {
        ConnectScan { error: Error::BusNotFound }
    }

    /// Record that an enumerated instance's path could not be read;
    /// carries the raw platform code.
    pub fn detail_failed(&mut self, code: u32)
        ensures
            final(self).error == Error::WinError(code),
    {
        self.error = Error::WinError(code);
    }

    /// Record that an enumerated instance could not be opened; carries
    /// the raw platform code.
    pub fn open_failed(&mut self, code: u32)
        ensures
            final(self).error == Error::BusAccessFailed(code),
    {
        self.error = Error::BusAccessFailed(code);
    }

    /// Record that an opened instance rejected the version handshake.
    pub fn version_rejected(&mut self)
        ensures
            final(self).error == Error::BusVersionMismatch,
    {
        self.error = Error::BusVersionMismatch;
    }

    /// End the scan without an accepted instance, yielding the error to
    /// report.
    pub fn into_error(self) -> (r: Error)
        ensures
            r == self.error,
    {
        self.error
    }
}

} // verus!
