//! Target lifecycle checks against a scripted device port.

use vigem_client::BatteryStatus;
use vigem_client::ConnectScan;
use vigem_client::DS4ReportBuilder;
use vigem_client::DS4ReportExBuilder;
use vigem_client::DS4Status;
use vigem_client::DeviceControl;
use vigem_client::DualShock4Wired;
use vigem_client::Error;
use vigem_client::TargetId;
use vigem_client::XGamepad;
use vigem_client::XNotification;
use vigem_client::XNotifyState;
use vigem_client::Xbox360Wired;
use vigem_client::ERROR_DEV_NOT_EXIST;
use vigem_client::ERROR_INVALID_DATA;
use vigem_client::ERROR_INVALID_DEVICE_OBJECT_PARAMETER;
use vigem_client::ERROR_INVALID_PARAMETER;
use vigem_client::ERROR_IO_INCOMPLETE;
use vigem_client::ERROR_OPERATION_ABORTED;
use vigem_client::IOCTL_PLUGIN_TARGET;
use vigem_client::IOCTL_UNPLUG_TARGET;
use vigem_client::IOCTL_XUSB_SUBMIT_REPORT;

/// A scripted device port: answers calls from a fixed list, then with a
/// default answer, and logs every call it saw.
struct FakePort {
    answers: Vec<Result<Vec<u8>, u32>>,
    next: usize,
    fallback: Result<Vec<u8>, u32>,
    log: Vec<(u32, Vec<u8>)>,
}

impl FakePort {
    fn accepting() -> FakePort {
        FakePort {
            answers: Vec::new(),
            next: 0,
            fallback: Ok(Vec::new()),
            log: Vec::new(),
        }
    }

    fn scripted(answers: Vec<Result<Vec<u8>, u32>>) -> FakePort {
        FakePort {
            answers,
            next: 0,
            fallback: Ok(Vec::new()),
            log: Vec::new(),
        }
    }

    fn rejecting(code: u32) -> FakePort {
        FakePort {
            answers: Vec::new(),
            next: 0,
            fallback: Err(code),
            log: Vec::new(),
        }
    }
}

impl DeviceControl for FakePort {
    fn device_control(
        &mut self,
        code: u32,
        input: &[u8],
        _output_len: usize,
    ) -> Result<Vec<u8>, u32> {
        self.log.push((code, input.to_vec()));
        let answer = if self.next < self.answers.len() {
            self.answers[self.next].clone()
        } else {
            self.fallback.clone()
        };
        self.next += 1;
        answer
    }
}

/// The serial number carried at offset 4 of a logged command buffer.
fn logged_serial(entry: &(u32, Vec<u8>)) -> u32 {
    u32::from_le_bytes([entry.1[4], entry.1[5], entry.1[6], entry.1[7]])
}

#[test]
fn simple_success() {
    let mut target = Xbox360Wired::new(FakePort::accepting(), TargetId::xbox360_wired());

    target.plugin().unwrap();
    target.wait_ready().unwrap();
    let result = target.update(&XGamepad::default());

    assert_eq!(result, Ok(()));
}

#[test]
fn target_not_ready() {
    let mut target = Xbox360Wired::new(
        FakePort::scripted(vec![Ok(Vec::new()), Err(ERROR_DEV_NOT_EXIST)]),
        TargetId::xbox360_wired(),
    );

    target.plugin().unwrap();
    let _result = target.update(&XGamepad::default());
}

#[test]
fn state_machine_lifecycle() {
    // Detached on creation, attached after plugin, unplug succeeds
    // exactly once.
    let mut target = Xbox360Wired::new(FakePort::accepting(), TargetId::xbox360_wired());
    assert!(!target.is_attached());
    assert_eq!(target.update(&XGamepad::default()), Err(Error::NotPluggedIn));
    assert_eq!(target.wait_ready(), Err(Error::NotPluggedIn));
    assert_eq!(target.unplug(), Err(Error::NotPluggedIn));

    target.plugin().unwrap();
    assert!(target.is_attached());
    assert_eq!(target.plugin(), Err(Error::AlreadyConnected));

    assert_eq!(target.unplug(), Ok(()));
    assert!(!target.is_attached());
    assert_eq!(target.unplug(), Err(Error::NotPluggedIn));
}

#[test]
fn ds4_state_machine_lifecycle() {
    let mut target = DualShock4Wired::new(FakePort::accepting(), TargetId::dualshock4_wired());
    assert!(!target.is_attached());
    assert_eq!(target.id(), TargetId::dualshock4_wired());

    target.plugin().unwrap();
    assert!(target.is_attached());
    assert_eq!(target.plugin(), Err(Error::AlreadyConnected));

    let report = DS4ReportBuilder::new().trigger_l(3).build();
    assert_eq!(target.update(&report), Ok(()));
    let report = DS4ReportExBuilder::new()
        .status(DS4Status::with_battery_status(BatteryStatus::Charging(5)))
        .build();
    assert_eq!(target.update_ex(&report), Ok(()));

    assert_eq!(target.unplug(), Ok(()));
    assert_eq!(target.unplug(), Err(Error::NotPluggedIn));
}

#[test]
fn slot_probing_is_sequential() {
    // Candidates 1 and 2 rejected, 3 accepted; the target must end on
    // slot 3 and submit on slot 3 afterwards.
    let mut target = Xbox360Wired::new(
        FakePort::scripted(vec![Err(1), Err(1), Ok(Vec::new())]),
        TargetId::xbox360_wired(),
    );
    target.plugin().unwrap();
    assert!(target.is_attached());

    let result = target.update(&XGamepad::default());
    assert_eq!(result, Ok(()));

    let log = &target.client().log;
    assert_eq!(log.len(), 4);
    assert_eq!(log[0].0, IOCTL_PLUGIN_TARGET);
    assert_eq!(logged_serial(&log[0]), 1);
    assert_eq!(logged_serial(&log[1]), 2);
    assert_eq!(logged_serial(&log[2]), 3);
    assert_eq!(log[3].0, IOCTL_XUSB_SUBMIT_REPORT);
    assert_eq!(logged_serial(&log[3]), 3);
}

#[test]
fn plugin_exhausts_slots() {
    let mut target = Xbox360Wired::new(FakePort::rejecting(31), TargetId::xbox360_wired());
    assert_eq!(target.plugin(), Err(Error::NoFreeSlot));
    assert!(!target.is_attached());
}

#[test]
fn update_translates_device_not_exist() {
    // A "device not exist" answer on update surfaces as
    // TargetNotReady, not as a raw platform error.
    let mut target = Xbox360Wired::new(
        FakePort::scripted(vec![Ok(Vec::new()), Err(ERROR_DEV_NOT_EXIST)]),
        TargetId::xbox360_wired(),
    );
    target.plugin().unwrap();
    assert_eq!(
        target.update(&XGamepad::default()),
        Err(Error::TargetNotReady)
    );
    assert!(target.is_attached());

    let mut target = DualShock4Wired::new(
        FakePort::scripted(vec![Ok(Vec::new()), Err(ERROR_DEV_NOT_EXIST)]),
        TargetId::dualshock4_wired(),
    );
    target.plugin().unwrap();
    let report = DS4ReportBuilder::new().build();
    assert_eq!(target.update(&report), Err(Error::TargetNotReady));
}

#[test]
fn update_passes_other_errors_through() {
    let mut target = Xbox360Wired::new(
        FakePort::scripted(vec![Ok(Vec::new()), Err(5)]),
        TargetId::xbox360_wired(),
    );
    target.plugin().unwrap();
    assert_eq!(target.update(&XGamepad::default()), Err(Error::WinError(5)));
}

#[test]
fn wait_ready_accepts_old_driver_answer() {
    // An old-protocol driver answers wait-ready with "invalid
    // parameter"; that is success, not an error.
    let mut target = Xbox360Wired::new(
        FakePort::scripted(vec![Ok(Vec::new()), Err(ERROR_INVALID_PARAMETER)]),
        TargetId::xbox360_wired(),
    );
    target.plugin().unwrap();
    assert_eq!(target.wait_ready(), Ok(()));

    let mut target = Xbox360Wired::new(
        FakePort::scripted(vec![Ok(Vec::new()), Err(5)]),
        TargetId::xbox360_wired(),
    );
    target.plugin().unwrap();
    assert_eq!(target.wait_ready(), Err(Error::WinError(5)));
}

#[test]
fn unplug_failure_keeps_target_attached() {
    let mut target = Xbox360Wired::new(
        FakePort::scripted(vec![Ok(Vec::new()), Err(5)]),
        TargetId::xbox360_wired(),
    );
    target.plugin().unwrap();
    assert_eq!(target.unplug(), Err(Error::WinError(5)));
    assert!(target.is_attached());
    assert_eq!(target.unplug(), Ok(()));
    assert!(!target.is_attached());
}

#[test]
fn drop_returns_client_after_unplug() {
    let mut target = Xbox360Wired::new(FakePort::accepting(), TargetId::xbox360_wired());
    target.plugin().unwrap();
    let port = target.drop();
    assert_eq!(port.log.len(), 2);
    assert_eq!(port.log[0].0, IOCTL_PLUGIN_TARGET);
    assert_eq!(port.log[1].0, IOCTL_UNPLUG_TARGET);
    assert_eq!(logged_serial(&port.log[1]), 1);
}

#[test]
fn get_user_index_reads_answer() {
    let mut answer = vec![12, 0, 0, 0, 1, 0, 0, 0];
    answer.extend_from_slice(&[2, 0, 0, 0]);
    let mut target = Xbox360Wired::new(
        FakePort::scripted(vec![Ok(Vec::new()), Ok(answer)]),
        TargetId::xbox360_wired(),
    );
    assert_eq!(target.get_user_index(), Err(Error::NotPluggedIn));
    target.plugin().unwrap();
    assert_eq!(target.get_user_index(), Ok(2));
}

#[test]
fn get_user_index_rejects_short_answer() {
    // A completed call whose buffer is too short to carry the index is
    // reported as invalid data, not parsed out of bounds.
    let mut target = Xbox360Wired::new(
        FakePort::scripted(vec![Ok(Vec::new()), Ok(vec![12, 0, 0, 0])]),
        TargetId::xbox360_wired(),
    );
    target.plugin().unwrap();
    assert_eq!(target.get_user_index(), Err(Error::WinError(ERROR_INVALID_DATA)));
}

#[test]
fn get_user_index_translates_out_of_range() {
    let mut target = Xbox360Wired::new(
        FakePort::scripted(vec![
            Ok(Vec::new()),
            Err(ERROR_INVALID_DEVICE_OBJECT_PARAMETER),
        ]),
        TargetId::xbox360_wired(),
    );
    target.plugin().unwrap();
    assert_eq!(target.get_user_index(), Err(Error::UserIndexOutOfRange));
}

#[test]
fn notification_poll_outcomes() {
    let mut target = Xbox360Wired::new(FakePort::accepting(), TargetId::xbox360_wired());
    target.plugin().unwrap();
    let mut notify: XNotifyState = target.request_notification().unwrap();
    assert!(notify.is_attached());
    assert!(notify.should_request());

    // A completed request: the buffer carries the motors and LED at
    // offsets 8 to 10.
    let buffer = vec![12, 0, 0, 0, 1, 0, 0, 0, 0x60, 0x30, 2, 0];
    assert_eq!(
        notify.on_poll(Ok(buffer)),
        Ok(Some(XNotification {
            large_motor: 0x60,
            small_motor: 0x30,
            led_number: 2,
        }))
    );
    assert!(notify.should_request());

    // Still pending: no notification yet.
    assert_eq!(notify.on_poll(Err(ERROR_IO_INCOMPLETE)), Ok(None));

    // Teardown path: an aborted request ends the loop and
    // detaches the notification state for good.
    assert_eq!(
        notify.on_poll(Err(ERROR_OPERATION_ABORTED)),
        Err(Error::OperationAborted)
    );
    assert!(!notify.is_attached());
    assert!(!notify.should_request());
}

#[test]
fn notification_requires_attachment() {
    let mut target = Xbox360Wired::new(FakePort::accepting(), TargetId::xbox360_wired());
    assert_eq!(target.request_notification(), Err(Error::NotPluggedIn));
}

#[test]
fn connect_scan_error_priority() {
    let scan = ConnectScan::new();
    assert_eq!(scan.into_error(), Error::BusNotFound);

    let mut scan = ConnectScan::new();
    scan.detail_failed(122);
    assert_eq!(scan.into_error(), Error::WinError(122));

    let mut scan = ConnectScan::new();
    scan.open_failed(5);
    assert_eq!(scan.into_error(), Error::BusAccessFailed(5));

    let mut scan = ConnectScan::new();
    scan.open_failed(5);
    scan.version_rejected();
    assert_eq!(scan.into_error(), Error::BusVersionMismatch);
}
