//! Byte-level checks of the report and command codecs.

use vigem_client::BatteryStatus;
use vigem_client::CheckVersion;
use vigem_client::DS4Buttons;
use vigem_client::DS4Report;
use vigem_client::DS4ReportBuilder;
use vigem_client::DS4ReportEx;
use vigem_client::DS4ReportExBuilder;
use vigem_client::DS4SpecialButtons;
use vigem_client::DS4Status;
use vigem_client::DS4SubmitReport;
use vigem_client::DS4SubmitReportEx;
use vigem_client::DS4TouchPoint;
use vigem_client::DS4TouchReport;
use vigem_client::DpadDirection;
use vigem_client::PluginTarget;
use vigem_client::TargetId;
use vigem_client::UnplugTarget;
use vigem_client::WaitDeviceReady;
use vigem_client::XButtons;
use vigem_client::XGamepad;
use vigem_client::XUsbGetUserIndex;
use vigem_client::XUsbSubmitReport;

#[test]
fn buttons_accumulate() {
    let buttons = DS4Buttons::new()
        .thumb_right(true)
        .cross(true)
        .shoulder_left(true);
    assert_eq!(
        buttons.0,
        DS4Buttons::THUMB_RIGHT | DS4Buttons::CROSS | DS4Buttons::SHOULDER_LEFT | 0x8
    );
    let unchanged = buttons.square(false);
    assert_eq!(unchanged.0, buttons.0);
}

#[test]
fn dpad_last_direction_wins() {
    // Buttons set first, then two directions in a row; the second
    // direction replaces the first and no button bit is disturbed.
    let base = DS4Buttons::new().cross(true).triangle(true);
    let first = base.dpad(DpadDirection::South);
    let second = first.dpad(DpadDirection::West);
    assert_eq!(second.0 & 0xF, 0x6);
    assert_eq!(second.0 & 0xFFF0, base.0 & 0xFFF0);
    assert_eq!(second.0, base.dpad(DpadDirection::West).0);
    // Setting a direction on a fresh value gives exactly its code.
    assert_eq!(DS4Buttons::new().dpad(DpadDirection::South).0, 0x4);
}

#[test]
fn dpad_codes_decode() {
    assert_eq!(
        DpadDirection::try_from_bits(0x4),
        Some(DpadDirection::South)
    );
    assert_eq!(
        DpadDirection::try_from_bits(0x8),
        Some(DpadDirection::Neutral)
    );
    assert_eq!(DpadDirection::try_from_bits(0x9), None);
    let all = [
        DpadDirection::North,
        DpadDirection::NorthEast,
        DpadDirection::East,
        DpadDirection::SouthEast,
        DpadDirection::South,
        DpadDirection::SouthWest,
        DpadDirection::West,
        DpadDirection::NorthWest,
        DpadDirection::Neutral,
    ];
    for d in all {
        assert_eq!(DpadDirection::try_from_bits(d.bits()), Some(d));
    }
}

#[test]
fn special_buttons_accumulate() {
    let special = DS4SpecialButtons::new().mic_mute(true).ps_home(true);
    assert_eq!(
        special.0,
        DS4SpecialButtons::MIC_MUTE | DS4SpecialButtons::PS_HOME
    );
    assert_eq!(DS4SpecialButtons::new().0, 0);
}

#[test]
fn touch_point_clamps_to_boundary() {
    // Far out-of-range coordinates saturate at the boundary.
    let point = DS4TouchPoint::new(5000, 5000);
    assert!(point.is_active());
    assert_eq!(point.x(), 1919);
    assert_eq!(point.y(), 942);
}

#[test]
fn touch_point_round_trip() {
    let point = DS4TouchPoint::new(1919, 942);
    assert_eq!(point.x(), 1919);
    assert_eq!(point.y(), 942);
    let point = DS4TouchPoint::new(100, 200);
    assert!(point.is_active());
    assert_eq!(point.x(), 100);
    assert_eq!(point.y(), 200);
    assert!(!DS4TouchPoint::inactive().is_active());
}

#[test]
fn touch_point_packing_formula() {
    // X = 0x77F and Y = 0x3AE split across the nibble boundary: low X
    // byte, then X's high nibble beside Y's low nibble, then Y's high
    // bits.
    let point = DS4TouchPoint::new(0x77F, 0x3AE);
    assert_eq!(point.contact, 0);
    assert_eq!(point.x_lo, 0x7F);
    assert_eq!(point.x_hi_y_lo, 0x7E);
    assert_eq!(point.y_hi, 0x3A);
    let inactive = DS4TouchPoint::inactive();
    assert_eq!(inactive.contact, 0x80);
    assert_eq!(inactive.x_lo, 0);
}

#[test]
fn touch_report_fills_missing_points() {
    let report = DS4TouchReport::new(7, Some(DS4TouchPoint::new(22, 5)), None);
    assert_eq!(report.timestamp, 7);
    assert_eq!(report.point1.x(), 22);
    assert_eq!(report.point1.y(), 5);
    assert!(!report.point2.is_active());
}

#[test]
fn battery_status_round_trip() {
    // A charging status decodes to
    // cable-connected with the same capacity.
    let status = DS4Status::with_battery_status(BatteryStatus::Charging(5));
    assert_eq!(status.0, DS4Status::CABLE_STATE | 5);
    assert!(status.cable_connected());
    assert_eq!(status.battery_status(), BatteryStatus::Charging(5));
    // Capacities above the valid range saturate at 10.
    let status = DS4Status::with_battery_status(BatteryStatus::Charging(11));
    assert_eq!(status.battery_status(), BatteryStatus::Charging(10));
}

#[test]
fn battery_sentinels() {
    // The three defined sentinels encode to 11, 14 and 15 and decode
    // back; 12 and 13 are left undefined by the protocol and are not
    // asserted on.
    assert_eq!(BatteryStatus::Full.bits(), 11);
    assert_eq!(BatteryStatus::NotCharging.bits(), 14);
    assert_eq!(BatteryStatus::Error.bits(), 15);
    assert_eq!(
        DS4Status::with_battery_status(BatteryStatus::Full).battery_status(),
        BatteryStatus::Full
    );
    assert_eq!(
        DS4Status::with_battery_status(BatteryStatus::NotCharging).battery_status(),
        BatteryStatus::NotCharging
    );
    assert_eq!(
        DS4Status::with_battery_status(BatteryStatus::Error).battery_status(),
        BatteryStatus::Error
    );
}

#[test]
fn ds4_report_defaults() {
    let report = DS4Report::default();
    assert_eq!(report.thumb_lx, 0x80);
    assert_eq!(report.thumb_ly, 0x80);
    assert_eq!(report.thumb_rx, 0x80);
    assert_eq!(report.thumb_ry, 0x80);
    assert_eq!(report.buttons, 0x8);
    assert_eq!(report.special, 0);
    assert_eq!(report.trigger_l, 0);
    assert_eq!(report.trigger_r, 0);
    assert_eq!(DS4ReportBuilder::new().build(), report);
}

#[test]
fn ds4_report_builder_sets_fields() {
    let report = DS4ReportBuilder::new()
        .thumb_lx(0x11)
        .thumb_ly(0x22)
        .thumb_rx(0x33)
        .thumb_ry(0x44)
        .buttons(DS4Buttons::new().cross(true))
        .special(DS4SpecialButtons::new().touchpad(true))
        .trigger_l(0x55)
        .trigger_r(0x66)
        .build();
    assert_eq!(report.thumb_lx, 0x11);
    assert_eq!(report.thumb_ly, 0x22);
    assert_eq!(report.thumb_rx, 0x33);
    assert_eq!(report.thumb_ry, 0x44);
    assert_eq!(report.buttons, DS4Buttons::CROSS | 0x8);
    assert_eq!(report.special, DS4SpecialButtons::TOUCHPAD);
    assert_eq!(report.trigger_l, 0x55);
    assert_eq!(report.trigger_r, 0x66);
}

#[test]
fn ds4_report_bytes() {
    let report = DS4ReportBuilder::new()
        .thumb_lx(0x01)
        .buttons(DS4Buttons::new().thumb_right(true))
        .trigger_r(0x99)
        .build();
    let bytes = report.to_bytes();
    assert_eq!(
        bytes,
        vec![0x01, 0x80, 0x80, 0x80, 0x08, 0x80, 0x00, 0x00, 0x99, 0x00]
    );
    assert_eq!(DS4Report::from_bytes(&bytes), Some(report));
    assert_eq!(DS4Report::from_bytes(&bytes[..9]), None);
}

#[test]
fn ds4_report_ex_is_63_bytes() {
    // The extended report always serializes to exactly 63 bytes.
    assert_eq!(DS4ReportEx::default().to_bytes().len(), 63);
    let full = DS4ReportExBuilder::new()
        .thumb_lx(0)
        .thumb_ly(0xFF)
        .buttons(DS4Buttons::new().square(true))
        .timestamp(0xABCD)
        .temp(99)
        .gyro_x(-32768)
        .gyro_y(32767)
        .gyro_z(-1)
        .accel_x(1900)
        .accel_y(-1900)
        .accel_z(3)
        .status(DS4Status::with_battery_status(BatteryStatus::Full))
        .touch_reports(
            Some(DS4TouchReport::new(1, Some(DS4TouchPoint::new(1920, 943)), None)),
            Some(DS4TouchReport::new(2, None, None)),
            None,
        )
        .build();
    assert_eq!(full.to_bytes().len(), 63);
}

#[test]
fn ds4_report_ex_layout() {
    let report = DS4ReportExBuilder::new()
        .thumb_lx(0x10)
        .thumb_ly(0x20)
        .thumb_rx(0x30)
        .thumb_ry(0x40)
        .buttons(DS4Buttons::new().cross(true))
        .special(DS4SpecialButtons::new().ps_home(true))
        .trigger_l(0x05)
        .trigger_r(0x06)
        .timestamp(0x1234)
        .temp(0x55)
        .gyro_x(-2)
        .status(DS4Status::with_battery_status(BatteryStatus::Charging(9)))
        .build();
    let bytes = report.to_bytes();
    assert_eq!(bytes.len(), 63);
    assert_eq!(&bytes[0..4], &[0x10, 0x20, 0x30, 0x40]);
    // Buttons little-endian at offset 4.
    assert_eq!(&bytes[4..6], &[0x28, 0x00]);
    assert_eq!(bytes[6], 0x01);
    assert_eq!(bytes[7], 0x05);
    assert_eq!(bytes[8], 0x06);
    // Timestamp little-endian at the odd offset 9.
    assert_eq!(&bytes[9..11], &[0x34, 0x12]);
    assert_eq!(bytes[11], 0x55);
    // Gyro X is -2: two's complement, little-endian.
    assert_eq!(&bytes[12..14], &[0xFE, 0xFF]);
    // Reserved block, then the status word at offset 29.
    assert_eq!(&bytes[24..29], &[0, 0, 0, 0, 0]);
    assert_eq!(&bytes[29..31], &[0x19, 0x00]);
    // Touch count at offset 32, trailing reserved bytes at 60.
    assert_eq!(bytes[32], 0);
    assert_eq!(&bytes[60..63], &[0, 0, 0]);
}

#[test]
fn ds4_report_ex_round_trip() {
    let report = DS4ReportExBuilder::new()
        .thumb_lx(1)
        .thumb_ry(254)
        .buttons(DS4Buttons::new().share(true).dpad(DpadDirection::East))
        .trigger_l(7)
        .timestamp(40000)
        .gyro_x(-30000)
        .gyro_y(12345)
        .accel_z(-1)
        .status(DS4Status::with_battery_status(BatteryStatus::NotCharging))
        .touch_reports(
            Some(DS4TouchReport::new(
                9,
                Some(DS4TouchPoint::new(1919, 942)),
                Some(DS4TouchPoint::new(0, 0)),
            )),
            None,
            None,
        )
        .build();
    let bytes = report.to_bytes();
    assert_eq!(DS4ReportEx::from_bytes(&bytes), Some(report));
    assert_eq!(DS4ReportEx::from_bytes(&bytes[..62]), None);
}

#[test]
fn ds4_report_ex_touch_counting() {
    let builder = DS4ReportExBuilder::new().touch_reports(None, None, None);
    assert_eq!(builder.num_touch_reports, 0);
    let one = DS4ReportExBuilder::new().touch_reports(
        Some(DS4TouchReport::new(0, None, None)),
        None,
        None,
    );
    assert_eq!(one.num_touch_reports, 1);
    let three = DS4ReportExBuilder::new().touch_reports(
        Some(DS4TouchReport::new(0, None, None)),
        Some(DS4TouchReport::new(1, None, None)),
        Some(DS4TouchReport::new(2, None, None)),
    );
    assert_eq!(three.num_touch_reports, 3);
    let capped = DS4ReportExBuilder::new().all_touch_reports(
        9,
        [
            DS4TouchReport::new(0, None, None),
            DS4TouchReport::new(1, None, None),
            DS4TouchReport::new(2, None, None),
        ],
    );
    assert_eq!(capped.num_touch_reports, 3);
    assert_eq!(capped.touch_previous.timestamp, 1);
}

#[test]
fn xbuttons_combine() {
    let buttons = XButtons(XButtons::UP | XButtons::RIGHT | XButtons::LB | XButtons::A | XButtons::X);
    assert_eq!(buttons, XButtons(0x5109));
    assert_eq!(buttons.raw, 0x5109);
}

#[test]
fn xgamepad_bytes_round_trip() {
    let pad = XGamepad {
        buttons: XButtons(XButtons::A | XButtons::START),
        left_trigger: 0x11,
        right_trigger: 0x22,
        thumb_lx: -2,
        thumb_ly: 32767,
        thumb_rx: -32768,
        thumb_ry: 5,
    };
    let bytes = pad.to_bytes();
    assert_eq!(bytes.len(), 12);
    assert_eq!(&bytes[0..2], &[0x10, 0x10]);
    assert_eq!(bytes[2], 0x11);
    assert_eq!(bytes[3], 0x22);
    assert_eq!(&bytes[4..6], &[0xFE, 0xFF]);
    assert_eq!(&bytes[6..8], &[0xFF, 0x7F]);
    assert_eq!(&bytes[8..10], &[0x00, 0x80]);
    assert_eq!(XGamepad::from_bytes(&bytes), Some(pad));
    let neutral = XGamepad::default();
    assert_eq!(neutral.buttons.raw, 0);
    assert_eq!(neutral.thumb_lx, 0);
}

#[test]
fn target_ids() {
    let id = TargetId::xbox360_wired();
    assert_eq!(id.vendor, 0x045E);
    assert_eq!(id.product, 0x028E);
    let id = TargetId::dualshock4_wired();
    assert_eq!(id.vendor, 0x054C);
    assert_eq!(id.product, 0x05C4);
}

#[test]
fn command_layouts() {
    assert_eq!(
        CheckVersion::common().to_bytes(),
        vec![8, 0, 0, 0, 1, 0, 0, 0]
    );
    let plugin = PluginTarget::x360_wired(1, 0x045E, 0x028E);
    assert_eq!(
        plugin.to_bytes(),
        vec![16, 0, 0, 0, 1, 0, 0, 0, 0, 0, 0, 0, 0x5E, 0x04, 0x8E, 0x02]
    );
    let plugin = PluginTarget::ds4_wired(2, 0x054C, 0x05C4);
    assert_eq!(
        plugin.to_bytes(),
        vec![16, 0, 0, 0, 2, 0, 0, 0, 2, 0, 0, 0, 0x4C, 0x05, 0xC4, 0x05]
    );
    assert_eq!(UnplugTarget::new(3).to_bytes(), vec![8, 0, 0, 0, 3, 0, 0, 0]);
    assert_eq!(
        WaitDeviceReady::new(4).to_bytes(),
        vec![8, 0, 0, 0, 4, 0, 0, 0]
    );
    assert_eq!(
        XUsbGetUserIndex::new(5).to_bytes(),
        vec![12, 0, 0, 0, 5, 0, 0, 0, 0, 0, 0, 0]
    );
}

#[test]
fn submit_command_layouts() {
    let xsr = XUsbSubmitReport::new(7, XGamepad::default());
    let bytes = xsr.to_bytes();
    assert_eq!(bytes.len(), 20);
    assert_eq!(&bytes[0..8], &[20, 0, 0, 0, 7, 0, 0, 0]);
    let dsr = DS4SubmitReport::new(9, DS4Report::default());
    let bytes = dsr.to_bytes();
    assert_eq!(bytes.len(), 20);
    assert_eq!(&bytes[0..8], &[20, 0, 0, 0, 9, 0, 0, 0]);
    assert_eq!(&bytes[18..20], &[0, 0]);
    let dsx = DS4SubmitReportEx::new(11, DS4ReportEx::default());
    let bytes = dsx.to_bytes();
    assert_eq!(bytes.len(), 71);
    assert_eq!(&bytes[0..8], &[71, 0, 0, 0, 11, 0, 0, 0]);
}
