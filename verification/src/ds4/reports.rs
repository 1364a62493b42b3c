//! DualShock 4 input reports.
//!
//! Two report shapes exist: the basic report (sticks, buttons, triggers)
//! and the extended report, which adds a timestamp, motion sensors, battery
//! status and up to three touch snapshots.  Both are laid out byte by byte
//! exactly as the driver expects them; the extended report is always exactly
//! 63 bytes.  Every encoder here has a decoder, and decoding what was
//! encoded gives the original fields back.

use vstd::prelude::*;

use crate::ds4::button::DS4Buttons;
use crate::ds4::button::DS4SpecialButtons;
use crate::wire;

verus! {

/// DualShock 4 basic input report.
///
/// Sticks are unsigned bytes centered at `0x80`; triggers are unsigned
/// bytes, `0` released; `buttons` and `special` are the packed words built
/// by [`DS4Buttons`] and [`DS4SpecialButtons`].
#[derive(Copy, Clone, Debug, Eq, PartialEq, Structural)]
pub struct DS4Report {
    pub thumb_lx: u8,
    pub thumb_ly: u8,
    pub thumb_rx: u8,
    pub thumb_ry: u8,
    pub buttons: u16,
    pub special: u8,
    pub trigger_l: u8,
    pub trigger_r: u8,
}

impl DS4Report {
    /// The 10-byte wire form of the basic report: nine data bytes and one
    /// trailing alignment byte, always zero.
    pub open spec fn spec_bytes(self) -> Seq<u8> {
        seq![
            self.thumb_lx,
            self.thumb_ly,
            self.thumb_rx,
            self.thumb_ry,
            wire::le16_lo(self.buttons),
            wire::le16_hi(self.buttons),
            self.special,
            self.trigger_l,
            self.trigger_r,
            0u8,
        ]
    }

    /// The report a 10-byte wire form stands for; anything of another
    /// length is not a basic report.
    pub open spec fn spec_from_bytes(b: Seq<u8>) -> Option<DS4Report> {
        if b.len() == 10 {
            Some(
                DS4Report {
                    thumb_lx: b[0],
                    thumb_ly: b[1],
                    thumb_rx: b[2],
                    thumb_ry: b[3],
                    buttons: wire::u16_from_le(b[4], b[5]),
                    special: b[6],
                    trigger_l: b[7],
                    trigger_r: b[8],
                },
            )
        } else {
            None
        }
    }

    /// Serialize the report to its exact 10-byte wire form.
    pub fn to_bytes(&self) -> (r: Vec<u8>)
        ensures
            r@ == self.spec_bytes(),
            r@.len() == 10,
    {
        let mut buf: Vec<u8> = Vec::new();
        wire::push_u8(&mut buf, self.thumb_lx);
        wire::push_u8(&mut buf, self.thumb_ly);
        wire::push_u8(&mut buf, self.thumb_rx);
        wire::push_u8(&mut buf, self.thumb_ry);
        wire::push_le16(&mut buf, self.buttons);
        wire::push_u8(&mut buf, self.special);
        wire::push_u8(&mut buf, self.trigger_l);
        wire::push_u8(&mut buf, self.trigger_r);
        wire::push_u8(&mut buf, 0);
        proof {
            assert(buf@ =~= self.spec_bytes());
        }
        buf
    }

    /// Decode a 10-byte wire form back into a report.
    pub fn from_bytes(b: &[u8]) -> (r: Option<DS4Report>)
        ensures
            r == DS4Report::spec_from_bytes(b@),
    {
        if b.len() != 10 {
            return None;
        }
        Some(
            DS4Report {
                thumb_lx: b[0],
                thumb_ly: b[1],
                thumb_rx: b[2],
                thumb_ry: b[3],
                buttons: wire::read_le16(b, 4),
                special: b[6],
                trigger_l: b[7],
                trigger_r: b[8],
            },
        )
    }
}

impl Default for DS4Report {
    /// The neutral report: sticks centered, nothing pressed, triggers
    /// released.
    fn default() -> (r: Self)
        ensures
            r == DS4Report::spec_default(),
    {
        DS4Report {
            thumb_lx: 0x80,
            thumb_ly: 0x80,
            thumb_rx: 0x80,
            thumb_ry: 0x80,
            buttons: 0x8,
            special: 0,
            trigger_l: 0,
            trigger_r: 0,
        }
    }
}

impl DS4Report {
    /// The neutral report [`Default`] returns.
    pub open spec fn spec_default() -> DS4Report {
        DS4Report {
            thumb_lx: 0x80,
            thumb_ly: 0x80,
            thumb_rx: 0x80,
            thumb_ry: 0x80,
            buttons: 0x8,
            special: 0,
            trigger_l: 0,
            trigger_r: 0,
        }
    }
}

/// Decoding a basic report's wire form gives back exactly the report that
/// was encoded, whatever its field values.
pub proof fn lemma_ds4_report_round_trip(r: DS4Report)
    ensures
        DS4Report::spec_from_bytes(r.spec_bytes()) == Some(r),
{
    wire::lemma_le16_round_trip(r.buttons);
}

/// DualShock 4 touch point: one touchpad contact.
///
/// Four bytes on the wire: a contact byte whose top bit is the inverted
/// active flag (`0` = active, `1` = inactive), then a 12-bit X coordinate
/// (`0..=1919`) and a 12-bit Y coordinate (`0..=942`) split across nibble
/// boundaries.
#[derive(Copy, Clone, Debug, Eq, PartialEq, Structural)]
pub struct DS4TouchPoint {
    /// Top bit set means the touch point is inactive.
    pub contact: u8,
    /// Low eight bits of X.
    pub x_lo: u8,
    /// High nibble: bits 8 to 11 of X; low nibble: bits 0 to 3 of Y.
    pub x_hi_y_lo: u8,
    /// Bits 4 to 11 of Y.
    pub y_hi: u8,
}

impl DS4TouchPoint {
    /// Whether the top bit of the contact byte marks this point active.
    pub open spec fn is_active_spec(self) -> bool {
        self.contact & 0x80 == 0
    }

    /// The X coordinate packed into this point.
    pub open spec fn spec_x(self) -> u16 {
        (((self.x_hi_y_lo & 0xF0) as u16) << 4) | (self.x_lo as u16)
    }

    /// The Y coordinate packed into this point.
    pub open spec fn spec_y(self) -> u16 {
        ((self.y_hi as u16) << 4) | ((self.x_hi_y_lo & 0xF) as u16)
    }

    /// The inactive touch point all unset slots carry.
    pub open spec fn spec_inactive() -> DS4TouchPoint {
        DS4TouchPoint { contact: 0x80, x_lo: 0, x_hi_y_lo: 0, y_hi: 0 }
    }

    /// The 4-byte wire form of the point.
    pub open spec fn spec_bytes(self) -> Seq<u8> {
        seq![self.contact, self.x_lo, self.x_hi_y_lo, self.y_hi]
    }

    /// The point four wire bytes stand for, read at offset `i`.
    pub open spec fn spec_from_bytes_at(b: Seq<u8>, i: int) -> DS4TouchPoint {
        DS4TouchPoint { contact: b[i], x_lo: b[i + 1], x_hi_y_lo: b[i + 2], y_hi: b[i + 3] }
    }

    /// Create a new active touch point.
    ///
    /// X saturates at 1919 and Y at 942; out-of-range input clamps to the
    /// boundary, it does not wrap.
    pub fn new(x: u16, y: u16) -> (r: Self)
        ensures
            r.is_active_spec(),
            r.spec_x() == if x > 1919 { 1919u16 } else { x },
            r.spec_y() == if y > 942 { 942u16 } else { y },
    {
        let xc: u16 = if x > 1919 { 1919 } else { x };
        let yc: u16 = if y > 942 { 942 } else { y };
        let r = DS4TouchPoint {
            contact: 0,
            x_lo: (xc & 0xFF) as u8,
            x_hi_y_lo: ((((xc >> 8) & 0xF) << 4) as u8) | ((yc & 0xF) as u8),
            y_hi: (yc >> 4) as u8,
        };
        proof {
            assert(0u8 & 0x80 == 0) by (bit_vector);
            assert((((((((xc >> 8) & 0xF) << 4) as u8) | ((yc & 0xF) as u8)) & 0xF0) as u16) << 4
                | (((xc & 0xFF) as u8) as u16) == xc) by (bit_vector)
                requires
                    xc <= 1919,
            ;
            assert(((((yc >> 4) as u8) as u16) << 4) | (((((((xc >> 8) & 0xF) << 4) as u8) | ((yc
                & 0xF) as u8)) & 0xF) as u16) == yc) by (bit_vector)
                requires
                    yc <= 942,
            ;
        }
        r
    }

    /// Create a new inactive touch point.
    pub fn inactive() -> (r: Self)
        ensures
            r == DS4TouchPoint::spec_inactive(),
    {
        DS4TouchPoint { contact: 0x80, x_lo: 0, x_hi_y_lo: 0, y_hi: 0 }
    }

    /// Returns if the touch point is active.
    pub fn is_active(&self) -> (r: bool)
        ensures
            r == self.is_active_spec(),
    {
        self.contact & 0x80 == 0
    }

    /// Get the X coordinate of the touch point.
    pub fn x(&self) -> (r: u16)
        ensures
            r == self.spec_x(),
    {
        (((self.x_hi_y_lo & 0xF0) as u16) << 4) | (self.x_lo as u16)
    }

    /// Get the Y coordinate of the touch point.
    pub fn y(&self) -> (r: u16)
        ensures
            r == self.spec_y(),
    {
        ((self.y_hi as u16) << 4) | ((self.x_hi_y_lo & 0xF) as u16)
    }

    /// Append the point's 4 wire bytes.
    pub fn write_to(&self, buf: &mut Vec<u8>)
        ensures
            final(buf)@ == old(buf)@ + self.spec_bytes(),
    {
        wire::push_u8(buf, self.contact);
        wire::push_u8(buf, self.x_lo);
        wire::push_u8(buf, self.x_hi_y_lo);
        wire::push_u8(buf, self.y_hi);
        proof {
            assert(buf@ =~= old(buf)@ + self.spec_bytes());
        }
    }

    /// Read a point's 4 wire bytes at offset `i`.
    pub fn read_from(b: &[u8], i: usize) -> (r: Self)
        requires
            i + 4 <= b@.len(),
        ensures
            r == DS4TouchPoint::spec_from_bytes_at(b@, i as int),
    {
        DS4TouchPoint { contact: b[i], x_lo: b[i + 1], x_hi_y_lo: b[i + 2], y_hi: b[i + 3] }
    }
}

impl Default for DS4TouchPoint {
    /// An inactive touch point.
    fn default() -> (r: Self)
        ensures
            r == DS4TouchPoint::spec_inactive(),
    {
        DS4TouchPoint::inactive()
    }
}

/// Reading an active touch point's packed coordinates gives back exactly
/// the clamped input coordinates: for in-range coordinates the packing is
/// the identity, for out-of-range ones it saturates at the boundary.
pub proof fn lemma_touch_point_round_trip(p: DS4TouchPoint, i: int, b: Seq<u8>)
    requires
        0 <= i,
        i + 4 <= b.len(),
        b.subrange(i, i + 4) == p.spec_bytes(),
    ensures
        DS4TouchPoint::spec_from_bytes_at(b, i) == p,
{
    assert(b.subrange(i, i + 4)[0] == b[i]);
    assert(b.subrange(i, i + 4)[1] == b[i + 1]);
    assert(b.subrange(i, i + 4)[2] == b[i + 2]);
    assert(b.subrange(i, i + 4)[3] == b[i + 3]);
}

/// DualShock 4 touch report: one timestamped touchpad snapshot holding two
/// touch points.
#[derive(Copy, Clone, Debug, Eq, PartialEq, Structural)]
pub struct DS4TouchReport {
    pub timestamp: u8,
    pub point1: DS4TouchPoint,
    pub point2: DS4TouchPoint,
}

impl DS4TouchReport {
    /// The point an optional argument stands for: the argument itself, or
    /// the inactive point when absent.
    pub open spec fn spec_point_or_inactive(p: Option<DS4TouchPoint>) -> DS4TouchPoint {
        match p {
            Some(q) => q,
            None => DS4TouchPoint::spec_inactive(),
        }
    }

    /// The 9-byte wire form: the timestamp byte, then both points.
    pub open spec fn spec_bytes(self) -> Seq<u8> {
        seq![self.timestamp] + self.point1.spec_bytes() + self.point2.spec_bytes()
    }

    /// The touch report nine wire bytes stand for, read at offset `i`.
    pub open spec fn spec_from_bytes_at(b: Seq<u8>, i: int) -> DS4TouchReport {
        DS4TouchReport {
            timestamp: b[i],
            point1: DS4TouchPoint::spec_from_bytes_at(b, i + 1),
            point2: DS4TouchPoint::spec_from_bytes_at(b, i + 5),
        }
    }

    /// The all-inactive touch report unset slots carry.
    pub open spec fn spec_default() -> DS4TouchReport {
        DS4TouchReport {
            timestamp: 0,
            point1: DS4TouchPoint::spec_inactive(),
            point2: DS4TouchPoint::spec_inactive(),
        }
    }

    /// Create a new touch report from up to two touch points; absent points
    /// become inactive points.  The timestamp should be incremented for
    /// each new report.
    pub fn new(timestamp: u8, point1: Option<DS4TouchPoint>, point2: Option<DS4TouchPoint>) -> (r:
        Self)
        ensures
            r.timestamp == timestamp,
            r.point1 == DS4TouchReport::spec_point_or_inactive(point1),
            r.point2 == DS4TouchReport::spec_point_or_inactive(point2),
    {
        let p1 = match point1 {
            Some(p) => p,
            None => DS4TouchPoint::inactive(),
        };
        let p2 = match point2 {
            Some(p) => p,
            None => DS4TouchPoint::inactive(),
        };
        DS4TouchReport { timestamp, point1: p1, point2: p2 }
    }

    /// Append the report's 9 wire bytes.
    pub fn write_to(&self, buf: &mut Vec<u8>)
        ensures
            final(buf)@ == old(buf)@ + self.spec_bytes(),
    {
        wire::push_u8(buf, self.timestamp);
        self.point1.write_to(buf);
        self.point2.write_to(buf);
        proof {
            assert(buf@ =~= old(buf)@ + self.spec_bytes());
        }
    }

    /// Read a report's 9 wire bytes at offset `i`.
    pub fn read_from(b: &[u8], i: usize) -> (r: Self)
        requires
            i + 9 <= b@.len(),
        ensures
            r == DS4TouchReport::spec_from_bytes_at(b@, i as int),
    {
        DS4TouchReport {
            timestamp: b[i],
            point1: DS4TouchPoint::read_from(b, i + 1),
            point2: DS4TouchPoint::read_from(b, i + 5),
        }
    }
}

impl Default for DS4TouchReport {
    /// An all-inactive touch report.
    fn default() -> (r: Self)
        ensures
            r == DS4TouchReport::spec_default(),
    {
        DS4TouchReport {
            timestamp: 0,
            point1: DS4TouchPoint::inactive(),
            point2: DS4TouchPoint::inactive(),
        }
    }
}

/// Battery status of the controller, consumed by [`DS4Status`].
#[derive(Copy, Clone, Debug, Eq, PartialEq, Structural)]
pub enum BatteryStatus {
    /// Charging, with the capacity in `0..=10` standing for the charge
    /// level in 10% steps.  Capacities above 10 saturate at 10 when
    /// encoded.
    Charging(u8),
    /// Battery is full.
    Full,
    /// Not charging due to a voltage or temperature error.
    Error,
    /// Not charging.
    NotCharging,
}

impl BatteryStatus {
    /// The low-nibble wire code of this battery status: the capacity for
    /// `Charging`, or one of the three sentinel codes 11, 14 and 15.
    pub open spec fn bits_spec(self) -> u16 {
        match self {
            BatteryStatus::Charging(capacity) => if capacity > 10 {
                10
            } else {
                capacity as u16
            },
            BatteryStatus::Full => 11,
            BatteryStatus::Error => 15,
            BatteryStatus::NotCharging => 14,
        }
    }

    /// The battery status the low nibble of a status word stands for.
    ///
    /// Codes 11, 14 and 15 are the three defined sentinels.  Codes 12 and
    /// 13 sit between the capacity range and the sentinels and are left
    /// undefined by the protocol; they decode as `Charging` values outside
    /// the valid capacity range and no meaning should be read into them.
    pub open spec fn from_bits_spec(raw: u16) -> BatteryStatus {
        let code = raw & 0xF;
        if code == 11 {
            BatteryStatus::Full
        } else if code == 14 {
            BatteryStatus::NotCharging
        } else if code == 15 {
            BatteryStatus::Error
        } else {
            BatteryStatus::Charging(code as u8)
        }
    }

    /// Encode this battery status as its low-nibble wire code.
    pub fn bits(self) -> (r: u16)
        ensures
            r == self.bits_spec(),
            r <= 15,
    {
        match self {
            BatteryStatus::Charging(capacity) => if capacity > 10 {
                10
            } else {
                capacity as u16
            },
            BatteryStatus::Full => 11,
            BatteryStatus::Error => 15,
            BatteryStatus::NotCharging => 14,
        }
    }

    /// Decode the low nibble of a status word back into a battery status.
    pub fn from_bits(raw: u16) -> (r: BatteryStatus)
        ensures
            r == BatteryStatus::from_bits_spec(raw),
    {
        let code = raw & 0xF;
        proof {
            assert(raw & 0xF <= 15) by (bit_vector);
        }
        if code == 11 {
            BatteryStatus::Full
        } else if code == 14 {
            BatteryStatus::NotCharging
        } else if code == 15 {
            BatteryStatus::Error
        } else {
            BatteryStatus::Charging(code as u8)
        }
    }
}

/// DS4 status flags: the 16-bit status word of the extended report.
///
/// The word ORs the cable-connected bit with the battery code built by
/// [`BatteryStatus`]; construct it with [`DS4Status::with_battery_status`].
#[derive(Copy, Clone, Debug, Eq, PartialEq, Structural)]
pub struct DS4Status(pub u16);

impl DS4Status {
    /// Cable connected bit.
    pub const CABLE_STATE: u16 = 0x10;

    /// Battery sentinel: charge error.
    pub const CHARGE_ERROR: u16 = 15;
    /// Battery sentinel: not charging due to a voltage or temperature
    /// error.
    pub const NOT_CHARGING: u16 = 14;
    /// Battery sentinel: battery is full.
    pub const BATTERY_FULL: u16 = 11;

    /// Create a new status word with the cable marked connected and the
    /// low nibble holding the battery code: the capacity for charge levels,
    /// or one of the sentinel codes 11, 14 and 15.
    pub fn with_battery_status(status: BatteryStatus) -> (r: Self)
        ensures
            r.0 == DS4Status::CABLE_STATE | status.bits_spec(),
    {
        DS4Status(DS4Status::CABLE_STATE | status.bits())
    }

    /// Whether the status word has the cable-connected bit set.
    pub fn cable_connected(&self) -> (r: bool)
        ensures
            r == (self.0 & DS4Status::CABLE_STATE != 0),
    {
        self.0 & DS4Status::CABLE_STATE != 0
    }

    /// The battery status the word's low nibble stands for.
    pub fn battery_status(&self) -> (r: BatteryStatus)
        ensures
            r == BatteryStatus::from_bits_spec(self.0),
    {
        BatteryStatus::from_bits(self.0)
    }
}

impl Default for DS4Status {
    /// Cable connected, battery code zero.
    fn default() -> (r: Self)
        ensures
            r.0 == DS4Status::CABLE_STATE,
    {
        DS4Status(DS4Status::CABLE_STATE)
    }
}

/// A status word built from any valid battery status decodes back to
/// exactly that status, with the cable reported connected: the battery
/// encoding is round-trip safe.  Valid means a charge capacity of at most
/// 10, or one of the three sentinels.
pub proof fn lemma_battery_status_round_trip(s: BatteryStatus)
    requires
        s matches BatteryStatus::Charging(c) ==> c <= 10,
    ensures
        BatteryStatus::from_bits_spec(DS4Status::CABLE_STATE | s.bits_spec()) == s,
        (DS4Status::CABLE_STATE | s.bits_spec()) & DS4Status::CABLE_STATE != 0,
{
    let v = s.bits_spec();
    assert(v <= 15);
    assert((0x10u16 | v) & 0xF == v) by (bit_vector)
        requires
            v <= 15,
    ;
    assert((0x10u16 | v) & 0x10 != 0) by (bit_vector);
    match s {
        BatteryStatus::Charging(c) => {
            assert(v == c as u16);
            assert((v as u8) == c);
        },
        _ => {},
    }
}


/// The byte an optional builder field contributes: the value set, or the
/// default `d` when the field was never set.
pub open spec fn opt_byte_or(o: Option<u8>, d: u8) -> u8 {
    match o {
        Some(v) => v,
        None => d,
    }
}

/// As [`opt_byte_or`], for 16-bit fields.
pub open spec fn opt_u16_or(o: Option<u16>, d: u16) -> u16 {
    match o {
        Some(v) => v,
        None => d,
    }
}

/// As [`opt_byte_or`], for signed 16-bit fields.
pub open spec fn opt_i16_or(o: Option<i16>, d: i16) -> i16 {
    match o {
        Some(v) => v,
        None => d,
    }
}

fn byte_or(o: Option<u8>, d: u8) -> (r: u8)
    ensures
        r == opt_byte_or(o, d),
{
    match o {
        Some(v) => v,
        None => d,
    }
}

fn u16_or(o: Option<u16>, d: u16) -> (r: u16)
    ensures
        r == opt_u16_or(o, d),
{
    match o {
        Some(v) => v,
        None => d,
    }
}

fn i16_or(o: Option<i16>, d: i16) -> (r: i16)
    ensures
        r == opt_i16_or(o, d),
{
    match o {
        Some(v) => v,
        None => d,
    }
}

/// A builder for [`DS4Report`].
///
/// Every field is optional; an unset field builds to its neutral value
/// (sticks centered at `0x80`, no buttons, triggers released).
#[derive(Clone, Debug, Eq, PartialEq)]
pub struct DS4ReportBuilder {
    pub thumb_lx: Option<u8>,
    pub thumb_ly: Option<u8>,
    pub thumb_rx: Option<u8>,
    pub thumb_ry: Option<u8>,
    pub buttons: DS4Buttons,
    pub special: DS4SpecialButtons,
    pub trigger_l: Option<u8>,
    pub trigger_r: Option<u8>,
}

impl DS4ReportBuilder {
    /// Create a new builder with every field unset.
    pub fn new() -> (r: Self)
        ensures
            r == DS4ReportBuilder::spec_default(),
    {
        DS4ReportBuilder {
            thumb_lx: None,
            thumb_ly: None,
            thumb_rx: None,
            thumb_ry: None,
            buttons: DS4Buttons::new(),
            special: DS4SpecialButtons::new(),
            trigger_l: None,
            trigger_r: None,
        }
    }

    /// The builder state with every field unset.
    pub open spec fn spec_default() -> DS4ReportBuilder {
        DS4ReportBuilder {
            thumb_lx: None,
            thumb_ly: None,
            thumb_rx: None,
            thumb_ry: None,
            buttons: DS4Buttons(0x8),
            special: DS4SpecialButtons(0),
            trigger_l: None,
            trigger_r: None,
        }
    }

    /// Set the left thumb stick X axis.
    pub fn thumb_lx(self, value: u8) -> (r: Self)
        ensures
            r == (DS4ReportBuilder { thumb_lx: Some(value), ..self }),
    {
        DS4ReportBuilder { thumb_lx: Some(value), ..self }
    }

    /// Set the left thumb stick Y axis.
    pub fn thumb_ly(self, value: u8) -> (r: Self)
        ensures
            r == (DS4ReportBuilder { thumb_ly: Some(value), ..self }),
    {
        DS4ReportBuilder { thumb_ly: Some(value), ..self }
    }

    /// Set the right thumb stick X axis.
    pub fn thumb_rx(self, value: u8) -> (r: Self)
        ensures
            r == (DS4ReportBuilder { thumb_rx: Some(value), ..self }),
    {
        DS4ReportBuilder { thumb_rx: Some(value), ..self }
    }

    /// Set the right thumb stick Y axis.
    pub fn thumb_ry(self, value: u8) -> (r: Self)
        ensures
            r == (DS4ReportBuilder { thumb_ry: Some(value), ..self }),
    {
        DS4ReportBuilder { thumb_ry: Some(value), ..self }
    }

    /// Set the buttons.
    pub fn buttons(self, value: DS4Buttons) -> (r: Self)
        ensures
            r == (DS4ReportBuilder { buttons: value, ..self }),
    {
        DS4ReportBuilder { buttons: value, ..self }
    }

    /// Set the special buttons.
    pub fn special(self, value: DS4SpecialButtons) -> (r: Self)
        ensures
            r == (DS4ReportBuilder { special: value, ..self }),
    {
        DS4ReportBuilder { special: value, ..self }
    }

    /// Set the left trigger.
    pub fn trigger_l(self, value: u8) -> (r: Self)
        ensures
            r == (DS4ReportBuilder { trigger_l: Some(value), ..self }),
    {
        DS4ReportBuilder { trigger_l: Some(value), ..self }
    }

    /// Set the right trigger.
    pub fn trigger_r(self, value: u8) -> (r: Self)
        ensures
            r == (DS4ReportBuilder { trigger_r: Some(value), ..self }),
    {
        DS4ReportBuilder { trigger_r: Some(value), ..self }
    }

    /// Build the report; every unset field takes its neutral value.
    pub fn build(self) -> (r: DS4Report)
        ensures
            r.thumb_lx == opt_byte_or(self.thumb_lx, 0x80),
            r.thumb_ly == opt_byte_or(self.thumb_ly, 0x80),
            r.thumb_rx == opt_byte_or(self.thumb_rx, 0x80),
            r.thumb_ry == opt_byte_or(self.thumb_ry, 0x80),
            r.buttons == self.buttons.0,
            r.special == self.special.0,
            r.trigger_l == opt_byte_or(self.trigger_l, 0),
            r.trigger_r == opt_byte_or(self.trigger_r, 0),
    {
        DS4Report {
            thumb_lx: byte_or(self.thumb_lx, 0x80),
            thumb_ly: byte_or(self.thumb_ly, 0x80),
            thumb_rx: byte_or(self.thumb_rx, 0x80),
            thumb_ry: byte_or(self.thumb_ry, 0x80),
            buttons: self.buttons.0,
            special: self.special.0,
            trigger_l: byte_or(self.trigger_l, 0),
            trigger_r: byte_or(self.trigger_r, 0),
        }
    }
}

impl Default for DS4ReportBuilder {
    /// A builder with every field unset.
    fn default() -> (r: Self)
        ensures
            r == DS4ReportBuilder::spec_default(),
    {
        DS4ReportBuilder::new()
    }
}


/// DualShock 4 extended input report.
///
/// Carries everything the basic report does, plus a timestamp, temperature,
/// three-axis gyroscope and accelerometer readings, the battery status word
/// and up to three touch snapshots, most recent first.  Its wire form is
/// exactly 63 bytes, packed: several multi-byte fields sit at odd offsets,
/// and the last three bytes are reserved and zero.
#[derive(Copy, Clone, Debug, Eq, PartialEq, Structural)]
pub struct DS4ReportEx {
    pub thumb_lx: u8,
    pub thumb_ly: u8,
    pub thumb_rx: u8,
    pub thumb_ry: u8,
    pub buttons: u16,
    pub special: u8,
    pub trigger_l: u8,
    pub trigger_r: u8,
    pub timestamp: u16,
    pub temp: u8,
    pub gyro_x: i16,
    pub gyro_y: i16,
    pub gyro_z: i16,
    pub accel_x: i16,
    pub accel_y: i16,
    pub accel_z: i16,
    pub status: u16,
    /// How many of the three touch snapshots hold data, `0..=3`.
    pub num_touch_reports: u8,
    /// The most recent touch snapshot.
    pub touch_current: DS4TouchReport,
    /// The touch snapshot before the most recent one.
    pub touch_previous: DS4TouchReport,
    /// The oldest of the three touch snapshots.
    pub touch_oldest: DS4TouchReport,
}

impl DS4ReportEx {
    /// The exact 63-byte wire form of the extended report.
    ///
    /// Offsets: sticks at 0, buttons at 4, special at 6, triggers at 7,
    /// timestamp at 9, temperature at 11, gyroscope at 12, accelerometer
    /// at 18, five reserved bytes at 24, status at 29, one reserved byte
    /// at 31, the touch count at 32, the three touch snapshots at 33, and
    /// three reserved bytes at 60.  All multi-byte fields little-endian.
    pub open spec fn spec_bytes(self) -> Seq<u8> {
        seq![
            self.thumb_lx,
            self.thumb_ly,
            self.thumb_rx,
            self.thumb_ry,
            wire::le16_lo(self.buttons),
            wire::le16_hi(self.buttons),
            self.special,
            self.trigger_l,
            self.trigger_r,
            wire::le16_lo(self.timestamp),
            wire::le16_hi(self.timestamp),
            self.temp,
            wire::le16_lo(self.gyro_x as u16),
            wire::le16_hi(self.gyro_x as u16),
            wire::le16_lo(self.gyro_y as u16),
            wire::le16_hi(self.gyro_y as u16),
            wire::le16_lo(self.gyro_z as u16),
            wire::le16_hi(self.gyro_z as u16),
            wire::le16_lo(self.accel_x as u16),
            wire::le16_hi(self.accel_x as u16),
            wire::le16_lo(self.accel_y as u16),
            wire::le16_hi(self.accel_y as u16),
            wire::le16_lo(self.accel_z as u16),
            wire::le16_hi(self.accel_z as u16),
            0u8,
            0u8,
            0u8,
            0u8,
            0u8,
            wire::le16_lo(self.status),
            wire::le16_hi(self.status),
            0u8,
            self.num_touch_reports,
        ] + self.touch_current.spec_bytes() + self.touch_previous.spec_bytes()
            + self.touch_oldest.spec_bytes() + seq![0u8, 0u8, 0u8]
    }

    /// The extended report a 63-byte wire form stands for; anything of
    /// another length is not an extended report.
    pub open spec fn spec_from_bytes(b: Seq<u8>) -> Option<DS4ReportEx> {
        if b.len() == 63 {
            Some(
                DS4ReportEx {
                    thumb_lx: b[0],
                    thumb_ly: b[1],
                    thumb_rx: b[2],
                    thumb_ry: b[3],
                    buttons: wire::u16_from_le(b[4], b[5]),
                    special: b[6],
                    trigger_l: b[7],
                    trigger_r: b[8],
                    timestamp: wire::u16_from_le(b[9], b[10]),
                    temp: b[11],
                    gyro_x: wire::u16_from_le(b[12], b[13]) as i16,
                    gyro_y: wire::u16_from_le(b[14], b[15]) as i16,
                    gyro_z: wire::u16_from_le(b[16], b[17]) as i16,
                    accel_x: wire::u16_from_le(b[18], b[19]) as i16,
                    accel_y: wire::u16_from_le(b[20], b[21]) as i16,
                    accel_z: wire::u16_from_le(b[22], b[23]) as i16,
                    status: wire::u16_from_le(b[29], b[30]),
                    num_touch_reports: b[32],
                    touch_current: DS4TouchReport::spec_from_bytes_at(b, 33),
                    touch_previous: DS4TouchReport::spec_from_bytes_at(b, 42),
                    touch_oldest: DS4TouchReport::spec_from_bytes_at(b, 51),
                },
            )
        } else {
            None
        }
    }

    /// Serialize the extended report to its wire form.
    ///
    /// The result is always exactly 63 bytes, whatever the field values:
    /// the driver relies on this exact size.
    pub fn to_bytes(&self) -> (r: Vec<u8>)
        ensures
            r@ == self.spec_bytes(),
            r@.len() == 63,
    {
        let mut buf: Vec<u8> = Vec::new();
        wire::push_u8(&mut buf, self.thumb_lx);
        wire::push_u8(&mut buf, self.thumb_ly);
        wire::push_u8(&mut buf, self.thumb_rx);
        wire::push_u8(&mut buf, self.thumb_ry);
        wire::push_le16(&mut buf, self.buttons);
        wire::push_u8(&mut buf, self.special);
        wire::push_u8(&mut buf, self.trigger_l);
        wire::push_u8(&mut buf, self.trigger_r);
        wire::push_le16(&mut buf, self.timestamp);
        wire::push_u8(&mut buf, self.temp);
        wire::push_le_i16(&mut buf, self.gyro_x);
        wire::push_le_i16(&mut buf, self.gyro_y);
        wire::push_le_i16(&mut buf, self.gyro_z);
        wire::push_le_i16(&mut buf, self.accel_x);
        wire::push_le_i16(&mut buf, self.accel_y);
        wire::push_le_i16(&mut buf, self.accel_z);
        wire::push_u8(&mut buf, 0);
        wire::push_u8(&mut buf, 0);
        wire::push_u8(&mut buf, 0);
        wire::push_u8(&mut buf, 0);
        wire::push_u8(&mut buf, 0);
        wire::push_le16(&mut buf, self.status);
        wire::push_u8(&mut buf, 0);
        wire::push_u8(&mut buf, self.num_touch_reports);
        self.touch_current.write_to(&mut buf);
        self.touch_previous.write_to(&mut buf);
        self.touch_oldest.write_to(&mut buf);
        wire::push_u8(&mut buf, 0);
        wire::push_u8(&mut buf, 0);
        wire::push_u8(&mut buf, 0);
        proof {
            assert(buf@ =~= self.spec_bytes());
        }
        buf
    }

    /// Decode a 63-byte wire form back into an extended report.
    pub fn from_bytes(b: &[u8]) -> (r: Option<DS4ReportEx>)
        ensures
            r == DS4ReportEx::spec_from_bytes(b@),
    {
        if b.len() != 63 {
            return None;
        }
        Some(
            DS4ReportEx {
                thumb_lx: b[0],
                thumb_ly: b[1],
                thumb_rx: b[2],
                thumb_ry: b[3],
                buttons: wire::read_le16(b, 4),
                special: b[6],
                trigger_l: b[7],
                trigger_r: b[8],
                timestamp: wire::read_le16(b, 9),
                temp: b[11],
                gyro_x: wire::read_le_i16(b, 12),
                gyro_y: wire::read_le_i16(b, 14),
                gyro_z: wire::read_le_i16(b, 16),
                accel_x: wire::read_le_i16(b, 18),
                accel_y: wire::read_le_i16(b, 20),
                accel_z: wire::read_le_i16(b, 22),
                status: wire::read_le16(b, 29),
                num_touch_reports: b[32],
                touch_current: DS4TouchReport::read_from(b, 33),
                touch_previous: DS4TouchReport::read_from(b, 42),
                touch_oldest: DS4TouchReport::read_from(b, 51),
            },
        )
    }

    /// The neutral extended report [`Default`] returns: sticks centered,
    /// nothing pressed, zero motion, cable connected, no touch data.
    pub open spec fn spec_default() -> DS4ReportEx {
        DS4ReportEx {
            thumb_lx: 0x80,
            thumb_ly: 0x80,
            thumb_rx: 0x80,
            thumb_ry: 0x80,
            buttons: 0x8,
            special: 0,
            trigger_l: 0,
            trigger_r: 0,
            timestamp: 0,
            temp: 0,
            gyro_x: 0,
            gyro_y: 0,
            gyro_z: 0,
            accel_x: 0,
            accel_y: 0,
            accel_z: 0,
            status: 0x10,
            num_touch_reports: 0,
            touch_current: DS4TouchReport::spec_default(),
            touch_previous: DS4TouchReport::spec_default(),
            touch_oldest: DS4TouchReport::spec_default(),
        }
    }
}

impl Default for DS4ReportEx {
    /// The neutral extended report.
    fn default() -> (r: Self)
        ensures
            r == DS4ReportEx::spec_default(),
    {
        DS4ReportEx {
            thumb_lx: 0x80,
            thumb_ly: 0x80,
            thumb_rx: 0x80,
            thumb_ry: 0x80,
            buttons: 0x8,
            special: 0,
            trigger_l: 0,
            trigger_r: 0,
            timestamp: 0,
            temp: 0,
            gyro_x: 0,
            gyro_y: 0,
            gyro_z: 0,
            accel_x: 0,
            accel_y: 0,
            accel_z: 0,
            status: 0x10,
            num_touch_reports: 0,
            touch_current: DS4TouchReport::default(),
            touch_previous: DS4TouchReport::default(),
            touch_oldest: DS4TouchReport::default(),
        }
    }
}

/// Decoding an extended report's wire form gives back exactly the report
/// that was encoded, whatever its field values.
pub proof fn lemma_ds4_report_ex_round_trip(r: DS4ReportEx)
    ensures
        DS4ReportEx::spec_from_bytes(r.spec_bytes()) == Some(r),
{
    let b = r.spec_bytes();
    wire::lemma_le16_round_trip(r.buttons);
    wire::lemma_le16_round_trip(r.timestamp);
    wire::lemma_le16_round_trip(r.status);
    wire::lemma_le16_round_trip(r.gyro_x as u16);
    wire::lemma_le16_round_trip(r.gyro_y as u16);
    wire::lemma_le16_round_trip(r.gyro_z as u16);
    wire::lemma_le16_round_trip(r.accel_x as u16);
    wire::lemma_le16_round_trip(r.accel_y as u16);
    wire::lemma_le16_round_trip(r.accel_z as u16);
    wire::lemma_i16_cast_round_trip(r.gyro_x);
    wire::lemma_i16_cast_round_trip(r.gyro_y);
    wire::lemma_i16_cast_round_trip(r.gyro_z);
    wire::lemma_i16_cast_round_trip(r.accel_x);
    wire::lemma_i16_cast_round_trip(r.accel_y);
    wire::lemma_i16_cast_round_trip(r.accel_z);
    assert(DS4ReportEx::spec_from_bytes(b) == Some(r));
}


/// The touch snapshot an optional builder argument stands for: the
/// argument itself, or the all-inactive snapshot when absent.
pub open spec fn opt_touch_or_default(o: Option<DS4TouchReport>) -> DS4TouchReport {
    match o {
        Some(t) => t,
        None => DS4TouchReport::spec_default(),
    }
}

fn touch_or_default(o: Option<DS4TouchReport>) -> (r: DS4TouchReport)
    ensures
        r == opt_touch_or_default(o),
{
    match o {
        Some(t) => t,
        None => DS4TouchReport::default(),
    }
}

/// A builder for [`DS4ReportEx`].
///
/// Every field is optional; an unset field builds to its neutral value
/// (sticks centered, no buttons, zero motion and touch data, cable
/// connected).
#[derive(Clone, Debug, Eq, PartialEq)]
pub struct DS4ReportExBuilder {
    pub thumb_lx: Option<u8>,
    pub thumb_ly: Option<u8>,
    pub thumb_rx: Option<u8>,
    pub thumb_ry: Option<u8>,
    pub buttons: DS4Buttons,
    pub special: DS4SpecialButtons,
    pub trigger_l: Option<u8>,
    pub trigger_r: Option<u8>,
    pub timestamp: Option<u16>,
    pub temp: Option<u8>,
    pub gyro_x: Option<i16>,
    pub gyro_y: Option<i16>,
    pub gyro_z: Option<i16>,
    pub accel_x: Option<i16>,
    pub accel_y: Option<i16>,
    pub accel_z: Option<i16>,
    pub status: DS4Status,
    pub num_touch_reports: u8,
    pub touch_current: DS4TouchReport,
    pub touch_previous: DS4TouchReport,
    pub touch_oldest: DS4TouchReport,
}

impl DS4ReportExBuilder {
    /// The builder state with every field unset.
    pub open spec fn spec_default() -> DS4ReportExBuilder {
        DS4ReportExBuilder {
            thumb_lx: None,
            thumb_ly: None,
            thumb_rx: None,
            thumb_ry: None,
            buttons: DS4Buttons(0x8),
            special: DS4SpecialButtons(0),
            trigger_l: None,
            trigger_r: None,
            timestamp: None,
            temp: None,
            gyro_x: None,
            gyro_y: None,
            gyro_z: None,
            accel_x: None,
            accel_y: None,
            accel_z: None,
            status: DS4Status(0x10),
            num_touch_reports: 0,
            touch_current: DS4TouchReport::spec_default(),
            touch_previous: DS4TouchReport::spec_default(),
            touch_oldest: DS4TouchReport::spec_default(),
        }
    }

    /// Create a new builder with every field unset.
    pub fn new() -> (r: Self)
        ensures
            r == DS4ReportExBuilder::spec_default(),
    {
        DS4ReportExBuilder {
            thumb_lx: None,
            thumb_ly: None,
            thumb_rx: None,
            thumb_ry: None,
            buttons: DS4Buttons::new(),
            special: DS4SpecialButtons::new(),
            trigger_l: None,
            trigger_r: None,
            timestamp: None,
            temp: None,
            gyro_x: None,
            gyro_y: None,
            gyro_z: None,
            accel_x: None,
            accel_y: None,
            accel_z: None,
            status: DS4Status(0x10),
            num_touch_reports: 0,
            touch_current: DS4TouchReport::default(),
            touch_previous: DS4TouchReport::default(),
            touch_oldest: DS4TouchReport::default(),
        }
    }

    /// Set the left thumb stick X axis.
    pub fn thumb_lx(self, value: u8) -> (r: Self)
        ensures
            r == (DS4ReportExBuilder { thumb_lx: Some(value), ..self }),
    {
        DS4ReportExBuilder { thumb_lx: Some(value), ..self }
    }

    /// Set the left thumb stick Y axis.
    pub fn thumb_ly(self, value: u8) -> (r: Self)
        ensures
            r == (DS4ReportExBuilder { thumb_ly: Some(value), ..self }),
    {
        DS4ReportExBuilder { thumb_ly: Some(value), ..self }
    }

    /// Set the right thumb stick X axis.
    pub fn thumb_rx(self, value: u8) -> (r: Self)
        ensures
            r == (DS4ReportExBuilder { thumb_rx: Some(value), ..self }),
    {
        DS4ReportExBuilder { thumb_rx: Some(value), ..self }
    }

    /// Set the right thumb stick Y axis.
    pub fn thumb_ry(self, value: u8) -> (r: Self)
        ensures
            r == (DS4ReportExBuilder { thumb_ry: Some(value), ..self }),
    {
        DS4ReportExBuilder { thumb_ry: Some(value), ..self }
    }

    /// Set the buttons.
    pub fn buttons(self, value: DS4Buttons) -> (r: Self)
        ensures
            r == (DS4ReportExBuilder { buttons: value, ..self }),
    {
        DS4ReportExBuilder { buttons: value, ..self }
    }

    /// Set the special buttons.
    pub fn special(self, value: DS4SpecialButtons) -> (r: Self)
        ensures
            r == (DS4ReportExBuilder { special: value, ..self }),
    {
        DS4ReportExBuilder { special: value, ..self }
    }

    /// Set the left trigger.
    pub fn trigger_l(self, value: u8) -> (r: Self)
        ensures
            r == (DS4ReportExBuilder { trigger_l: Some(value), ..self }),
    {
        DS4ReportExBuilder { trigger_l: Some(value), ..self }
    }

    /// Set the right trigger.
    pub fn trigger_r(self, value: u8) -> (r: Self)
        ensures
            r == (DS4ReportExBuilder { trigger_r: Some(value), ..self }),
    {
        DS4ReportExBuilder { trigger_r: Some(value), ..self }
    }

    /// Set the timestamp.
    pub fn timestamp(self, value: u16) -> (r: Self)
        ensures
            r == (DS4ReportExBuilder { timestamp: Some(value), ..self }),
    {
        DS4ReportExBuilder { timestamp: Some(value), ..self }
    }

    /// Set the temperature.
    pub fn temp(self, value: u8) -> (r: Self)
        ensures
            r == (DS4ReportExBuilder { temp: Some(value), ..self }),
    {
        DS4ReportExBuilder { temp: Some(value), ..self }
    }

    /// Set the gyroscope X axis.
    pub fn gyro_x(self, value: i16) -> (r: Self)
        ensures
            r == (DS4ReportExBuilder { gyro_x: Some(value), ..self }),
    {
        DS4ReportExBuilder { gyro_x: Some(value), ..self }
    }

    /// Set the gyroscope Y axis.
    pub fn gyro_y(self, value: i16) -> (r: Self)
        ensures
            r == (DS4ReportExBuilder { gyro_y: Some(value), ..self }),
    {
        DS4ReportExBuilder { gyro_y: Some(value), ..self }
    }

    /// Set the gyroscope Z axis.
    pub fn gyro_z(self, value: i16) -> (r: Self)
        ensures
            r == (DS4ReportExBuilder { gyro_z: Some(value), ..self }),
    {
        DS4ReportExBuilder { gyro_z: Some(value), ..self }
    }

    /// Set the accelerometer X axis.
    pub fn accel_x(self, value: i16) -> (r: Self)
        ensures
            r == (DS4ReportExBuilder { accel_x: Some(value), ..self }),
    {
        DS4ReportExBuilder { accel_x: Some(value), ..self }
    }

    /// Set the accelerometer Y axis.
    pub fn accel_y(self, value: i16) -> (r: Self)
        ensures
            r == (DS4ReportExBuilder { accel_y: Some(value), ..self }),
    {
        DS4ReportExBuilder { accel_y: Some(value), ..self }
    }

    /// Set the accelerometer Z axis.
    pub fn accel_z(self, value: i16) -> (r: Self)
        ensures
            r == (DS4ReportExBuilder { accel_z: Some(value), ..self }),
    {
        DS4ReportExBuilder { accel_z: Some(value), ..self }
    }

    /// Set the status word.
    pub fn status(self, value: DS4Status) -> (r: Self)
        ensures
            r == (DS4ReportExBuilder { status: value, ..self }),
    {
        DS4ReportExBuilder { status: value, ..self }
    }

    /// Set the touch snapshots, most recent first.
    ///
    /// The touch count becomes the number of snapshots present before the
    /// first absent one; absent snapshots are stored as all-inactive.
    pub fn touch_reports(
        self,
        current: Option<DS4TouchReport>,
        previous: Option<DS4TouchReport>,
        oldest: Option<DS4TouchReport>,
    ) -> (r: Self)
        ensures
            r.num_touch_reports == (if current is None {
                0u8
            } else if previous is None {
                1u8
            } else if oldest is None {
                2u8
            } else {
                3u8
            }),
            r.touch_current == opt_touch_or_default(current),
            r.touch_previous == opt_touch_or_default(previous),
            r.touch_oldest == opt_touch_or_default(oldest),
            r == (DS4ReportExBuilder {
                num_touch_reports: r.num_touch_reports,
                touch_current: r.touch_current,
                touch_previous: r.touch_previous,
                touch_oldest: r.touch_oldest,
                ..self
            }),
    {
        let num: u8 = if current.is_none() {
            0
        } else if previous.is_none() {
            1
        } else if oldest.is_none() {
            2
        } else {
            3
        };
        DS4ReportExBuilder {
            num_touch_reports: num,
            touch_current: touch_or_default(current),
            touch_previous: touch_or_default(previous),
            touch_oldest: touch_or_default(oldest),
            ..self
        }
    }

    /// Set the three touch snapshots at once, most recent first, together
    /// with the count of snapshots that hold data; the count saturates at
    /// 3.
    pub fn all_touch_reports(self, num_reports: u8, reports: [DS4TouchReport; 3]) -> (r: Self)
        ensures
            r.num_touch_reports == (if num_reports > 3 {
                3u8
            } else {
                num_reports
            }),
            r.touch_current == reports[0],
            r.touch_previous == reports[1],
            r.touch_oldest == reports[2],
            r == (DS4ReportExBuilder {
                num_touch_reports: r.num_touch_reports,
                touch_current: r.touch_current,
                touch_previous: r.touch_previous,
                touch_oldest: r.touch_oldest,
                ..self
            }),
    {
        DS4ReportExBuilder {
            num_touch_reports: if num_reports > 3 { 3 } else { num_reports },
            touch_current: reports[0],
            touch_previous: reports[1],
            touch_oldest: reports[2],
            ..self
        }
    }

    /// Build the extended report; every unset field takes its neutral
    /// value.
    pub fn build(self) -> (r: DS4ReportEx)
        ensures
            r.thumb_lx == opt_byte_or(self.thumb_lx, 0x80),
            r.thumb_ly == opt_byte_or(self.thumb_ly, 0x80),
            r.thumb_rx == opt_byte_or(self.thumb_rx, 0x80),
            r.thumb_ry == opt_byte_or(self.thumb_ry, 0x80),
            r.buttons == self.buttons.0,
            r.special == self.special.0,
            r.trigger_l == opt_byte_or(self.trigger_l, 0),
            r.trigger_r == opt_byte_or(self.trigger_r, 0),
            r.timestamp == opt_u16_or(self.timestamp, 0),
            r.temp == opt_byte_or(self.temp, 0),
            r.gyro_x == opt_i16_or(self.gyro_x, 0),
            r.gyro_y == opt_i16_or(self.gyro_y, 0),
            r.gyro_z == opt_i16_or(self.gyro_z, 0),
            r.accel_x == opt_i16_or(self.accel_x, 0),
            r.accel_y == opt_i16_or(self.accel_y, 0),
            r.accel_z == opt_i16_or(self.accel_z, 0),
            r.status == self.status.0,
            r.num_touch_reports == self.num_touch_reports,
            r.touch_current == self.touch_current,
            r.touch_previous == self.touch_previous,
            r.touch_oldest == self.touch_oldest,
    {
        DS4ReportEx {
            thumb_lx: byte_or(self.thumb_lx, 0x80),
            thumb_ly: byte_or(self.thumb_ly, 0x80),
            thumb_rx: byte_or(self.thumb_rx, 0x80),
            thumb_ry: byte_or(self.thumb_ry, 0x80),
            buttons: self.buttons.0,
            special: self.special.0,
            trigger_l: byte_or(self.trigger_l, 0),
            trigger_r: byte_or(self.trigger_r, 0),
            timestamp: u16_or(self.timestamp, 0),
            temp: byte_or(self.temp, 0),
            gyro_x: i16_or(self.gyro_x, 0),
            gyro_y: i16_or(self.gyro_y, 0),
            gyro_z: i16_or(self.gyro_z, 0),
            accel_x: i16_or(self.accel_x, 0),
            accel_y: i16_or(self.accel_y, 0),
            accel_z: i16_or(self.accel_z, 0),
            status: self.status.0,
            num_touch_reports: self.num_touch_reports,
            touch_current: self.touch_current,
            touch_previous: self.touch_previous,
            touch_oldest: self.touch_oldest,
        }
    }
}

impl Default for DS4ReportExBuilder {
    /// A builder with every field unset.
    fn default() -> (r: Self)
        ensures
            r == DS4ReportExBuilder::spec_default(),
    {
        DS4ReportExBuilder::new()
    }
}

} // verus!
