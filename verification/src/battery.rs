//! The battery estimator: raw voltage to calibrated charge percentage.
//!
//! A battery response carries a raw millivolt reading and a status byte.
//! The status byte picks the charging state; the state and the device
//! model pick a calibration curve; the curve turns the reading into a
//! percentage by linear interpolation between the two calibration points
//! closest to the reading — closest by distance alone, on whichever side
//! they lie, so outside the calibrated range the line extrapolates and
//! the result is clamped into 0..=100. All arithmetic is exact: a charge
//! is a rational number, kept as numerator and denominator.

use vstd::prelude::*;
use crate::assoc::{assoc_map, lemma_assoc_lookup, lemma_assoc_push, lemma_assoc_update,
    unique_keys};
use crate::devices::DeviceMatch;
use crate::error::Error;

verus! {

/// A charge percentage never exceeds this many thousandths of a percent.
pub const MILLI_PERCENT_FULL: u32 = 100_000;

/// The status byte cannot say whether a charging battery is still below
/// or already past its last reading; the decoder fixes the flag to this
/// value. A policy, not a measurement: the true device behaviour is
/// unknown.
pub const CHARGING_DESCENDING_POLICY: bool = false;

/// Charging status of the battery.
#[derive(Clone, Copy, Debug, Eq, Hash, PartialEq, Structural)]
pub enum ChargingStatus {
    /// Battery is discharging.
    Discharging,
    /// Battery is charging — `false` while ascending, `true` while
    /// descending.
    Charging(bool),
    /// Battery is full.
    Full,
}

/// The charging state a status byte stands for; meaningful for the three
/// known bytes 1, 3 and 7 only.
pub open spec fn spec_charging_status(status_byte: u8) -> ChargingStatus
    recommends
        status_byte == 1 || status_byte == 3 || status_byte == 7,
{
    if status_byte == 1 {
        ChargingStatus::Discharging
    } else if status_byte == 3 {
        ChargingStatus::Charging(CHARGING_DESCENDING_POLICY)
    } else {
        ChargingStatus::Full
    }
}

/// Decode the status byte of a battery response; any byte other than the
/// three known ones is a protocol error.
pub fn decode_charging_status(status_byte: u8) -> (r: Result<ChargingStatus, Error>)
    ensures
        (status_byte == 1 || status_byte == 3 || status_byte == 7) ==> r == Ok::<
            ChargingStatus,
            Error,
        >(spec_charging_status(status_byte)),
        !(status_byte == 1 || status_byte == 3 || status_byte == 7) ==> r == Err::<
            ChargingStatus,
            Error,
        >(Error::UnknownChargingState),
{
    match status_byte {
        1 => Ok(ChargingStatus::Discharging),
        3 => Ok(ChargingStatus::Charging(CHARGING_DESCENDING_POLICY)),
        7 => Ok(ChargingStatus::Full),
        _ => Err(Error::UnknownChargingState),
    }
}

/// One calibration point: a signed millivolt reading and the charge it
/// stands for, in thousandths of a percent.
#[derive(Clone, Copy, Debug, Eq, PartialEq, Structural)]
pub struct CurvePoint {
    /// Voltage in millivolts.
    pub voltage: i32,
    /// Charge at that voltage, in thousandths of a percent.
    pub milli_percent: u32,
}

/// A well-formed curve: voltages strictly ascending, charges within
/// 0..=100 percent.
pub open spec fn curve_wf(s: Seq<CurvePoint>) -> bool {
    &&& forall|i: int, j: int|
        0 <= i < j < s.len() ==> (#[trigger] s[i]).voltage < (#[trigger] s[j]).voltage
    &&& forall|i: int| 0 <= i < s.len() ==> (#[trigger] s[i]).milli_percent <= MILLI_PERCENT_FULL
}

/// A calibration curve for one device model in one charging state.
#[derive(Clone, Debug)]
pub struct Curve {
    points: Vec<CurvePoint>,
}

impl Curve {
    /// The curve's points, in ascending voltage order.
    pub closed spec fn view(&self) -> Seq<CurvePoint> {
        self.points@
    }

    /// Whether the curve is well-formed; every curve built by
    /// [`Curve::from_points`] is.
    pub open spec fn wf(&self) -> bool {
        curve_wf(self@)
    }

    /// Build a curve from points; refused unless the voltages strictly
    /// ascend and every charge lies within 0..=100 percent.
    pub fn from_points(points: Vec<CurvePoint>) -> (r: Option<Curve>)
        ensures
            r is Some <==> curve_wf(points@),
            r matches Some(c) ==> c@ == points@ && c.wf(),
    {
        let n = points.len();
        let mut i: usize = 0;
        while i < n
            invariant
                n == points@.len(),
                i <= n,
                forall|a: int, b: int|
                    0 <= a < b < i ==> (#[trigger] points@[a]).voltage < (
                    #[trigger] points@[b]).voltage,
                forall|a: int|
                    0 <= a < i ==> (#[trigger] points@[a]).milli_percent <= MILLI_PERCENT_FULL,
            decreases n - i,
        {
            if points[i].milli_percent > MILLI_PERCENT_FULL {
                return None;
            }
            if i > 0 && points[i - 1].voltage >= points[i].voltage {
                return None;
            }
            proof {
                assert forall|a: int, b: int| 0 <= a < b < i + 1 implies (
                #[trigger] points@[a]).voltage < (#[trigger] points@[b]).voltage by {
                    if b == i {
                        if a < i - 1 {
                            assert(points@[a].voltage < points@[i - 1].voltage);
                        }
                    }
                }
            }
            i = i + 1;
        }
        Some(Curve { points })
    }

    /// Number of calibration points.
    pub fn len(&self) -> (r: usize)
        ensures
            r == self@.len(),
    {
        self.points.len()
    }

    /// Read one calibration point.
    pub fn point(&self, i: usize) -> (r: CurvePoint)
        requires
            i < self@.len(),
        ensures
            r == self@[i as int],
    {
        self.points[i]
    }
}

/// The calibration curves of every supported device model and charging
/// state, keyed by the model's product id and the state.
pub struct CurveSet {
    entries: Vec<((u16, ChargingStatus), Curve)>,
}

impl CurveSet {
    /// The entry list with each curve replaced by its points.
    spec fn states(&self) -> Seq<((u16, ChargingStatus), Seq<CurvePoint>)> {
        self.entries@.map_values(|e: ((u16, ChargingStatus), Curve)| (e.0, e.1@))
    }

    /// The set as a map from (product id, charging state) to the points of
    /// the curve stored for the pair.
    pub closed spec fn view(&self) -> Map<(u16, ChargingStatus), Seq<CurvePoint>> {
        assoc_map(self.states())
    }

    /// One curve per pair, every curve well-formed.
    pub closed spec fn wf(&self) -> bool {
        &&& unique_keys(self.states())
        &&& forall|i: int| 0 <= i < self.entries@.len() ==> curve_wf((#[trigger] self.entries@[i]).1@)
    }

    /// Every stored curve is well-formed.
    pub proof fn lemma_wf_curves(&self, key: (u16, ChargingStatus))
        requires
            self.wf(),
            self@.dom().contains(key),
        ensures
            curve_wf(self@[key]),
    {
        let j = choose|j: int|
            0 <= j < self.states().len() && (#[trigger] self.states()[j]).0 == key;
        assert(self.states()[j] == (self.entries@[j].0, self.entries@[j].1@));
        lemma_assoc_lookup(self.states(), j);
    }

    /// An empty curve set.
    pub fn new() -> (r: CurveSet)
        ensures
            r.wf(),
            r@ == Map::<(u16, ChargingStatus), Seq<CurvePoint>>::empty(),
    {
        let r = CurveSet { entries: Vec::new() };
        proof {
            assert(r@ =~= Map::<(u16, ChargingStatus), Seq<CurvePoint>>::empty());
        }
        r
    }

    /// Store the curve for a model and charging state, replacing any
    /// earlier one for the same pair.
    pub fn insert(&mut self, model: u16, status: ChargingStatus, curve: Curve)
        requires
            old(self).wf(),
            curve.wf(),
        ensures
            final (self).wf(),
            final (self)@ == old(self)@.insert((model, status), curve@),
    {
        let key = (model, status);
        let n = self.entries.len();
        let mut i: usize = 0;
        while i < n
            invariant
                self == old(self),
                old(self).wf(),
                curve.wf(),
                key == (model, status),
                n == self.entries@.len(),
                i <= n,
                forall|j: int| 0 <= j < i ==> (#[trigger] self.entries@[j]).0 != key,
            decreases n - i,
        {
            if self.entries[i].0.0 == model && self.entries[i].0.1 == status {
                proof {
                    assert(self.entries@[i as int].0 == key);
                    assert(self.states()[i as int] == (self.entries@[i as int].0, self.entries@[i as int].1@));
                    lemma_assoc_update(self.states(), i as int, curve@);
                }
                let ghost curve_view = curve@;
                self.entries.set(i, (key, curve));
                proof {
                    assert(self.states() =~= old(self).states().update(
                        i as int,
                        (key, curve_view),
                    ));
                    assert forall|j: int| 0 <= j < self.entries@.len() implies curve_wf(
                        (#[trigger] self.entries@[j]).1@,
                    ) by {
                        if j != i {
                            assert(self.entries@[j] == old(self).entries@[j]);
                            assert(curve_wf(old(self).entries@[j].1@));
                        } else {
                            assert(self.entries@[j].1@ == curve_view);
                            assert(curve_wf(curve_view));
                        }
                    }
                }
                return ;
            }
            i = i + 1;
        }
        proof {
            if self@.dom().contains(key) {
                let j = choose|j: int|
                    0 <= j < self.states().len() && (#[trigger] self.states()[j]).0 == key;
                assert(self.states()[j] == (self.entries@[j].0, self.entries@[j].1@));
                assert(false);
            }
            lemma_assoc_push(self.states(), key, curve@);
        }
        self.entries.push((key, curve));
        proof {
            assert(self.states() =~= old(self).states().push((key, curve@)));
        }
    }

    /// Look the curve for a model and charging state up.
    pub fn get(&self, model: u16, status: ChargingStatus) -> (r: Option<&Curve>)
        requires
            self.wf(),
        ensures
            r is Some <==> self@.dom().contains((model, status)),
            r matches Some(c) ==> c@ == self@[(model, status)] && c.wf(),
    {
        let key = (model, status);
        let n = self.entries.len();
        let mut i: usize = 0;
        while i < n
            invariant
                self.wf(),
                key == (model, status),
                n == self.entries@.len(),
                i <= n,
                forall|j: int| 0 <= j < i ==> (#[trigger] self.entries@[j]).0 != key,
            decreases n - i,
        {
            if self.entries[i].0.0 == model && self.entries[i].0.1 == status {
                proof {
                    assert(self.entries@[i as int].0 == key);
                    assert(self.states()[i as int] == (self.entries@[i as int].0, self.entries@[i as int].1@));
                    lemma_assoc_lookup(self.states(), i as int);
                }
                return Some(&self.entries[i].1);
            }
            i = i + 1;
        }
        proof {
            if self@.dom().contains(key) {
                let j = choose|j: int|
                    0 <= j < self.states().len() && (#[trigger] self.states()[j]).0 == key;
                assert(self.states()[j] == (self.entries@[j].0, self.entries@[j].1@));
                assert(false);
            }
        }
        None
    }
}


/// Distance between a calibration voltage and the reading.
pub open spec fn dist_to(k: int, v: int) -> int {
    if k >= v {
        k - v
    } else {
        v - k
    }
}

/// Among the first `n` points, point `i` is the closest to the reading;
/// on a tie the earlier (lower-voltage) point wins.
pub open spec fn is_nearest_upto(s: Seq<CurvePoint>, v: int, i: int, n: int) -> bool {
    &&& 0 <= i < n <= s.len()
    &&& forall|j: int|
        0 <= j < n && j != i ==> dist_to((#[trigger] s[j]).voltage as int, v) > dist_to(
            s[i].voltage as int,
            v,
        ) || (dist_to(s[j].voltage as int, v) == dist_to(s[i].voltage as int, v) && j > i)
}

/// Point `i` is the closest of the whole curve.
pub open spec fn is_nearest(s: Seq<CurvePoint>, v: int, i: int) -> bool {
    is_nearest_upto(s, v, i, s.len() as int)
}

/// Among the first `n` points, point `j` is the closest apart from point
/// `i`; ties again go to the earlier point.
pub open spec fn is_second_upto(s: Seq<CurvePoint>, v: int, i: int, j: int, n: int) -> bool {
    &&& 0 <= j < n <= s.len()
    &&& j != i
    &&& forall|k: int|
        0 <= k < n && k != i && k != j ==> dist_to((#[trigger] s[k]).voltage as int, v) > dist_to(
            s[j].voltage as int,
            v,
        ) || (dist_to(s[k].voltage as int, v) == dist_to(s[j].voltage as int, v) && k > j)
}

/// Point `j` is the next-closest of the whole curve, point `i` aside.
pub open spec fn is_second(s: Seq<CurvePoint>, v: int, i: int, j: int) -> bool {
    is_second_upto(s, v, i, j, s.len() as int)
}

/// Only one point is the nearest.
pub proof fn lemma_nearest_unique(s: Seq<CurvePoint>, v: int, i1: int, i2: int)
    requires
        is_nearest(s, v, i1),
        is_nearest(s, v, i2),
    ensures
        i1 == i2,
{
    if i1 != i2 {
        assert(dist_to(s[i2].voltage as int, v) > dist_to(s[i1].voltage as int, v) || (dist_to(
            s[i2].voltage as int,
            v,
        ) == dist_to(s[i1].voltage as int, v) && i2 > i1));
        assert(dist_to(s[i1].voltage as int, v) > dist_to(s[i2].voltage as int, v) || (dist_to(
            s[i1].voltage as int,
            v,
        ) == dist_to(s[i2].voltage as int, v) && i1 > i2));
        assert(false);
    }
}

/// Only one point is the next-closest.
pub proof fn lemma_second_unique(s: Seq<CurvePoint>, v: int, i: int, j1: int, j2: int)
    requires
        is_second(s, v, i, j1),
        is_second(s, v, i, j2),
    ensures
        j1 == j2,
{
    if j1 != j2 {
        assert(dist_to(s[j2].voltage as int, v) > dist_to(s[j1].voltage as int, v) || (dist_to(
            s[j2].voltage as int,
            v,
        ) == dist_to(s[j1].voltage as int, v) && j2 > j1));
        assert(dist_to(s[j1].voltage as int, v) > dist_to(s[j2].voltage as int, v) || (dist_to(
            s[j1].voltage as int,
            v,
        ) == dist_to(s[j2].voltage as int, v) && j1 > j2));
        assert(false);
    }
}

/// The index of the nearest point.
pub open spec fn nearest_index(s: Seq<CurvePoint>, v: int) -> int {
    choose|i: int| is_nearest(s, v, i)
}

/// The index of the next-closest point.
pub open spec fn second_index(s: Seq<CurvePoint>, v: int) -> int {
    choose|j: int| is_second(s, v, nearest_index(s, v), j)
}

/// The clamped value of the line through `(v1, c1)` and `(v2, c2)` at
/// `v`, as a rational percentage: numerator and positive denominator. The
/// charges come in thousandths of a percent, so the line's value in
/// percent is `(c1 + (c2 - c1) * (v - v1) / (v2 - v1)) / 1000`; below 0
/// it is clamped to 0, above 100 to 100.
pub open spec fn clamp_interp(v: int, v1: int, c1: int, v2: int, c2: int) -> (int, int) {
    let num0 = c1 * (v2 - v1) + (c2 - c1) * (v - v1);
    let den0 = 1000 * (v2 - v1);
    let num1 = if den0 < 0 {
        -num0
    } else {
        num0
    };
    let den1 = if den0 < 0 {
        -den0
    } else {
        den0
    };
    if num1 < 0 {
        (0int, 1int)
    } else if num1 > 100 * den1 {
        (100int, 1int)
    } else {
        (num1, den1)
    }
}

/// What a curve says for a reading: the clamped line through the nearest
/// and the next-closest calibration points.
pub open spec fn interp_charge(s: Seq<CurvePoint>, v: int) -> (int, int) {
    let i = nearest_index(s, v);
    let j = second_index(s, v);
    clamp_interp(v, s[i].voltage as int, s[i].milli_percent as int, s[j].voltage as int, s[j].milli_percent as int)
}

/// Clamping: whatever the line does, the reported charge is a
/// well-defined rational between 0 and 100 percent.
pub proof fn lemma_charge_clamped(v: int, v1: int, c1: int, v2: int, c2: int)
    requires
        v1 != v2,
    ensures
        ({
            let (num, den) = clamp_interp(v, v1, c1, v2, c2);
            den > 0 && 0 <= num && num <= 100 * den
        }),
{
}

/// An exact charge percentage: the rational `num / den`. Not necessarily
/// reduced; the denominator is always positive.
#[derive(Clone, Copy, Debug, Eq, PartialEq, Structural)]
pub struct Charge {
    /// Numerator.
    pub num: i64,
    /// Positive denominator.
    pub den: i64,
}

/// What a battery query found: the decoded charging state, the raw
/// voltage, and the estimated charge. Built fresh on every query.
#[derive(Clone, Copy, Debug, Eq, PartialEq, Structural)]
pub struct BatteryStatus {
    /// Charging status.
    pub charging_status: ChargingStatus,
    /// Battery voltage in millivolts.
    pub voltage: u16,
    /// Charge percentage, exact.
    pub charge: Charge,
}

/// Distance from a calibration point's voltage to the reading.
fn voltage_dist(point_voltage: i32, v: i64) -> (r: i64)
    requires
        0 <= v <= 65535,
    ensures
        r == dist_to(point_voltage as int, v as int),
{
    let pv = point_voltage as i64;
    if pv >= v {
        pv - v
    } else {
        v - pv
    }
}

/// Interpolate a reading over a curve of at least two points: one scan
/// finds the nearest point and the next-closest point, then the line
/// through the two is evaluated at the reading and clamped.
pub fn curve_interpolate(curve: &Curve, raw_voltage: u16) -> (r: Charge)
    requires
        curve.wf(),
        curve@.len() >= 2,
    ensures
        (r.num as int, r.den as int) == interp_charge(curve@, raw_voltage as int),
        r.den > 0,
        0 <= r.num <= 100 * r.den,
{
    let ghost s = curve@;
    let v: i64 = raw_voltage as i64;
    let n = curve.len();
    let d_first = voltage_dist(curve.point(0).voltage, v);
    let d_next = voltage_dist(curve.point(1).voltage, v);
    let mut b1: usize;
    let mut b2: usize;
    let mut d1: i64;
    let mut d2: i64;
    if d_next < d_first {
        b1 = 1;
        d1 = d_next;
        b2 = 0;
        d2 = d_first;
    } else {
        b1 = 0;
        d1 = d_first;
        b2 = 1;
        d2 = d_next;
    }
    let mut k: usize = 2;
    while k < n
        invariant
            curve.wf(),
            s == curve@,
            n == s.len(),
            2 <= n,
            v == raw_voltage as i64,
            0 <= v <= 65535,
            2 <= k <= n,
            b1 < k,
            b2 < k,
            b1 != b2,
            d1 == dist_to(s[b1 as int].voltage as int, v as int),
            d2 == dist_to(s[b2 as int].voltage as int, v as int),
            is_nearest_upto(s, v as int, b1 as int, k as int),
            is_second_upto(s, v as int, b1 as int, b2 as int, k as int),
        decreases n - k,
    {
        let d = voltage_dist(curve.point(k).voltage, v);
        if d < d1 {
            b2 = b1;
            d2 = d1;
            b1 = k;
            d1 = d;
        } else if d < d2 {
            b2 = k;
            d2 = d;
        }
        k = k + 1;
    }
    proof {
        assert(is_nearest(s, v as int, b1 as int));
        assert(is_second(s, v as int, b1 as int, b2 as int));
        let i = nearest_index(s, v as int);
        assert(is_nearest(s, v as int, i)) by {
            assert(is_nearest(s, v as int, b1 as int));
        }
        lemma_nearest_unique(s, v as int, i, b1 as int);
        let j = second_index(s, v as int);
        assert(is_second(s, v as int, i, j)) by {
            assert(is_second(s, v as int, i, b2 as int));
        }
        lemma_second_unique(s, v as int, i, j, b2 as int);
    }
    let pa = curve.point(b1);
    let pb = curve.point(b2);
    let v1: i64 = pa.voltage as i64;
    let c1: i64 = pa.milli_percent as i64;
    let v2: i64 = pb.voltage as i64;
    let c2: i64 = pb.milli_percent as i64;
    proof {
        assert(0 <= c1 <= 100_000);
        assert(0 <= c2 <= 100_000);
        if b1 < b2 {
            assert(s[b1 as int].voltage < s[b2 as int].voltage);
        } else {
            assert(s[b2 as int].voltage < s[b1 as int].voltage);
        }
    }
    let dv: i64 = v2 - v1;
    proof {
        assert((c1 as int) * (dv as int) <= 100_000 * 0x1_0000_0000 && (c1 as int) * (dv as int)
            >= -100_000 * 0x1_0000_0000) by (nonlinear_arith)
            requires
                0 <= c1 <= 100_000,
                -0x1_0000_0000 <= dv <= 0x1_0000_0000,
        ;
        assert(((c2 - c1) as int) * ((v - v1) as int) <= 200_000 * 0x1_0000_0001 && ((c2 - c1)
            as int) * ((v - v1) as int) >= -200_000 * 0x1_0000_0001) by (nonlinear_arith)
            requires
                -100_000 <= c2 - c1 <= 100_000,
                -0x1_0000_0001 <= v - v1 <= 0x1_0000_0001,
        ;
    }
    let num0: i64 = c1 * dv + (c2 - c1) * (v - v1);
    let den0: i64 = 1000 * dv;
    let num1: i64;
    let den1: i64;
    if den0 < 0 {
        num1 = -num0;
        den1 = -den0;
    } else {
        num1 = num0;
        den1 = den0;
    }
    if num1 < 0 {
        Charge { num: 0, den: 1 }
    } else if num1 > 100 * den1 {
        Charge { num: 100, den: 1 }
    } else {
        Charge { num: num1, den: den1 }
    }
}

/// Estimate the battery charge from a raw battery response.
///
/// The status byte must be one of the three known values, a curve must
/// exist for the model and decoded state, and the curve must have at
/// least two points — except that a full battery is always reported as
/// exactly 100 percent, whatever the curves say.
pub fn estimate(model: u16, raw_voltage: u16, status_byte: u8, curves: &CurveSet) -> (r: Result<
    BatteryStatus,
    Error,
>)
    requires
        curves.wf(),
    ensures
        !(status_byte == 1 || status_byte == 3 || status_byte == 7) <==> r == Err::<
            BatteryStatus,
            Error,
        >(Error::UnknownChargingState),
        status_byte == 7 ==> r == Ok::<BatteryStatus, Error>(
            BatteryStatus {
                charging_status: ChargingStatus::Full,
                voltage: raw_voltage,
                charge: Charge { num: 100, den: 1 },
            },
        ),
        (status_byte == 1 || status_byte == 3) ==> {
            let st = spec_charging_status(status_byte);
            &&& (!curves@.dom().contains((model, st)) <==> r == Err::<BatteryStatus, Error>(
                Error::NoCalibrationData,
            ))
            &&& ((curves@.dom().contains((model, st)) && curves@[(model, st)].len() < 2) <==> r
                == Err::<BatteryStatus, Error>(Error::DegenerateCurve))
            &&& (curves@.dom().contains((model, st)) && curves@[(model, st)].len() >= 2 ==> (
            r matches Ok(bs) && bs.charging_status == st && bs.voltage == raw_voltage && (
            bs.charge.num as int, bs.charge.den as int) == interp_charge(
                curves@[(model, st)],
                raw_voltage as int,
            )))
        },
        r matches Ok(bs) ==> bs.charge.den > 0 && 0 <= bs.charge.num <= 100 * bs.charge.den,
{
    let status = match decode_charging_status(status_byte) {
        Ok(status) => status,
        Err(e) => {
            return Err(e);
        },
    };
    if let ChargingStatus::Full = status {
        return Ok(
            BatteryStatus {
                charging_status: ChargingStatus::Full,
                voltage: raw_voltage,
                charge: Charge { num: 100, den: 1 },
            },
        );
    }
    match curves.get(model, status) {
        None => Err(Error::NoCalibrationData),
        Some(curve) => {
            if curve.len() < 2 {
                Err(Error::DegenerateCurve)
            } else {
                let charge = curve_interpolate(curve, raw_voltage);
                Ok(BatteryStatus { charging_status: status, voltage: raw_voltage, charge })
            }
        },
    }
}


/// What a raw battery payload decodes to under a model's curves: the
/// big-endian voltage of the first two bytes, the state of the third,
/// and the estimated charge — `None` where the curves do not cover the
/// model and state, or a stored curve is too short to interpolate.
pub open spec fn spec_battery_from_bytes(
    model: u16,
    curves: Map<(u16, ChargingStatus), Seq<CurvePoint>>,
    bytes: Seq<u8>,
) -> Option<BatteryStatus>
    recommends
        bytes.len() >= 3,
        bytes[2] == 1 || bytes[2] == 3 || bytes[2] == 7,
{
    let voltage = (bytes[0] * 256 + bytes[1]) as u16;
    let sb = bytes[2];
    if sb == 7 {
        Some(
            BatteryStatus {
                charging_status: ChargingStatus::Full,
                voltage,
                charge: Charge { num: 100, den: 1 },
            },
        )
    } else {
        let st = spec_charging_status(sb);
        if !curves.dom().contains((model, st)) {
            None
        } else if curves[(model, st)].len() < 2 {
            None
        } else {
            let charge = interp_charge(curves[(model, st)], voltage as int);
            Some(
                BatteryStatus {
                    charging_status: st,
                    voltage,
                    charge: Charge { num: charge.0 as i64, den: charge.1 as i64 },
                },
            )
        }
    }
}

impl crate::FromBytesWithDevice for BatteryStatus {
    open spec fn from_bytes_dev_req(dev: DeviceMatch, curves: CurveSet, bytes: Seq<u8>) -> bool {
        &&& curves.wf()
        &&& bytes.len() >= 3
        &&& (bytes[2] == 1 || bytes[2] == 3 || bytes[2] == 7)
    }

    open spec fn from_bytes_dev_spec(dev: DeviceMatch, curves: CurveSet, bytes: Seq<u8>) -> Option<
        BatteryStatus,
    > {
        spec_battery_from_bytes(dev.pid, curves@, bytes)
    }

    fn from_bytes(dev: &DeviceMatch, curves: &CurveSet, bytes: &[u8]) -> (r: Option<BatteryStatus>) {
        let voltage: u16 = (bytes[0] as u16) * 256 + (bytes[1] as u16);
        match estimate(dev.pid, voltage, bytes[2], curves) {
            Ok(bs) => Some(bs),
            Err(_) => None,
        }
    }
}

} // verus!
