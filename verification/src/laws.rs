use vstd::prelude::*;

verus! {

use crate::rational::Ratio;
use crate::engine::{
    ratio_convert, spec_to_celsius, spec_from_celsius, spec_datarate, length_factor, mass_factor,
    area_factor, volume_factor, speed_factor, pressure_factor, current_factor, energy_factor,
    power_factor, frequency_factor, angle_factor, force_factor, magnetic_factor,
    radioactivity_factor, illuminance_factor,
};
use crate::units::{
    TempUnit, DataRateUnit, LengthUnit, MassUnit, AreaUnit, VolumeUnit, SpeedUnit, PressureUnit,
    CurrentUnit, EnergyUnit, PowerUnit, FrequencyUnit, AngleUnit, ForceUnit, MagneticUnit,
    RadioactivityUnit, IlluminanceUnit,
};

/// Denoting the same rational number is transitive (for well-formed
/// ratios).
pub proof fn lemma_same_value_trans(a: Ratio, b: Ratio, c: Ratio)
    requires
        a.wf(),
        b.wf(),
        c.wf(),
        a.same_value(b),
        b.same_value(c),
    ensures
        a.same_value(c),
{
    assert(a.num * c.den == c.num * a.den) by (nonlinear_arith)
        requires
            a.num * b.den == b.num * a.den,
            b.num * c.den == c.num * b.den,
            b.den > 0,
    ;
}

/// Identity law: converting a value from a unit to the same unit yields
/// the same rational value, for any positive scale factor.
pub proof fn lemma_convert_identity(v: Ratio, f: Ratio)
    requires
        v.wf(),
        f.num > 0,
        f.den > 0,
    ensures
        ratio_convert(v, f, f).wf(),
        ratio_convert(v, f, f).same_value(v),
{
    let r = ratio_convert(v, f, f);
    assert(r.den > 0 && r.num * v.den == v.num * r.den) by (nonlinear_arith)
        requires
            r.num == v.num * f.num * f.den,
            r.den == v.den * f.den * f.num,
            v.den > 0,
            f.num > 0,
            f.den > 0,
    ;
}

/// Round-trip law: converting a value from unit A to unit B and the
/// result back from B to A yields the same rational value, for any
/// positive scale factors.
pub proof fn lemma_convert_round_trip(v: Ratio, f: Ratio, t: Ratio)
    requires
        v.wf(),
        f.num > 0,
        f.den > 0,
        t.num > 0,
        t.den > 0,
    ensures
        ratio_convert(ratio_convert(v, f, t), t, f).wf(),
        ratio_convert(ratio_convert(v, f, t), t, f).same_value(v),
{
    let r1 = ratio_convert(v, f, t);
    let r2 = ratio_convert(r1, t, f);
    assert(r2.den > 0 && r2.num * v.den == v.num * r2.den) by (nonlinear_arith)
        requires
            r2.num == v.num * f.num * t.den * t.num * f.den,
            r2.den == v.den * f.den * t.num * t.den * f.num,
            v.den > 0,
            f.num > 0,
            f.den > 0,
            t.num > 0,
            t.den > 0,
    ;
}

/// Linearity law: scaling the input of a multiplicative conversion by a
/// ratio k scales the output by k.
pub proof fn lemma_convert_linear(v: Ratio, k: Ratio, f: Ratio, t: Ratio)
    requires
        v.wf(),
        k.wf(),
        f.num > 0,
        f.den > 0,
        t.num > 0,
        t.den > 0,
    ensures
        ratio_convert(k.times(v), f, t).same_value(k.times(ratio_convert(v, f, t))),
{
    let lhs = ratio_convert(k.times(v), f, t);
    let rhs = k.times(ratio_convert(v, f, t));
    // the two sides are the same product, bracketed differently
    assert(lhs.num == rhs.num) by (nonlinear_arith)
        requires
            lhs.num == k.num * v.num * f.num * t.den,
            rhs.num == k.num * (v.num * f.num * t.den),
    ;
    assert(lhs.den == rhs.den) by (nonlinear_arith)
        requires
            lhs.den == k.den * v.den * f.den * t.num,
            rhs.den == k.den * (v.den * f.den * t.num),
    ;
}

/// Temperature identity law: converting a temperature from a unit to the
/// same unit yields the same rational value.
pub proof fn lemma_temp_identity(v: Ratio, u: TempUnit)
    requires
        v.wf(),
    ensures
        spec_from_celsius(spec_to_celsius(v, u), u).wf(),
        spec_from_celsius(spec_to_celsius(v, u), u).same_value(v),
{
    let r = spec_from_celsius(spec_to_celsius(v, u), u);
    match u {
        TempUnit::C => {
        },
        TempUnit::F => {
            assert(r.den > 0 && r.num * v.den == v.num * r.den) by (nonlinear_arith)
                requires
                    r.num == 45 * v.num,
                    r.den == 45 * v.den,
                    v.den > 0,
            ;
        },
        TempUnit::K => {
            assert(r.den > 0 && r.num * v.den == v.num * r.den) by (nonlinear_arith)
                requires
                    r.num == 10000 * v.num,
                    r.den == 10000 * v.den,
                    v.den > 0,
            ;
        },
    }
}

/// Taking a Celsius value out to any unit and back to Celsius yields the
/// same rational value.
pub proof fn lemma_celsius_cancel(c: Ratio, u: TempUnit)
    requires
        c.wf(),
    ensures
        spec_to_celsius(spec_from_celsius(c, u), u).wf(),
        spec_to_celsius(spec_from_celsius(c, u), u).same_value(c),
{
    let r = spec_to_celsius(spec_from_celsius(c, u), u);
    match u {
        TempUnit::C => {
        },
        TempUnit::F => {
            assert(r.den > 0 && r.num * c.den == c.num * r.den) by (nonlinear_arith)
                requires
                    r.num == 45 * c.num,
                    r.den == 45 * c.den,
                    c.den > 0,
            ;
        },
        TempUnit::K => {
            assert(r.den > 0 && r.num * c.den == c.num * r.den) by (nonlinear_arith)
                requires
                    r.num == 10000 * c.num,
                    r.den == 10000 * c.den,
                    c.den > 0,
            ;
        },
    }
}

/// Ratios denoting the same value still denote the same value after the
/// same affine temperature step out of Celsius.
pub proof fn lemma_from_celsius_congruent(x: Ratio, y: Ratio, u: TempUnit)
    requires
        x.wf(),
        y.wf(),
        x.same_value(y),
    ensures
        spec_from_celsius(x, u).wf(),
        spec_from_celsius(x, u).same_value(spec_from_celsius(y, u)),
{
    let a = spec_from_celsius(x, u);
    let b = spec_from_celsius(y, u);
    match u {
        TempUnit::C => {
        },
        TempUnit::F => {
            assert(a.den > 0 && a.num * b.den == b.num * a.den) by (nonlinear_arith)
                requires
                    a.num == 9 * x.num + 160 * x.den,
                    a.den == 5 * x.den,
                    b.num == 9 * y.num + 160 * y.den,
                    b.den == 5 * y.den,
                    x.num * y.den == y.num * x.den,
                    x.den > 0,
                    y.den > 0,
            ;
        },
        TempUnit::K => {
            assert(a.den > 0 && a.num * b.den == b.num * a.den) by (nonlinear_arith)
                requires
                    a.num == 100 * x.num + 27315 * x.den,
                    a.den == 100 * x.den,
                    b.num == 100 * y.num + 27315 * y.den,
                    b.den == 100 * y.den,
                    x.num * y.den == y.num * x.den,
                    x.den > 0,
                    y.den > 0,
            ;
        },
    }
}

/// Temperature conversions keep the denominator positive.
pub proof fn lemma_temp_wf(v: Ratio, a: TempUnit, b: TempUnit)
    requires
        v.wf(),
    ensures
        spec_to_celsius(v, a).wf(),
        spec_from_celsius(spec_to_celsius(v, a), b).wf(),
{
}

/// Temperature round-trip law: converting a temperature from unit A to
/// unit B and the result back from B to A yields the same rational
/// value, with no tolerance needed.
pub proof fn lemma_temp_round_trip(v: Ratio, a: TempUnit, b: TempUnit)
    requires
        v.wf(),
    ensures
        spec_from_celsius(
            spec_to_celsius(spec_from_celsius(spec_to_celsius(v, a), b), b),
            a,
        ).same_value(v),
{
    let x = spec_to_celsius(v, a);
    let w = spec_from_celsius(x, b);
    let z = spec_to_celsius(w, b);
    let r = spec_from_celsius(z, a);
    lemma_temp_wf(v, a, b);
    lemma_celsius_cancel(x, b);
    // z and x are the same Celsius value, so the step back to `a` agrees
    lemma_from_celsius_congruent(z, x, a);
    lemma_temp_identity(v, a);
    lemma_same_value_trans(r, spec_from_celsius(x, a), v);
}

/// The slope of a temperature conversion: the product of the scale into
/// Celsius and the scale out of it.
pub open spec fn temp_slope(a: TempUnit, b: TempUnit) -> Ratio {
    let into = match a {
        TempUnit::C => Ratio { num: 1, den: 1 },
        TempUnit::F => Ratio { num: 5, den: 9 },
        TempUnit::K => Ratio { num: 1, den: 1 },
    };
    let out = match b {
        TempUnit::C => Ratio { num: 1, den: 1 },
        TempUnit::F => Ratio { num: 9, den: 5 },
        TempUnit::K => Ratio { num: 1, den: 1 },
    };
    into.times(out)
}

/// Temperature affine law: for any two values x and y, the difference of
/// their conversions equals the difference of the values scaled by the
/// direction's slope. Scaling x alone by k does not scale the result by
/// k; the offsets make the map affine, not linear.
pub proof fn lemma_temp_affine(x: Ratio, y: Ratio, a: TempUnit, b: TempUnit)
    requires
        x.wf(),
        y.wf(),
    ensures
        (spec_from_celsius(spec_to_celsius(x, a), b)).diff(
            spec_from_celsius(spec_to_celsius(y, a), b),
        ).same_value(x.diff(y).times(temp_slope(a, b))),
{
    let sx = spec_from_celsius(spec_to_celsius(x, a), b);
    let sy = spec_from_celsius(spec_to_celsius(y, a), b);
    let lhs = sx.diff(sy);
    let rhs = x.diff(y).times(temp_slope(a, b));
    match (a, b) {
        (TempUnit::C, TempUnit::C) => {
            assert(lhs.num * rhs.den == rhs.num * lhs.den) by (nonlinear_arith)
                requires
                    lhs.num == (1 * x.num) * (1 * y.den) - (1 * y.num) * (1 * x.den),
                    lhs.den == (1 * x.den) * (1 * y.den),
                    rhs.num == (x.num * y.den - y.num * x.den) * 1,
                    rhs.den == (x.den * y.den) * 1,
            ;
        },
        (TempUnit::C, TempUnit::F) => {
            assert(lhs.num * rhs.den == rhs.num * lhs.den) by (nonlinear_arith)
                requires
                    lhs.num == (9 * x.num + 160 * x.den) * (5 * y.den) - (9 * y.num + 160 * y.den) * (5 * x.den),
                    lhs.den == (5 * x.den) * (5 * y.den),
                    rhs.num == (x.num * y.den - y.num * x.den) * 9,
                    rhs.den == (x.den * y.den) * 5,
            ;
        },
        (TempUnit::C, TempUnit::K) => {
            assert(lhs.num * rhs.den == rhs.num * lhs.den) by (nonlinear_arith)
                requires
                    lhs.num == (100 * x.num + 27315 * x.den) * (100 * y.den) - (100 * y.num + 27315 * y.den) * (100 * x.den),
                    lhs.den == (100 * x.den) * (100 * y.den),
                    rhs.num == (x.num * y.den - y.num * x.den) * 1,
                    rhs.den == (x.den * y.den) * 1,
            ;
        },
        (TempUnit::F, TempUnit::C) => {
            assert(lhs.num * rhs.den == rhs.num * lhs.den) by (nonlinear_arith)
                requires
                    lhs.num == (5 * x.num - 160 * x.den) * (9 * y.den) - (5 * y.num - 160 * y.den) * (9 * x.den),
                    lhs.den == (9 * x.den) * (9 * y.den),
                    rhs.num == (x.num * y.den - y.num * x.den) * 5,
                    rhs.den == (x.den * y.den) * 9,
            ;
        },
        (TempUnit::F, TempUnit::F) => {
            assert(lhs.num * rhs.den == rhs.num * lhs.den) by (nonlinear_arith)
                requires
                    lhs.num == (45 * x.num) * (45 * y.den) - (45 * y.num) * (45 * x.den),
                    lhs.den == (45 * x.den) * (45 * y.den),
                    rhs.num == (x.num * y.den - y.num * x.den) * 45,
                    rhs.den == (x.den * y.den) * 45,
            ;
        },
        (TempUnit::F, TempUnit::K) => {
            assert(lhs.num * rhs.den == rhs.num * lhs.den) by (nonlinear_arith)
                requires
                    lhs.num == (500 * x.num + 229835 * x.den) * (900 * y.den) - (500 * y.num + 229835 * y.den) * (900 * x.den),
                    lhs.den == (900 * x.den) * (900 * y.den),
                    rhs.num == (x.num * y.den - y.num * x.den) * 5,
                    rhs.den == (x.den * y.den) * 9,
            ;
        },
        (TempUnit::K, TempUnit::C) => {
            assert(lhs.num * rhs.den == rhs.num * lhs.den) by (nonlinear_arith)
                requires
                    lhs.num == (100 * x.num - 27315 * x.den) * (100 * y.den) - (100 * y.num - 27315 * y.den) * (100 * x.den),
                    lhs.den == (100 * x.den) * (100 * y.den),
                    rhs.num == (x.num * y.den - y.num * x.den) * 1,
                    rhs.den == (x.den * y.den) * 1,
            ;
        },
        (TempUnit::K, TempUnit::F) => {
            assert(lhs.num * rhs.den == rhs.num * lhs.den) by (nonlinear_arith)
                requires
                    lhs.num == (900 * x.num - 229835 * x.den) * (500 * y.den) - (900 * y.num - 229835 * y.den) * (500 * x.den),
                    lhs.den == (500 * x.den) * (500 * y.den),
                    rhs.num == (x.num * y.den - y.num * x.den) * 9,
                    rhs.den == (x.den * y.den) * 5,
            ;
        },
        (TempUnit::K, TempUnit::K) => {
            assert(lhs.num * rhs.den == rhs.num * lhs.den) by (nonlinear_arith)
                requires
                    lhs.num == (10000 * x.num) * (10000 * y.den) - (10000 * y.num) * (10000 * x.den),
                    lhs.den == (10000 * x.den) * (10000 * y.den),
                    rhs.num == (x.num * y.den - y.num * x.den) * 1,
                    rhs.den == (x.den * y.den) * 1,
            ;
        },
    }
}

/// Data rate identity law: converting between equal data rate units
/// yields the value unchanged.
pub proof fn lemma_datarate_identity(v: Ratio, u: DataRateUnit)
    requires
        v.wf(),
    ensures
        spec_datarate(v, u, u) == v,
{
}

/// Data rate round-trip law: converting a value to the other data rate
/// unit and back yields the same rational value.
pub proof fn lemma_datarate_round_trip(v: Ratio, a: DataRateUnit, b: DataRateUnit)
    requires
        v.wf(),
    ensures
        spec_datarate(spec_datarate(v, a, b), b, a).same_value(v),
{
    let r = spec_datarate(spec_datarate(v, a, b), b, a);
    assert(v.num * 1000000 * v.den == v.num * (v.den * 1000000)) by (nonlinear_arith);
    assert((v.num * 1000000) * v.den == v.num * (v.den * 1000000)) by (nonlinear_arith);
}

/// Data rate linearity law: scaling the input by a ratio k scales the
/// output by k.
pub proof fn lemma_datarate_linear(v: Ratio, k: Ratio, a: DataRateUnit, b: DataRateUnit)
    requires
        v.wf(),
        k.wf(),
    ensures
        spec_datarate(k.times(v), a, b).same_value(k.times(spec_datarate(v, a, b))),
{
    let lhs = spec_datarate(k.times(v), a, b);
    let rhs = k.times(spec_datarate(v, a, b));
    assert((k.num * v.num) * (k.den * (v.den * 1000000)) == (k.num * (v.num)) * ((k.den * v.den)
        * 1000000)) by (nonlinear_arith);
    assert(((k.num * v.num) * 1000000) * (k.den * v.den) == (k.num * (v.num * 1000000)) * ((k.den
        * v.den) * 1)) by (nonlinear_arith);
    assert((k.num * v.num) * (k.den * v.den) == (k.num * v.num) * ((k.den * v.den))) by (nonlinear_arith);
}

/// Every length scale factor is positive.
pub proof fn lemma_length_factor_pos(u: LengthUnit)
    ensures
        length_factor(u).num > 0,
        length_factor(u).den > 0,
{
}

/// The three laws of the length category: converting a value to the
/// same unit yields the same rational value; converting to another unit
/// and back yields the same rational value; and scaling the input by a
/// ratio k scales the output by k.
pub proof fn lemma_length_laws(v: Ratio, k: Ratio, a: LengthUnit, b: LengthUnit)
    requires
        v.wf(),
        k.wf(),
    ensures
        ratio_convert(v, length_factor(a), length_factor(a)).same_value(v),
        ratio_convert(
            ratio_convert(v, length_factor(a), length_factor(b)),
            length_factor(b),
            length_factor(a),
        ).same_value(v),
        ratio_convert(k.times(v), length_factor(a), length_factor(b)).same_value(
            k.times(ratio_convert(v, length_factor(a), length_factor(b))),
        ),
{
    lemma_length_factor_pos(a);
    lemma_length_factor_pos(b);
    lemma_convert_identity(v, length_factor(a));
    lemma_convert_round_trip(v, length_factor(a), length_factor(b));
    lemma_convert_linear(v, k, length_factor(a), length_factor(b));
}

/// Every mass scale factor is positive.
pub proof fn lemma_mass_factor_pos(u: MassUnit)
    ensures
        mass_factor(u).num > 0,
        mass_factor(u).den > 0,
{
}

/// The three laws of the mass category: converting a value to the
/// same unit yields the same rational value; converting to another unit
/// and back yields the same rational value; and scaling the input by a
/// ratio k scales the output by k.
pub proof fn lemma_mass_laws(v: Ratio, k: Ratio, a: MassUnit, b: MassUnit)
    requires
        v.wf(),
        k.wf(),
    ensures
        ratio_convert(v, mass_factor(a), mass_factor(a)).same_value(v),
        ratio_convert(
            ratio_convert(v, mass_factor(a), mass_factor(b)),
            mass_factor(b),
            mass_factor(a),
        ).same_value(v),
        ratio_convert(k.times(v), mass_factor(a), mass_factor(b)).same_value(
            k.times(ratio_convert(v, mass_factor(a), mass_factor(b))),
        ),
{
    lemma_mass_factor_pos(a);
    lemma_mass_factor_pos(b);
    lemma_convert_identity(v, mass_factor(a));
    lemma_convert_round_trip(v, mass_factor(a), mass_factor(b));
    lemma_convert_linear(v, k, mass_factor(a), mass_factor(b));
}

/// Every area scale factor is positive.
pub proof fn lemma_area_factor_pos(u: AreaUnit)
    ensures
        area_factor(u).num > 0,
        area_factor(u).den > 0,
{
}

/// The three laws of the area category: converting a value to the
/// same unit yields the same rational value; converting to another unit
/// and back yields the same rational value; and scaling the input by a
/// ratio k scales the output by k.
pub proof fn lemma_area_laws(v: Ratio, k: Ratio, a: AreaUnit, b: AreaUnit)
    requires
        v.wf(),
        k.wf(),
    ensures
        ratio_convert(v, area_factor(a), area_factor(a)).same_value(v),
        ratio_convert(
            ratio_convert(v, area_factor(a), area_factor(b)),
            area_factor(b),
            area_factor(a),
        ).same_value(v),
        ratio_convert(k.times(v), area_factor(a), area_factor(b)).same_value(
            k.times(ratio_convert(v, area_factor(a), area_factor(b))),
        ),
{
    lemma_area_factor_pos(a);
    lemma_area_factor_pos(b);
    lemma_convert_identity(v, area_factor(a));
    lemma_convert_round_trip(v, area_factor(a), area_factor(b));
    lemma_convert_linear(v, k, area_factor(a), area_factor(b));
}

/// Every volume scale factor is positive.
pub proof fn lemma_volume_factor_pos(u: VolumeUnit)
    ensures
        volume_factor(u).num > 0,
        volume_factor(u).den > 0,
{
}

/// The three laws of the volume category: converting a value to the
/// same unit yields the same rational value; converting to another unit
/// and back yields the same rational value; and scaling the input by a
/// ratio k scales the output by k.
pub proof fn lemma_volume_laws(v: Ratio, k: Ratio, a: VolumeUnit, b: VolumeUnit)
    requires
        v.wf(),
        k.wf(),
    ensures
        ratio_convert(v, volume_factor(a), volume_factor(a)).same_value(v),
        ratio_convert(
            ratio_convert(v, volume_factor(a), volume_factor(b)),
            volume_factor(b),
            volume_factor(a),
        ).same_value(v),
        ratio_convert(k.times(v), volume_factor(a), volume_factor(b)).same_value(
            k.times(ratio_convert(v, volume_factor(a), volume_factor(b))),
        ),
{
    lemma_volume_factor_pos(a);
    lemma_volume_factor_pos(b);
    lemma_convert_identity(v, volume_factor(a));
    lemma_convert_round_trip(v, volume_factor(a), volume_factor(b));
    lemma_convert_linear(v, k, volume_factor(a), volume_factor(b));
}

/// Every speed scale factor is positive.
pub proof fn lemma_speed_factor_pos(u: SpeedUnit)
    ensures
        speed_factor(u).num > 0,
        speed_factor(u).den > 0,
{
}

/// The three laws of the speed category: converting a value to the
/// same unit yields the same rational value; converting to another unit
/// and back yields the same rational value; and scaling the input by a
/// ratio k scales the output by k.
pub proof fn lemma_speed_laws(v: Ratio, k: Ratio, a: SpeedUnit, b: SpeedUnit)
    requires
        v.wf(),
        k.wf(),
    ensures
        ratio_convert(v, speed_factor(a), speed_factor(a)).same_value(v),
        ratio_convert(
            ratio_convert(v, speed_factor(a), speed_factor(b)),
            speed_factor(b),
            speed_factor(a),
        ).same_value(v),
        ratio_convert(k.times(v), speed_factor(a), speed_factor(b)).same_value(
            k.times(ratio_convert(v, speed_factor(a), speed_factor(b))),
        ),
{
    lemma_speed_factor_pos(a);
    lemma_speed_factor_pos(b);
    lemma_convert_identity(v, speed_factor(a));
    lemma_convert_round_trip(v, speed_factor(a), speed_factor(b));
    lemma_convert_linear(v, k, speed_factor(a), speed_factor(b));
}

/// Every pressure scale factor is positive.
pub proof fn lemma_pressure_factor_pos(u: PressureUnit)
    ensures
        pressure_factor(u).num > 0,
        pressure_factor(u).den > 0,
{
}

/// The three laws of the pressure category: converting a value to the
/// same unit yields the same rational value; converting to another unit
/// and back yields the same rational value; and scaling the input by a
/// ratio k scales the output by k.
pub proof fn lemma_pressure_laws(v: Ratio, k: Ratio, a: PressureUnit, b: PressureUnit)
    requires
        v.wf(),
        k.wf(),
    ensures
        ratio_convert(v, pressure_factor(a), pressure_factor(a)).same_value(v),
        ratio_convert(
            ratio_convert(v, pressure_factor(a), pressure_factor(b)),
            pressure_factor(b),
            pressure_factor(a),
        ).same_value(v),
        ratio_convert(k.times(v), pressure_factor(a), pressure_factor(b)).same_value(
            k.times(ratio_convert(v, pressure_factor(a), pressure_factor(b))),
        ),
{
    lemma_pressure_factor_pos(a);
    lemma_pressure_factor_pos(b);
    lemma_convert_identity(v, pressure_factor(a));
    lemma_convert_round_trip(v, pressure_factor(a), pressure_factor(b));
    lemma_convert_linear(v, k, pressure_factor(a), pressure_factor(b));
}

/// Every electric current scale factor is positive.
pub proof fn lemma_current_factor_pos(u: CurrentUnit)
    ensures
        current_factor(u).num > 0,
        current_factor(u).den > 0,
{
}

/// The three laws of the electric current category: converting a value to the
/// same unit yields the same rational value; converting to another unit
/// and back yields the same rational value; and scaling the input by a
/// ratio k scales the output by k.
pub proof fn lemma_current_laws(v: Ratio, k: Ratio, a: CurrentUnit, b: CurrentUnit)
    requires
        v.wf(),
        k.wf(),
    ensures
        ratio_convert(v, current_factor(a), current_factor(a)).same_value(v),
        ratio_convert(
            ratio_convert(v, current_factor(a), current_factor(b)),
            current_factor(b),
            current_factor(a),
        ).same_value(v),
        ratio_convert(k.times(v), current_factor(a), current_factor(b)).same_value(
            k.times(ratio_convert(v, current_factor(a), current_factor(b))),
        ),
{
    lemma_current_factor_pos(a);
    lemma_current_factor_pos(b);
    lemma_convert_identity(v, current_factor(a));
    lemma_convert_round_trip(v, current_factor(a), current_factor(b));
    lemma_convert_linear(v, k, current_factor(a), current_factor(b));
}

/// Every energy scale factor is positive.
pub proof fn lemma_energy_factor_pos(u: EnergyUnit)
    ensures
        energy_factor(u).num > 0,
        energy_factor(u).den > 0,
{
}

/// The three laws of the energy category: converting a value to the
/// same unit yields the same rational value; converting to another unit
/// and back yields the same rational value; and scaling the input by a
/// ratio k scales the output by k.
pub proof fn lemma_energy_laws(v: Ratio, k: Ratio, a: EnergyUnit, b: EnergyUnit)
    requires
        v.wf(),
        k.wf(),
    ensures
        ratio_convert(v, energy_factor(a), energy_factor(a)).same_value(v),
        ratio_convert(
            ratio_convert(v, energy_factor(a), energy_factor(b)),
            energy_factor(b),
            energy_factor(a),
        ).same_value(v),
        ratio_convert(k.times(v), energy_factor(a), energy_factor(b)).same_value(
            k.times(ratio_convert(v, energy_factor(a), energy_factor(b))),
        ),
{
    lemma_energy_factor_pos(a);
    lemma_energy_factor_pos(b);
    lemma_convert_identity(v, energy_factor(a));
    lemma_convert_round_trip(v, energy_factor(a), energy_factor(b));
    lemma_convert_linear(v, k, energy_factor(a), energy_factor(b));
}

/// Every power scale factor is positive.
pub proof fn lemma_power_factor_pos(u: PowerUnit)
    ensures
        power_factor(u).num > 0,
        power_factor(u).den > 0,
{
}

/// The three laws of the power category: converting a value to the
/// same unit yields the same rational value; converting to another unit
/// and back yields the same rational value; and scaling the input by a
/// ratio k scales the output by k.
pub proof fn lemma_power_laws(v: Ratio, k: Ratio, a: PowerUnit, b: PowerUnit)
    requires
        v.wf(),
        k.wf(),
    ensures
        ratio_convert(v, power_factor(a), power_factor(a)).same_value(v),
        ratio_convert(
            ratio_convert(v, power_factor(a), power_factor(b)),
            power_factor(b),
            power_factor(a),
        ).same_value(v),
        ratio_convert(k.times(v), power_factor(a), power_factor(b)).same_value(
            k.times(ratio_convert(v, power_factor(a), power_factor(b))),
        ),
{
    lemma_power_factor_pos(a);
    lemma_power_factor_pos(b);
    lemma_convert_identity(v, power_factor(a));
    lemma_convert_round_trip(v, power_factor(a), power_factor(b));
    lemma_convert_linear(v, k, power_factor(a), power_factor(b));
}

/// Every frequency scale factor is positive.
pub proof fn lemma_frequency_factor_pos(u: FrequencyUnit)
    ensures
        frequency_factor(u).num > 0,
        frequency_factor(u).den > 0,
{
}

/// The three laws of the frequency category: converting a value to the
/// same unit yields the same rational value; converting to another unit
/// and back yields the same rational value; and scaling the input by a
/// ratio k scales the output by k.
pub proof fn lemma_frequency_laws(v: Ratio, k: Ratio, a: FrequencyUnit, b: FrequencyUnit)
    requires
        v.wf(),
        k.wf(),
    ensures
        ratio_convert(v, frequency_factor(a), frequency_factor(a)).same_value(v),
        ratio_convert(
            ratio_convert(v, frequency_factor(a), frequency_factor(b)),
            frequency_factor(b),
            frequency_factor(a),
        ).same_value(v),
        ratio_convert(k.times(v), frequency_factor(a), frequency_factor(b)).same_value(
            k.times(ratio_convert(v, frequency_factor(a), frequency_factor(b))),
        ),
{
    lemma_frequency_factor_pos(a);
    lemma_frequency_factor_pos(b);
    lemma_convert_identity(v, frequency_factor(a));
    lemma_convert_round_trip(v, frequency_factor(a), frequency_factor(b));
    lemma_convert_linear(v, k, frequency_factor(a), frequency_factor(b));
}

/// Every angle scale factor is positive.
pub proof fn lemma_angle_factor_pos(u: AngleUnit)
    ensures
        angle_factor(u).num > 0,
        angle_factor(u).den > 0,
{
}

/// The three laws of the angle category: converting a value to the
/// same unit yields the same rational value; converting to another unit
/// and back yields the same rational value; and scaling the input by a
/// ratio k scales the output by k.
pub proof fn lemma_angle_laws(v: Ratio, k: Ratio, a: AngleUnit, b: AngleUnit)
    requires
        v.wf(),
        k.wf(),
    ensures
        ratio_convert(v, angle_factor(a), angle_factor(a)).same_value(v),
        ratio_convert(
            ratio_convert(v, angle_factor(a), angle_factor(b)),
            angle_factor(b),
            angle_factor(a),
        ).same_value(v),
        ratio_convert(k.times(v), angle_factor(a), angle_factor(b)).same_value(
            k.times(ratio_convert(v, angle_factor(a), angle_factor(b))),
        ),
{
    lemma_angle_factor_pos(a);
    lemma_angle_factor_pos(b);
    lemma_convert_identity(v, angle_factor(a));
    lemma_convert_round_trip(v, angle_factor(a), angle_factor(b));
    lemma_convert_linear(v, k, angle_factor(a), angle_factor(b));
}

/// Every force scale factor is positive.
pub proof fn lemma_force_factor_pos(u: ForceUnit)
    ensures
        force_factor(u).num > 0,
        force_factor(u).den > 0,
{
}

/// The three laws of the force category: converting a value to the
/// same unit yields the same rational value; converting to another unit
/// and back yields the same rational value; and scaling the input by a
/// ratio k scales the output by k.
pub proof fn lemma_force_laws(v: Ratio, k: Ratio, a: ForceUnit, b: ForceUnit)
    requires
        v.wf(),
        k.wf(),
    ensures
        ratio_convert(v, force_factor(a), force_factor(a)).same_value(v),
        ratio_convert(
            ratio_convert(v, force_factor(a), force_factor(b)),
            force_factor(b),
            force_factor(a),
        ).same_value(v),
        ratio_convert(k.times(v), force_factor(a), force_factor(b)).same_value(
            k.times(ratio_convert(v, force_factor(a), force_factor(b))),
        ),
{
    lemma_force_factor_pos(a);
    lemma_force_factor_pos(b);
    lemma_convert_identity(v, force_factor(a));
    lemma_convert_round_trip(v, force_factor(a), force_factor(b));
    lemma_convert_linear(v, k, force_factor(a), force_factor(b));
}

/// Every magnetic field scale factor is positive.
pub proof fn lemma_magnetic_factor_pos(u: MagneticUnit)
    ensures
        magnetic_factor(u).num > 0,
        magnetic_factor(u).den > 0,
{
}

/// The three laws of the magnetic field category: converting a value to the
/// same unit yields the same rational value; converting to another unit
/// and back yields the same rational value; and scaling the input by a
/// ratio k scales the output by k.
pub proof fn lemma_magnetic_laws(v: Ratio, k: Ratio, a: MagneticUnit, b: MagneticUnit)
    requires
        v.wf(),
        k.wf(),
    ensures
        ratio_convert(v, magnetic_factor(a), magnetic_factor(a)).same_value(v),
        ratio_convert(
            ratio_convert(v, magnetic_factor(a), magnetic_factor(b)),
            magnetic_factor(b),
            magnetic_factor(a),
        ).same_value(v),
        ratio_convert(k.times(v), magnetic_factor(a), magnetic_factor(b)).same_value(
            k.times(ratio_convert(v, magnetic_factor(a), magnetic_factor(b))),
        ),
{
    lemma_magnetic_factor_pos(a);
    lemma_magnetic_factor_pos(b);
    lemma_convert_identity(v, magnetic_factor(a));
    lemma_convert_round_trip(v, magnetic_factor(a), magnetic_factor(b));
    lemma_convert_linear(v, k, magnetic_factor(a), magnetic_factor(b));
}

/// Every radioactivity scale factor is positive.
pub proof fn lemma_radioactivity_factor_pos(u: RadioactivityUnit)
    ensures
        radioactivity_factor(u).num > 0,
        radioactivity_factor(u).den > 0,
{
}

/// The three laws of the radioactivity category: converting a value to the
/// same unit yields the same rational value; converting to another unit
/// and back yields the same rational value; and scaling the input by a
/// ratio k scales the output by k.
pub proof fn lemma_radioactivity_laws(v: Ratio, k: Ratio, a: RadioactivityUnit, b: RadioactivityUnit)
    requires
        v.wf(),
        k.wf(),
    ensures
        ratio_convert(v, radioactivity_factor(a), radioactivity_factor(a)).same_value(v),
        ratio_convert(
            ratio_convert(v, radioactivity_factor(a), radioactivity_factor(b)),
            radioactivity_factor(b),
            radioactivity_factor(a),
        ).same_value(v),
        ratio_convert(k.times(v), radioactivity_factor(a), radioactivity_factor(b)).same_value(
            k.times(ratio_convert(v, radioactivity_factor(a), radioactivity_factor(b))),
        ),
{
    lemma_radioactivity_factor_pos(a);
    lemma_radioactivity_factor_pos(b);
    lemma_convert_identity(v, radioactivity_factor(a));
    lemma_convert_round_trip(v, radioactivity_factor(a), radioactivity_factor(b));
    lemma_convert_linear(v, k, radioactivity_factor(a), radioactivity_factor(b));
}

/// Every illuminance scale factor is positive.
pub proof fn lemma_illuminance_factor_pos(u: IlluminanceUnit)
    ensures
        illuminance_factor(u).num > 0,
        illuminance_factor(u).den > 0,
{
}

/// The three laws of the illuminance category: converting a value to the
/// same unit yields the same rational value; converting to another unit
/// and back yields the same rational value; and scaling the input by a
/// ratio k scales the output by k.
pub proof fn lemma_illuminance_laws(v: Ratio, k: Ratio, a: IlluminanceUnit, b: IlluminanceUnit)
    requires
        v.wf(),
        k.wf(),
    ensures
        ratio_convert(v, illuminance_factor(a), illuminance_factor(a)).same_value(v),
        ratio_convert(
            ratio_convert(v, illuminance_factor(a), illuminance_factor(b)),
            illuminance_factor(b),
            illuminance_factor(a),
        ).same_value(v),
        ratio_convert(k.times(v), illuminance_factor(a), illuminance_factor(b)).same_value(
            k.times(ratio_convert(v, illuminance_factor(a), illuminance_factor(b))),
        ),
{
    lemma_illuminance_factor_pos(a);
    lemma_illuminance_factor_pos(b);
    lemma_convert_identity(v, illuminance_factor(a));
    lemma_convert_round_trip(v, illuminance_factor(a), illuminance_factor(b));
    lemma_convert_linear(v, k, illuminance_factor(a), illuminance_factor(b));
}

} // verus!
