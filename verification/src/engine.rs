use vstd::prelude::*;

verus! {

use crate::rational::{Rat, Ratio};
use crate::units::{
    AmountUnit, AngleUnit, AreaUnit, CapacitanceUnit, ChargeUnit, ConductanceUnit, CurrentUnit,
    DataRateUnit, EnergyUnit, ForceUnit, FrequencyUnit, IlluminanceUnit, InductanceUnit,
    LengthUnit, LuminousUnit, MagneticUnit, MassUnit, PowerUnit, PressureUnit, RadioactivityUnit,
    ResistanceUnit, SpeedUnit, TempUnit, VoltageUnit, VolumeUnit,
};

/// Largest numerator magnitude and denominator the engine accepts for an
/// input value: far beyond any value a command line carries, and small
/// enough that no exact product below can overflow an `i128`.
pub const ENGINE_LIMIT: i128 = 144115188075855872;

/// Over one category, the scale to canonical of one unit times the scale
/// back from canonical of another is at most this, so an output
/// denominator is at most the input denominator times this.
pub const FACTOR_SPAN: i128 = 444822161530000000000;

/// The engine accepts values within [`ENGINE_LIMIT`].
pub open spec fn in_engine_range(v: Ratio) -> bool {
    -ENGINE_LIMIT <= v.num <= ENGINE_LIMIT && 0 < v.den <= ENGINE_LIMIT
}

/// Runtime test for [`in_engine_range`], for callers that receive a value
/// from outside.
pub fn fits_engine(v: &Rat) -> (b: bool)
    ensures
        b == (v.wf() && in_engine_range(v@)),
{
    -ENGINE_LIMIT <= v.num && v.num <= ENGINE_LIMIT && 0 < v.den && v.den <= ENGINE_LIMIT
}

/// The star conversion: scale the value to the category's canonical unit
/// by `f`, then from the canonical unit to the target by the inverse of
/// `t`. Routing every pair through one canonical unit keeps the factor
/// table linear in the number of units and makes any two paths agree.
pub open spec fn ratio_convert(v: Ratio, f: Ratio, t: Ratio) -> Ratio {
    Ratio { num: v.num * f.num * t.den, den: v.den * f.den * t.num }
}

/// What every conversion hands back: a well-formed rational whose
/// denominator grew by at most [`FACTOR_SPAN`], so it can still be
/// formatted.
pub open spec fn engine_output(c: Rat, v: Ratio) -> bool {
    &&& c.wf()
    &&& c@.num > i128::MIN
    &&& c@.den <= v.den * FACTOR_SPAN
}

/// Scale from a length unit to meters, as an exact ratio.
/// 3.28084 feet and 39.3701 inches per meter.
pub open spec fn length_factor(u: LengthUnit) -> Ratio {
    match u {
        LengthUnit::Meters => Ratio { num: 1, den: 1 },
        LengthUnit::Feet => Ratio { num: 100000, den: 328084 },
        LengthUnit::Inches => Ratio { num: 10000, den: 393701 },
        LengthUnit::Kilometers => Ratio { num: 1000, den: 1 },
    }
}

/// Convert between length units, exactly.
pub fn convert_length(value: &Rat, from: LengthUnit, to: LengthUnit) -> (r: Option<Rat>)
    requires
        value.wf(),
        in_engine_range(value@),
    ensures
        (r matches Some(c) && c@ == ratio_convert(value@, length_factor(from), length_factor(to))
            && engine_output(c, value@)),
{
    let canonical = match from {
        LengthUnit::Meters => *value,
        LengthUnit::Feet => value.scaled(100000, 328084),
        LengthUnit::Inches => value.scaled(10000, 393701),
        LengthUnit::Kilometers => value.scaled(1000, 1),
    };
    let result = match to {
        LengthUnit::Meters => canonical,
        LengthUnit::Feet => canonical.scaled(328084, 100000),
        LengthUnit::Inches => canonical.scaled(393701, 10000),
        LengthUnit::Kilometers => canonical.scaled(1, 1000),
    };
    proof {
        assert(result@.num == value@.num * length_factor(from).num * length_factor(to).den);
        assert(result@.den == value@.den * length_factor(from).den * length_factor(to).num);
        assert(result@ =~= ratio_convert(value@, length_factor(from), length_factor(to)));
    }
    Some(result)
}

/// What a value in a temperature unit is in Celsius: Fahrenheit is
/// (v - 32) * 5/9 and Kelvin is v - 273.15, both exact.
pub open spec fn spec_to_celsius(v: Ratio, from: TempUnit) -> Ratio {
    match from {
        TempUnit::C => v,
        TempUnit::F => v.minus(32, 1).scaled(5, 9),
        TempUnit::K => v.minus(27315, 100),
    }
}

/// What a Celsius value is in a temperature unit: Fahrenheit is
/// c * 9/5 + 32 and Kelvin is c + 273.15, both exact.
pub open spec fn spec_from_celsius(c: Ratio, to: TempUnit) -> Ratio {
    match to {
        TempUnit::C => c,
        TempUnit::F => c.scaled(9, 5).plus(32, 1),
        TempUnit::K => c.plus(27315, 100),
    }
}

/// Convert between temperature units through Celsius, exactly. This is
/// the one affine category: the transforms carry an offset, not just a
/// scale.
pub fn convert_temp(value: &Rat, from: TempUnit, to: TempUnit) -> (r: Option<Rat>)
    requires
        value.wf(),
        in_engine_range(value@),
    ensures
        (r matches Some(c) && c@ == spec_from_celsius(spec_to_celsius(value@, from), to)
            && engine_output(c, value@)),
{
    let celsius = match from {
        TempUnit::C => *value,
        TempUnit::F => value.minus_const(32, 1).scaled(5, 9),
        TempUnit::K => value.minus_const(27315, 100),
    };
    let result = match to {
        TempUnit::C => celsius,
        TempUnit::F => celsius.scaled(9, 5).plus_const(32, 1),
        TempUnit::K => celsius.plus_const(27315, 100),
    };
    Some(result)
}

/// What a data rate conversion yields: the two named directions scale by
/// one million bits per second per megabit per second; any other pair
/// falls back to the value unchanged.
pub open spec fn spec_datarate(v: Ratio, from: DataRateUnit, to: DataRateUnit) -> Ratio {
    if from == DataRateUnit::Bps && to == DataRateUnit::Mbps {
        v.scaled(1, 1000000)
    } else if from == DataRateUnit::Mbps && to == DataRateUnit::Bps {
        v.scaled(1000000, 1)
    } else {
        v
    }
}

/// Convert between data rate units, exactly.
pub fn convert_datarate(value: &Rat, from: DataRateUnit, to: DataRateUnit) -> (r: Option<Rat>)
    requires
        value.wf(),
        in_engine_range(value@),
    ensures
        (r matches Some(c) && c@ == spec_datarate(value@, from, to) && engine_output(c, value@)),
{
    match (from, to) {
        (DataRateUnit::Bps, DataRateUnit::Mbps) => Some(value.scaled(1, 1000000)),
        (DataRateUnit::Mbps, DataRateUnit::Bps) => Some(value.scaled(1000000, 1)),
        _ => Some(*value),
    }
}

/// Convert between luminous units. Candela, lumen and lux measure
/// different things, so only the identity pairs are defined; every cross
/// pair is unsupported.
pub fn convert_luminous(value: &Rat, from: LuminousUnit, to: LuminousUnit) -> (r: Option<Rat>)
    requires
        value.wf(),
        in_engine_range(value@),
    ensures
        from == to ==> r == Some(*value),
        from != to ==> r is None,
        (r matches Some(c) ==> engine_output(c, value@)),
{
    match (from, to) {
        (LuminousUnit::Candela, LuminousUnit::Candela) => Some(*value),
        (LuminousUnit::Lumen, LuminousUnit::Lumen) => Some(*value),
        (LuminousUnit::Lux, LuminousUnit::Lux) => Some(*value),
        _ => None,
    }
}

/// Convert capacitance units: farad is the only unit, so this is the
/// identity.
pub fn convert_capacitance(value: &Rat, _from: CapacitanceUnit, _to: CapacitanceUnit) -> (r: Option<
    Rat,
>)
    requires
        value.wf(),
        in_engine_range(value@),
    ensures
        r == Some(*value),
        (r matches Some(c) && engine_output(c, value@)),
{
    Some(*value)
}

/// Scale from a mass unit to kilograms, as an exact ratio.
/// 2.20462 pounds and 35.274 ounces per kilogram.
pub open spec fn mass_factor(u: MassUnit) -> Ratio {
    match u {
        MassUnit::Kg => Ratio { num: 1, den: 1 },
        MassUnit::Lb => Ratio { num: 100000, den: 220462 },
        MassUnit::Oz => Ratio { num: 1000, den: 35274 },
    }
}

/// Convert between mass units, exactly.
pub fn convert_mass(value: &Rat, from: MassUnit, to: MassUnit) -> (r: Option<Rat>)
    requires
        value.wf(),
        in_engine_range(value@),
    ensures
        (r matches Some(c) && c@ == ratio_convert(value@, mass_factor(from), mass_factor(to))
            && engine_output(c, value@)),
{
    let canonical = match from {
        MassUnit::Kg => *value,
        MassUnit::Lb => value.scaled(100000, 220462),
        MassUnit::Oz => value.scaled(1000, 35274),
    };
    let result = match to {
        MassUnit::Kg => canonical,
        MassUnit::Lb => canonical.scaled(220462, 100000),
        MassUnit::Oz => canonical.scaled(35274, 1000),
    };
    proof {
        assert(result@.num == value@.num * mass_factor(from).num * mass_factor(to).den);
        assert(result@.den == value@.den * mass_factor(from).den * mass_factor(to).num);
        assert(result@ =~= ratio_convert(value@, mass_factor(from), mass_factor(to)));
    }
    Some(result)
}

/// Scale from a area unit to square meters, as an exact ratio.
/// 10.7639 square feet per square meter, 4046.85642 square
/// meters per acre, ten thousand per hectare.
pub open spec fn area_factor(u: AreaUnit) -> Ratio {
    match u {
        AreaUnit::SquareMeters => Ratio { num: 1, den: 1 },
        AreaUnit::SquareFeet => Ratio { num: 10000, den: 107639 },
        AreaUnit::Acres => Ratio { num: 404685642, den: 100000 },
        AreaUnit::Hectares => Ratio { num: 10000, den: 1 },
    }
}

/// Convert between area units, exactly.
pub fn convert_area(value: &Rat, from: AreaUnit, to: AreaUnit) -> (r: Option<Rat>)
    requires
        value.wf(),
        in_engine_range(value@),
    ensures
        (r matches Some(c) && c@ == ratio_convert(value@, area_factor(from), area_factor(to))
            && engine_output(c, value@)),
{
    let canonical = match from {
        AreaUnit::SquareMeters => *value,
        AreaUnit::SquareFeet => value.scaled(10000, 107639),
        AreaUnit::Acres => value.scaled(404685642, 100000),
        AreaUnit::Hectares => value.scaled(10000, 1),
    };
    let result = match to {
        AreaUnit::SquareMeters => canonical,
        AreaUnit::SquareFeet => canonical.scaled(107639, 10000),
        AreaUnit::Acres => canonical.scaled(100000, 404685642),
        AreaUnit::Hectares => canonical.scaled(1, 10000),
    };
    proof {
        assert(result@.num == value@.num * area_factor(from).num * area_factor(to).den);
        assert(result@.den == value@.den * area_factor(from).den * area_factor(to).num);
        assert(result@ =~= ratio_convert(value@, area_factor(from), area_factor(to)));
    }
    Some(result)
}

/// Scale from a volume unit to liters, as an exact ratio.
/// 61.0237 cubic inches and 3.78541 liters per gallon.
pub open spec fn volume_factor(u: VolumeUnit) -> Ratio {
    match u {
        VolumeUnit::Liters => Ratio { num: 1, den: 1 },
        VolumeUnit::Milliliters => Ratio { num: 1, den: 1000 },
        VolumeUnit::CubicMeters => Ratio { num: 1000, den: 1 },
        VolumeUnit::CubicInches => Ratio { num: 10000, den: 610237 },
        VolumeUnit::Gallons => Ratio { num: 378541, den: 100000 },
    }
}

/// Convert between volume units, exactly.
pub fn convert_volume(value: &Rat, from: VolumeUnit, to: VolumeUnit) -> (r: Option<Rat>)
    requires
        value.wf(),
        in_engine_range(value@),
    ensures
        (r matches Some(c) && c@ == ratio_convert(value@, volume_factor(from), volume_factor(to))
            && engine_output(c, value@)),
{
    let canonical = match from {
        VolumeUnit::Liters => *value,
        VolumeUnit::Milliliters => value.scaled(1, 1000),
        VolumeUnit::CubicMeters => value.scaled(1000, 1),
        VolumeUnit::CubicInches => value.scaled(10000, 610237),
        VolumeUnit::Gallons => value.scaled(378541, 100000),
    };
    let result = match to {
        VolumeUnit::Liters => canonical,
        VolumeUnit::Milliliters => canonical.scaled(1000, 1),
        VolumeUnit::CubicMeters => canonical.scaled(1, 1000),
        VolumeUnit::CubicInches => canonical.scaled(610237, 10000),
        VolumeUnit::Gallons => canonical.scaled(100000, 378541),
    };
    proof {
        assert(result@.num == value@.num * volume_factor(from).num * volume_factor(to).den);
        assert(result@.den == value@.den * volume_factor(from).den * volume_factor(to).num);
        assert(result@ =~= ratio_convert(value@, volume_factor(from), volume_factor(to)));
    }
    Some(result)
}

/// Scale from a speed unit to meters per second, as an exact ratio.
/// 3.6 kph per m/s; 0.44704 m/s per mph; 0.514444 m/s per knot.
pub open spec fn speed_factor(u: SpeedUnit) -> Ratio {
    match u {
        SpeedUnit::Mps => Ratio { num: 1, den: 1 },
        SpeedUnit::Kph => Ratio { num: 10, den: 36 },
        SpeedUnit::Mph => Ratio { num: 44704, den: 100000 },
        SpeedUnit::Knots => Ratio { num: 514444, den: 1000000 },
    }
}

/// Convert between speed units, exactly.
pub fn convert_speed(value: &Rat, from: SpeedUnit, to: SpeedUnit) -> (r: Option<Rat>)
    requires
        value.wf(),
        in_engine_range(value@),
    ensures
        (r matches Some(c) && c@ == ratio_convert(value@, speed_factor(from), speed_factor(to))
            && engine_output(c, value@)),
{
    let canonical = match from {
        SpeedUnit::Mps => *value,
        SpeedUnit::Kph => value.scaled(10, 36),
        SpeedUnit::Mph => value.scaled(44704, 100000),
        SpeedUnit::Knots => value.scaled(514444, 1000000),
    };
    let result = match to {
        SpeedUnit::Mps => canonical,
        SpeedUnit::Kph => canonical.scaled(36, 10),
        SpeedUnit::Mph => canonical.scaled(100000, 44704),
        SpeedUnit::Knots => canonical.scaled(1000000, 514444),
    };
    proof {
        assert(result@.num == value@.num * speed_factor(from).num * speed_factor(to).den);
        assert(result@.den == value@.den * speed_factor(from).den * speed_factor(to).num);
        assert(result@ =~= ratio_convert(value@, speed_factor(from), speed_factor(to)));
    }
    Some(result)
}

/// Scale from a pressure unit to pascals, as an exact ratio.
/// 100000 Pa per bar, 101325 Pa per atmosphere, 6894.76 Pa per
/// psi.
pub open spec fn pressure_factor(u: PressureUnit) -> Ratio {
    match u {
        PressureUnit::Pascal => Ratio { num: 1, den: 1 },
        PressureUnit::Bar => Ratio { num: 100000, den: 1 },
        PressureUnit::Atm => Ratio { num: 101325, den: 1 },
        PressureUnit::Psi => Ratio { num: 689476, den: 100 },
    }
}

/// Convert between pressure units, exactly.
pub fn convert_pressure(value: &Rat, from: PressureUnit, to: PressureUnit) -> (r: Option<Rat>)
    requires
        value.wf(),
        in_engine_range(value@),
    ensures
        (r matches Some(c) && c@ == ratio_convert(value@, pressure_factor(from), pressure_factor(to))
            && engine_output(c, value@)),
{
    let canonical = match from {
        PressureUnit::Pascal => *value,
        PressureUnit::Bar => value.scaled(100000, 1),
        PressureUnit::Atm => value.scaled(101325, 1),
        PressureUnit::Psi => value.scaled(689476, 100),
    };
    let result = match to {
        PressureUnit::Pascal => canonical,
        PressureUnit::Bar => canonical.scaled(1, 100000),
        PressureUnit::Atm => canonical.scaled(1, 101325),
        PressureUnit::Psi => canonical.scaled(100, 689476),
    };
    proof {
        assert(result@.num == value@.num * pressure_factor(from).num * pressure_factor(to).den);
        assert(result@.den == value@.den * pressure_factor(from).den * pressure_factor(to).num);
        assert(result@ =~= ratio_convert(value@, pressure_factor(from), pressure_factor(to)));
    }
    Some(result)
}

/// Scale from a electric current unit to amperes, as an exact ratio.
/// one thousand milliamperes per ampere.
pub open spec fn current_factor(u: CurrentUnit) -> Ratio {
    match u {
        CurrentUnit::Ampere => Ratio { num: 1, den: 1 },
        CurrentUnit::Milliampere => Ratio { num: 1, den: 1000 },
    }
}

/// Convert between electric current units, exactly.
pub fn convert_current(value: &Rat, from: CurrentUnit, to: CurrentUnit) -> (r: Option<Rat>)
    requires
        value.wf(),
        in_engine_range(value@),
    ensures
        (r matches Some(c) && c@ == ratio_convert(value@, current_factor(from), current_factor(to))
            && engine_output(c, value@)),
{
    let canonical = match from {
        CurrentUnit::Ampere => *value,
        CurrentUnit::Milliampere => value.scaled(1, 1000),
    };
    let result = match to {
        CurrentUnit::Ampere => canonical,
        CurrentUnit::Milliampere => canonical.scaled(1000, 1),
    };
    proof {
        assert(result@.num == value@.num * current_factor(from).num * current_factor(to).den);
        assert(result@.den == value@.den * current_factor(from).den * current_factor(to).num);
        assert(result@ =~= ratio_convert(value@, current_factor(from), current_factor(to)));
    }
    Some(result)
}

/// Scale from a energy unit to joules, as an exact ratio.
/// 4.184 joules per calorie, 3.6 million joules per
/// kilowatt-hour.
pub open spec fn energy_factor(u: EnergyUnit) -> Ratio {
    match u {
        EnergyUnit::Joule => Ratio { num: 1, den: 1 },
        EnergyUnit::Calorie => Ratio { num: 4184, den: 1000 },
        EnergyUnit::Kwh => Ratio { num: 3600000, den: 1 },
    }
}

/// Convert between energy units, exactly.
pub fn convert_energy(value: &Rat, from: EnergyUnit, to: EnergyUnit) -> (r: Option<Rat>)
    requires
        value.wf(),
        in_engine_range(value@),
    ensures
        (r matches Some(c) && c@ == ratio_convert(value@, energy_factor(from), energy_factor(to))
            && engine_output(c, value@)),
{
    let canonical = match from {
        EnergyUnit::Joule => *value,
        EnergyUnit::Calorie => value.scaled(4184, 1000),
        EnergyUnit::Kwh => value.scaled(3600000, 1),
    };
    let result = match to {
        EnergyUnit::Joule => canonical,
        EnergyUnit::Calorie => canonical.scaled(1000, 4184),
        EnergyUnit::Kwh => canonical.scaled(1, 3600000),
    };
    proof {
        assert(result@.num == value@.num * energy_factor(from).num * energy_factor(to).den);
        assert(result@.den == value@.den * energy_factor(from).den * energy_factor(to).num);
        assert(result@ =~= ratio_convert(value@, energy_factor(from), energy_factor(to)));
    }
    Some(result)
}

/// Scale from a power unit to watts, as an exact ratio.
/// 745.699872 watts per horsepower.
pub open spec fn power_factor(u: PowerUnit) -> Ratio {
    match u {
        PowerUnit::Watt => Ratio { num: 1, den: 1 },
        PowerUnit::Kilowatt => Ratio { num: 1000, den: 1 },
        PowerUnit::Horsepower => Ratio { num: 745699872, den: 1000000 },
    }
}

/// Convert between power units, exactly.
pub fn convert_power(value: &Rat, from: PowerUnit, to: PowerUnit) -> (r: Option<Rat>)
    requires
        value.wf(),
        in_engine_range(value@),
    ensures
        (r matches Some(c) && c@ == ratio_convert(value@, power_factor(from), power_factor(to))
            && engine_output(c, value@)),
{
    let canonical = match from {
        PowerUnit::Watt => *value,
        PowerUnit::Kilowatt => value.scaled(1000, 1),
        PowerUnit::Horsepower => value.scaled(745699872, 1000000),
    };
    let result = match to {
        PowerUnit::Watt => canonical,
        PowerUnit::Kilowatt => canonical.scaled(1, 1000),
        PowerUnit::Horsepower => canonical.scaled(1000000, 745699872),
    };
    proof {
        assert(result@.num == value@.num * power_factor(from).num * power_factor(to).den);
        assert(result@.den == value@.den * power_factor(from).den * power_factor(to).num);
        assert(result@ =~= ratio_convert(value@, power_factor(from), power_factor(to)));
    }
    Some(result)
}

/// Scale from a frequency unit to hertz, as an exact ratio.
/// one thousand hertz per kilohertz.
pub open spec fn frequency_factor(u: FrequencyUnit) -> Ratio {
    match u {
        FrequencyUnit::Hertz => Ratio { num: 1, den: 1 },
        FrequencyUnit::Kilohertz => Ratio { num: 1000, den: 1 },
    }
}

/// Convert between frequency units, exactly.
pub fn convert_frequency(value: &Rat, from: FrequencyUnit, to: FrequencyUnit) -> (r: Option<Rat>)
    requires
        value.wf(),
        in_engine_range(value@),
    ensures
        (r matches Some(c) && c@ == ratio_convert(value@, frequency_factor(from), frequency_factor(to))
            && engine_output(c, value@)),
{
    let canonical = match from {
        FrequencyUnit::Hertz => *value,
        FrequencyUnit::Kilohertz => value.scaled(1000, 1),
    };
    let result = match to {
        FrequencyUnit::Hertz => canonical,
        FrequencyUnit::Kilohertz => canonical.scaled(1, 1000),
    };
    proof {
        assert(result@.num == value@.num * frequency_factor(from).num * frequency_factor(to).den);
        assert(result@.den == value@.den * frequency_factor(from).den * frequency_factor(to).num);
        assert(result@ =~= ratio_convert(value@, frequency_factor(from), frequency_factor(to)));
    }
    Some(result)
}

/// Scale from a angle unit to degrees, as an exact ratio.
/// 180 / pi degrees per radian, with pi as the
/// continued-fraction convergent 312689 / 99532 (within 3e-11 of pi);
/// 0.9 degrees per gradian.
pub open spec fn angle_factor(u: AngleUnit) -> Ratio {
    match u {
        AngleUnit::Degree => Ratio { num: 1, den: 1 },
        AngleUnit::Radian => Ratio { num: 17915760, den: 312689 },
        AngleUnit::Gradian => Ratio { num: 9, den: 10 },
    }
}

/// Convert between angle units, exactly.
pub fn convert_angle(value: &Rat, from: AngleUnit, to: AngleUnit) -> (r: Option<Rat>)
    requires
        value.wf(),
        in_engine_range(value@),
    ensures
        (r matches Some(c) && c@ == ratio_convert(value@, angle_factor(from), angle_factor(to))
            && engine_output(c, value@)),
{
    let canonical = match from {
        AngleUnit::Degree => *value,
        AngleUnit::Radian => value.scaled(17915760, 312689),
        AngleUnit::Gradian => value.scaled(9, 10),
    };
    let result = match to {
        AngleUnit::Degree => canonical,
        AngleUnit::Radian => canonical.scaled(312689, 17915760),
        AngleUnit::Gradian => canonical.scaled(10, 9),
    };
    proof {
        assert(result@.num == value@.num * angle_factor(from).num * angle_factor(to).den);
        assert(result@.den == value@.den * angle_factor(from).den * angle_factor(to).num);
        assert(result@ =~= ratio_convert(value@, angle_factor(from), angle_factor(to)));
    }
    Some(result)
}

/// Scale from a force unit to newtons, as an exact ratio.
/// 4.4482216153 newtons per pound-force.
pub open spec fn force_factor(u: ForceUnit) -> Ratio {
    match u {
        ForceUnit::Newton => Ratio { num: 1, den: 1 },
        ForceUnit::PoundForce => Ratio { num: 44482216153, den: 10000000000 },
    }
}

/// Convert between force units, exactly.
pub fn convert_force(value: &Rat, from: ForceUnit, to: ForceUnit) -> (r: Option<Rat>)
    requires
        value.wf(),
        in_engine_range(value@),
    ensures
        (r matches Some(c) && c@ == ratio_convert(value@, force_factor(from), force_factor(to))
            && engine_output(c, value@)),
{
    let canonical = match from {
        ForceUnit::Newton => *value,
        ForceUnit::PoundForce => value.scaled(44482216153, 10000000000),
    };
    let result = match to {
        ForceUnit::Newton => canonical,
        ForceUnit::PoundForce => canonical.scaled(10000000000, 44482216153),
    };
    proof {
        assert(result@.num == value@.num * force_factor(from).num * force_factor(to).den);
        assert(result@.den == value@.den * force_factor(from).den * force_factor(to).num);
        assert(result@ =~= ratio_convert(value@, force_factor(from), force_factor(to)));
    }
    Some(result)
}

/// Scale from a magnetic field unit to teslas, as an exact ratio.
/// ten thousand gauss per tesla.
pub open spec fn magnetic_factor(u: MagneticUnit) -> Ratio {
    match u {
        MagneticUnit::Tesla => Ratio { num: 1, den: 1 },
        MagneticUnit::Gauss => Ratio { num: 1, den: 10000 },
    }
}

/// Convert between magnetic field units, exactly.
pub fn convert_magnetic(value: &Rat, from: MagneticUnit, to: MagneticUnit) -> (r: Option<Rat>)
    requires
        value.wf(),
        in_engine_range(value@),
    ensures
        (r matches Some(c) && c@ == ratio_convert(value@, magnetic_factor(from), magnetic_factor(to))
            && engine_output(c, value@)),
{
    let canonical = match from {
        MagneticUnit::Tesla => *value,
        MagneticUnit::Gauss => value.scaled(1, 10000),
    };
    let result = match to {
        MagneticUnit::Tesla => canonical,
        MagneticUnit::Gauss => canonical.scaled(10000, 1),
    };
    proof {
        assert(result@.num == value@.num * magnetic_factor(from).num * magnetic_factor(to).den);
        assert(result@.den == value@.den * magnetic_factor(from).den * magnetic_factor(to).num);
        assert(result@ =~= ratio_convert(value@, magnetic_factor(from), magnetic_factor(to)));
    }
    Some(result)
}

/// Scale from a radioactivity unit to becquerels, as an exact ratio.
/// 37 billion becquerels per curie.
pub open spec fn radioactivity_factor(u: RadioactivityUnit) -> Ratio {
    match u {
        RadioactivityUnit::Becquerel => Ratio { num: 1, den: 1 },
        RadioactivityUnit::Curie => Ratio { num: 37000000000, den: 1 },
    }
}

/// Convert between radioactivity units, exactly.
pub fn convert_radioactivity(value: &Rat, from: RadioactivityUnit, to: RadioactivityUnit) -> (r: Option<Rat>)
    requires
        value.wf(),
        in_engine_range(value@),
    ensures
        (r matches Some(c) && c@ == ratio_convert(value@, radioactivity_factor(from), radioactivity_factor(to))
            && engine_output(c, value@)),
{
    let canonical = match from {
        RadioactivityUnit::Becquerel => *value,
        RadioactivityUnit::Curie => value.scaled(37000000000, 1),
    };
    let result = match to {
        RadioactivityUnit::Becquerel => canonical,
        RadioactivityUnit::Curie => canonical.scaled(1, 37000000000),
    };
    proof {
        assert(result@.num == value@.num * radioactivity_factor(from).num * radioactivity_factor(to).den);
        assert(result@.den == value@.den * radioactivity_factor(from).den * radioactivity_factor(to).num);
        assert(result@ =~= ratio_convert(value@, radioactivity_factor(from), radioactivity_factor(to)));
    }
    Some(result)
}

/// Scale from a illuminance unit to lux, as an exact ratio.
/// 10.76391 lux per foot-candle.
pub open spec fn illuminance_factor(u: IlluminanceUnit) -> Ratio {
    match u {
        IlluminanceUnit::Lux => Ratio { num: 1, den: 1 },
        IlluminanceUnit::FootCandle => Ratio { num: 1076391, den: 100000 },
    }
}

/// Convert between illuminance units, exactly.
pub fn convert_illuminance(value: &Rat, from: IlluminanceUnit, to: IlluminanceUnit) -> (r: Option<Rat>)
    requires
        value.wf(),
        in_engine_range(value@),
    ensures
        (r matches Some(c) && c@ == ratio_convert(value@, illuminance_factor(from), illuminance_factor(to))
            && engine_output(c, value@)),
{
    let canonical = match from {
        IlluminanceUnit::Lux => *value,
        IlluminanceUnit::FootCandle => value.scaled(1076391, 100000),
    };
    let result = match to {
        IlluminanceUnit::Lux => canonical,
        IlluminanceUnit::FootCandle => canonical.scaled(100000, 1076391),
    };
    proof {
        assert(result@.num == value@.num * illuminance_factor(from).num * illuminance_factor(to).den);
        assert(result@.den == value@.den * illuminance_factor(from).den * illuminance_factor(to).num);
        assert(result@ =~= ratio_convert(value@, illuminance_factor(from), illuminance_factor(to)));
    }
    Some(result)
}

/// Convert inductance units: the henry is the only unit, so this is
/// the identity.
pub fn convert_inductance(value: &Rat, _from: InductanceUnit, _to: InductanceUnit) -> (r: Option<Rat>)
    requires
        value.wf(),
        in_engine_range(value@),
    ensures
        r == Some(*value),
        (r matches Some(c) && engine_output(c, value@)),
{
    Some(*value)
}

/// Convert conductance units: the siemens is the only unit, so this is
/// the identity.
pub fn convert_conductance(value: &Rat, _from: ConductanceUnit, _to: ConductanceUnit) -> (r: Option<Rat>)
    requires
        value.wf(),
        in_engine_range(value@),
    ensures
        r == Some(*value),
        (r matches Some(c) && engine_output(c, value@)),
{
    Some(*value)
}

/// Convert electric charge units: the coulomb is the only unit, so this is
/// the identity.
pub fn convert_charge(value: &Rat, _from: ChargeUnit, _to: ChargeUnit) -> (r: Option<Rat>)
    requires
        value.wf(),
        in_engine_range(value@),
    ensures
        r == Some(*value),
        (r matches Some(c) && engine_output(c, value@)),
{
    Some(*value)
}

/// Convert voltage units: the volt is the only unit, so this is
/// the identity.
pub fn convert_voltage(value: &Rat, _from: VoltageUnit, _to: VoltageUnit) -> (r: Option<Rat>)
    requires
        value.wf(),
        in_engine_range(value@),
    ensures
        r == Some(*value),
        (r matches Some(c) && engine_output(c, value@)),
{
    Some(*value)
}

/// Convert resistance units: the ohm is the only unit, so this is
/// the identity.
pub fn convert_resistance(value: &Rat, _from: ResistanceUnit, _to: ResistanceUnit) -> (r: Option<Rat>)
    requires
        value.wf(),
        in_engine_range(value@),
    ensures
        r == Some(*value),
        (r matches Some(c) && engine_output(c, value@)),
{
    Some(*value)
}

/// Convert amount of substance units: the mole is the only unit, so this is
/// the identity.
pub fn convert_amount(value: &Rat, _from: AmountUnit, _to: AmountUnit) -> (r: Option<Rat>)
    requires
        value.wf(),
        in_engine_range(value@),
    ensures
        r == Some(*value),
        (r matches Some(c) && engine_output(c, value@)),
{
    Some(*value)
}


} // verus!
