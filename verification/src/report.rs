use vstd::prelude::*;

verus! {

use vstd::string::StringExecFns;
use crate::digits::{spec_digits, digits_string};
use crate::engine::{
    in_engine_range, engine_output, ratio_convert, spec_to_celsius, spec_from_celsius,
    spec_datarate, convert_length, convert_temp, convert_datarate, convert_luminous,
    convert_mass, convert_area, convert_volume, convert_speed, convert_pressure, convert_current,
    convert_energy, convert_power, convert_frequency, convert_angle, convert_force,
    convert_magnetic, convert_radioactivity, convert_illuminance, convert_capacitance,
    convert_inductance, convert_conductance, convert_charge, convert_voltage, convert_resistance,
    convert_amount, length_factor, mass_factor, area_factor, volume_factor, speed_factor,
    pressure_factor, current_factor, energy_factor, power_factor, frequency_factor, angle_factor,
    force_factor, magnetic_factor, radioactivity_factor, illuminance_factor,
};
use crate::fixed::{spec_fixed, format_fixed, fits_fixed_den};
use crate::human::{spec_bytes_readable, spec_seconds_readable, bytes_to_mb, bytes_to_human_readable,
    seconds_to_human_readable};
use crate::rational::{Rat, Ratio};
use crate::units::{
    LengthUnit, TempUnit, DataRateUnit, LuminousUnit, MassUnit, AreaUnit, VolumeUnit, SpeedUnit,
    PressureUnit, CurrentUnit, EnergyUnit, PowerUnit, FrequencyUnit, AngleUnit, ForceUnit,
    MagneticUnit, RadioactivityUnit, IlluminanceUnit, CapacitanceUnit, InductanceUnit,
    ConductanceUnit, ChargeUnit, VoltageUnit, ResistanceUnit, AmountUnit, length_token,
    length_unit_token, temp_unit_token, data_rate_token, data_rate_unit_token, luminous_token,
    luminous_unit_token, mass_token, mass_unit_token, area_token, area_unit_token, volume_token,
    volume_unit_token, speed_token, speed_unit_token, pressure_token, pressure_unit_token,
    current_token, current_unit_token, energy_token, energy_unit_token, power_token,
    power_unit_token, frequency_token, frequency_unit_token, angle_token, angle_unit_token,
    force_token, force_unit_token, magnetic_token, magnetic_unit_token, radioactivity_token,
    radioactivity_unit_token, illuminance_token, illuminance_unit_token, capacitance_token,
    capacitance_unit_token, inductance_token, inductance_unit_token, conductance_token,
    conductance_unit_token, charge_token, charge_unit_token, voltage_token, voltage_unit_token,
    resistance_token, resistance_unit_token, amount_token, amount_unit_token,
};

/// Largest denominator a displayed value may carry: a parsed decimal has
/// at most twelve fraction digits, and the formatter then has room for
/// the factors a conversion multiplies in.
pub const DISPLAY_DEN_LIMIT: i128 = 1000000000000;

/// A value the reporting layer accepts: within the engine's range, with
/// a denominator small enough to format after any conversion.
pub open spec fn displayable(v: Ratio) -> bool {
    in_engine_range(v) && v.den <= DISPLAY_DEN_LIMIT
}

/// Runtime test for [`displayable`], for callers that receive a value
/// from outside.
pub fn fits_display(v: &Rat) -> (b: bool)
    ensures
        b == displayable(v@),
{
    crate::engine::fits_engine(v) && v.den <= DISPLAY_DEN_LIMIT
}

/// The report line for a conversion: the input with four decimals, its
/// unit, an equals sign, the result with four decimals, its unit.
pub open spec fn spec_value_line(v: Ratio, r: Ratio, ft: Seq<char>, tt: Seq<char>) -> Seq<char> {
    spec_fixed(v.num, v.den, 4) + " "@ + ft + " = "@ + spec_fixed(r.num, r.den, 4) + " "@ + tt
}

/// The report line for a pair the engine defines no formula for.
pub open spec fn spec_unsupported_line(ft: Seq<char>, tt: Seq<char>) -> Seq<char> {
    "Conversion from "@ + ft + " to "@ + tt + " not supported."@
}

/// Format the report line for a conversion.
fn value_line(v: &Rat, r: &Rat, ft: &str, tt: &str) -> (s: String)
    requires
        v.wf(),
        r.wf(),
        v.num > i128::MIN,
        r.num > i128::MIN,
        fits_fixed_den(v.den as int),
        fits_fixed_den(r.den as int),
    ensures
        s@ == spec_value_line(v@, r@, ft@, tt@),
{
    let left = format_fixed(v, 4);
    let right = format_fixed(r, 4);
    let s = left.concat(" ").concat(ft).concat(" = ").concat(right.as_str()).concat(" ").concat(tt);
    proof {
        assert(s@ =~= spec_value_line(v@, r@, ft@, tt@));
    }
    s
}

/// Format the report line for an unsupported pair.
fn unsupported_line(ft: &str, tt: &str) -> (s: String)
    ensures
        s@ == spec_unsupported_line(ft@, tt@),
{
    let s = String::from_str("Conversion from ").concat(ft).concat(" to ").concat(tt).concat(
        " not supported.",
    );
    proof {
        assert(s@ =~= spec_unsupported_line(ft@, tt@));
    }
    s
}

/// A conversion output can always be formatted when the input was
/// displayable.
proof fn lemma_output_fits(c: Rat, v: Ratio)
    requires
        displayable(v),
        engine_output(c, v),
    ensures
        c.num > i128::MIN,
        fits_fixed_den(c.den as int),
{
}

/// The length report: the identity pair short-circuits to the value
/// itself; every other pair shows the engine's exact result.
pub open spec fn spec_length_line(v: Ratio, from: LengthUnit, to: LengthUnit) -> Seq<char> {
    if from == to {
        spec_value_line(v, v, length_token(from), length_token(to))
    } else {
        spec_value_line(
            v,
            ratio_convert(v, length_factor(from), length_factor(to)),
            length_token(from),
            length_token(to),
        )
    }
}

/// Report a length conversion as the line the tool prints.
pub fn length_line(value: &Rat, from: LengthUnit, to: LengthUnit) -> (s: String)
    requires
        value.wf(),
        displayable(value@),
    ensures
        s@ == spec_length_line(value@, from, to),
{
    let ft = length_unit_token(from);
    let tt = length_unit_token(to);
    if from == to {
        value_line(value, value, ft, tt)
    } else {
        match convert_length(value, from, to) {
            Some(c) => {
                proof {
                    lemma_output_fits(c, value@);
                }
                value_line(value, &c, ft, tt)
            },
            None => unsupported_line(ft, tt),
        }
    }
}

/// The uppercase display letter of a temperature unit.
pub open spec fn temp_token_upper(u: TempUnit) -> Seq<char> {
    match u {
        TempUnit::C => "C"@,
        TempUnit::F => "F"@,
        TempUnit::K => "K"@,
    }
}

/// The uppercase display letter of a temperature unit.
pub fn temp_unit_token_upper(u: TempUnit) -> (t: &'static str)
    ensures
        t@ == temp_token_upper(u),
{
    match u {
        TempUnit::C => "C",
        TempUnit::F => "F",
        TempUnit::K => "K",
    }
}

/// The report line for a temperature conversion: two decimals and a
/// degree sign before each uppercase unit letter.
pub open spec fn spec_degree_line(v: Ratio, r: Ratio, ft: Seq<char>, tt: Seq<char>) -> Seq<char> {
    spec_fixed(v.num, v.den, 2) + "°"@ + ft + " = "@ + spec_fixed(r.num, r.den, 2) + "°"@ + tt
}

/// Format the report line for a temperature conversion.
fn degree_line(v: &Rat, r: &Rat, ft: &str, tt: &str) -> (s: String)
    requires
        v.wf(),
        r.wf(),
        v.num > i128::MIN,
        r.num > i128::MIN,
        fits_fixed_den(v.den as int),
        fits_fixed_den(r.den as int),
    ensures
        s@ == spec_degree_line(v@, r@, ft@, tt@),
{
    let left = format_fixed(v, 2);
    let right = format_fixed(r, 2);
    let s = left.concat("°").concat(ft).concat(" = ").concat(right.as_str()).concat("°").concat(tt);
    proof {
        assert(s@ =~= spec_degree_line(v@, r@, ft@, tt@));
    }
    s
}

/// The temperature report: the identity pair short-circuits to the value
/// itself; every other pair shows the exact affine result.
pub open spec fn spec_temp_line(v: Ratio, from: TempUnit, to: TempUnit) -> Seq<char> {
    if from == to {
        spec_degree_line(v, v, temp_token_upper(from), temp_token_upper(to))
    } else {
        spec_degree_line(
            v,
            spec_from_celsius(spec_to_celsius(v, from), to),
            temp_token_upper(from),
            temp_token_upper(to),
        )
    }
}

/// Report a temperature conversion as the line the tool prints.
pub fn temp_line(value: &Rat, from: TempUnit, to: TempUnit) -> (s: String)
    requires
        value.wf(),
        displayable(value@),
    ensures
        s@ == spec_temp_line(value@, from, to),
{
    let ft = temp_unit_token_upper(from);
    let tt = temp_unit_token_upper(to);
    if from == to {
        degree_line(value, value, ft, tt)
    } else {
        match convert_temp(value, from, to) {
            Some(c) => {
                proof {
                    lemma_output_fits(c, value@);
                }
                degree_line(value, &c, ft, tt)
            },
            None => unsupported_line(temp_unit_token(from), temp_unit_token(to)),
        }
    }
}

/// The data rate report: the identity pair short-circuits to the value
/// itself; every other pair shows the engine's exact result.
pub open spec fn spec_data_rate_line(v: Ratio, from: DataRateUnit, to: DataRateUnit) -> Seq<char> {
    if from == to {
        spec_value_line(v, v, data_rate_token(from), data_rate_token(to))
    } else {
        spec_value_line(v, spec_datarate(v, from, to), data_rate_token(from), data_rate_token(to))
    }
}

/// Report a data rate conversion as the line the tool prints.
pub fn data_rate_line(value: &Rat, from: DataRateUnit, to: DataRateUnit) -> (s: String)
    requires
        value.wf(),
        displayable(value@),
    ensures
        s@ == spec_data_rate_line(value@, from, to),
{
    let ft = data_rate_unit_token(from);
    let tt = data_rate_unit_token(to);
    if from == to {
        value_line(value, value, ft, tt)
    } else {
        match convert_datarate(value, from, to) {
            Some(c) => {
                proof {
                    lemma_output_fits(c, value@);
                }
                value_line(value, &c, ft, tt)
            },
            None => unsupported_line(ft, tt),
        }
    }
}

/// The report line for a luminous pair with no formula: these units
/// measure different things.
pub open spec fn spec_luminous_unsupported_line(ft: Seq<char>, tt: Seq<char>) -> Seq<char> {
    "Conversion from "@ + ft + " to "@ + tt
        + " is not directly supported (dimensional incompatibility)."@
}

/// Format the report line for a luminous pair with no formula.
fn luminous_unsupported_line(ft: &str, tt: &str) -> (s: String)
    ensures
        s@ == spec_luminous_unsupported_line(ft@, tt@),
{
    let s = String::from_str("Conversion from ").concat(ft).concat(" to ").concat(tt).concat(
        " is not directly supported (dimensional incompatibility).",
    );
    proof {
        assert(s@ =~= spec_luminous_unsupported_line(ft@, tt@));
    }
    s
}

/// The luminous report: only the identity pairs have a value; every
/// cross pair reports the dimensional incompatibility.
pub open spec fn spec_luminous_line(v: Ratio, from: LuminousUnit, to: LuminousUnit) -> Seq<char> {
    if from == to {
        spec_value_line(v, v, luminous_token(from), luminous_token(to))
    } else {
        spec_luminous_unsupported_line(luminous_token(from), luminous_token(to))
    }
}

/// Report a luminous conversion as the line the tool prints.
pub fn luminous_line(value: &Rat, from: LuminousUnit, to: LuminousUnit) -> (s: String)
    requires
        value.wf(),
        displayable(value@),
    ensures
        s@ == spec_luminous_line(value@, from, to),
{
    let ft = luminous_unit_token(from);
    let tt = luminous_unit_token(to);
    if from == to {
        value_line(value, value, ft, tt)
    } else {
        match convert_luminous(value, from, to) {
            Some(c) => {
                proof {
                    lemma_output_fits(c, value@);
                }
                value_line(value, &c, ft, tt)
            },
            None => luminous_unsupported_line(ft, tt),
        }
    }
}

/// The bytes report: megabytes with two decimals, or the human-readable
/// form, or a hint to pass one of the two switches.
pub open spec fn spec_bytes_line(n: nat, megabytes: bool, human_readable: bool) -> Seq<char> {
    if megabytes {
        spec_digits(n) + " bytes = "@ + spec_fixed(n as int, 1048576, 2) + " MB"@
    } else if human_readable {
        spec_digits(n) + " bytes = "@ + spec_bytes_readable(n)
    } else {
        "Please specify --megabytes or --human-readable. See --help."@
    }
}

/// Report a bytes conversion as the line the tool prints.
pub fn bytes_line(num: u64, megabytes: bool, human_readable: bool) -> (s: String)
    ensures
        s@ == spec_bytes_line(num as nat, megabytes, human_readable),
{
    if megabytes {
        let mb = bytes_to_mb(num);
        let fixed = format_fixed(&mb, 2);
        let s = digits_string(num as i128).concat(" bytes = ").concat(fixed.as_str()).concat(" MB");
        proof {
            assert(s@ =~= spec_bytes_line(num as nat, megabytes, human_readable));
        }
        s
    } else if human_readable {
        let readable = bytes_to_human_readable(num);
        let s = digits_string(num as i128).concat(" bytes = ").concat(readable.as_str());
        proof {
            assert(s@ =~= spec_bytes_line(num as nat, megabytes, human_readable));
        }
        s
    } else {
        String::from_str("Please specify --megabytes or --human-readable. See --help.")
    }
}

/// The time report: the human-readable decomposition, or a hint to pass
/// the switch.
pub open spec fn spec_time_line(n: nat, human_readable: bool) -> Seq<char> {
    if human_readable {
        spec_digits(n) + " seconds = "@ + spec_seconds_readable(n)
    } else {
        "Please specify --human-readable. See --help."@
    }
}

/// Report a time conversion as the line the tool prints.
pub fn time_line(seconds: u64, human_readable: bool) -> (s: String)
    ensures
        s@ == spec_time_line(seconds as nat, human_readable),
{
    if human_readable {
        let readable = seconds_to_human_readable(seconds);
        let s = digits_string(seconds as i128).concat(" seconds = ").concat(readable.as_str());
        proof {
            assert(s@ =~= spec_time_line(seconds as nat, human_readable));
        }
        s
    } else {
        String::from_str("Please specify --human-readable. See --help.")
    }
}

/// The mass report: the identity pair short-circuits to the value
/// itself; every other pair shows the engine's exact result.
pub open spec fn spec_mass_line(v: Ratio, from: MassUnit, to: MassUnit) -> Seq<char> {
    if from == to {
        spec_value_line(v, v, mass_token(from), mass_token(to))
    } else {
        spec_value_line(
            v,
            ratio_convert(v, mass_factor(from), mass_factor(to)),
            mass_token(from),
            mass_token(to),
        )
    }
}

/// Report a mass conversion as the line the tool prints.
pub fn mass_line(value: &Rat, from: MassUnit, to: MassUnit) -> (s: String)
    requires
        value.wf(),
        displayable(value@),
    ensures
        s@ == spec_mass_line(value@, from, to),
{
    let ft = mass_unit_token(from);
    let tt = mass_unit_token(to);
    if from == to {
        value_line(value, value, ft, tt)
    } else {
        match convert_mass(value, from, to) {
            Some(c) => {
                proof {
                    lemma_output_fits(c, value@);
                }
                value_line(value, &c, ft, tt)
            },
            None => unsupported_line(ft, tt),
        }
    }
}

/// The area report: the identity pair short-circuits to the value
/// itself; every other pair shows the engine's exact result.
pub open spec fn spec_area_line(v: Ratio, from: AreaUnit, to: AreaUnit) -> Seq<char> {
    if from == to {
        spec_value_line(v, v, area_token(from), area_token(to))
    } else {
        spec_value_line(
            v,
            ratio_convert(v, area_factor(from), area_factor(to)),
            area_token(from),
            area_token(to),
        )
    }
}

/// Report a area conversion as the line the tool prints.
pub fn area_line(value: &Rat, from: AreaUnit, to: AreaUnit) -> (s: String)
    requires
        value.wf(),
        displayable(value@),
    ensures
        s@ == spec_area_line(value@, from, to),
{
    let ft = area_unit_token(from);
    let tt = area_unit_token(to);
    if from == to {
        value_line(value, value, ft, tt)
    } else {
        match convert_area(value, from, to) {
            Some(c) => {
                proof {
                    lemma_output_fits(c, value@);
                }
                value_line(value, &c, ft, tt)
            },
            None => unsupported_line(ft, tt),
        }
    }
}

/// The volume report: the identity pair short-circuits to the value
/// itself; every other pair shows the engine's exact result.
pub open spec fn spec_volume_line(v: Ratio, from: VolumeUnit, to: VolumeUnit) -> Seq<char> {
    if from == to {
        spec_value_line(v, v, volume_token(from), volume_token(to))
    } else {
        spec_value_line(
            v,
            ratio_convert(v, volume_factor(from), volume_factor(to)),
            volume_token(from),
            volume_token(to),
        )
    }
}

/// Report a volume conversion as the line the tool prints.
pub fn volume_line(value: &Rat, from: VolumeUnit, to: VolumeUnit) -> (s: String)
    requires
        value.wf(),
        displayable(value@),
    ensures
        s@ == spec_volume_line(value@, from, to),
{
    let ft = volume_unit_token(from);
    let tt = volume_unit_token(to);
    if from == to {
        value_line(value, value, ft, tt)
    } else {
        match convert_volume(value, from, to) {
            Some(c) => {
                proof {
                    lemma_output_fits(c, value@);
                }
                value_line(value, &c, ft, tt)
            },
            None => unsupported_line(ft, tt),
        }
    }
}

/// The speed report: the identity pair short-circuits to the value
/// itself; every other pair shows the engine's exact result.
pub open spec fn spec_speed_line(v: Ratio, from: SpeedUnit, to: SpeedUnit) -> Seq<char> {
    if from == to {
        spec_value_line(v, v, speed_token(from), speed_token(to))
    } else {
        spec_value_line(
            v,
            ratio_convert(v, speed_factor(from), speed_factor(to)),
            speed_token(from),
            speed_token(to),
        )
    }
}

/// Report a speed conversion as the line the tool prints.
pub fn speed_line(value: &Rat, from: SpeedUnit, to: SpeedUnit) -> (s: String)
    requires
        value.wf(),
        displayable(value@),
    ensures
        s@ == spec_speed_line(value@, from, to),
{
    let ft = speed_unit_token(from);
    let tt = speed_unit_token(to);
    if from == to {
        value_line(value, value, ft, tt)
    } else {
        match convert_speed(value, from, to) {
            Some(c) => {
                proof {
                    lemma_output_fits(c, value@);
                }
                value_line(value, &c, ft, tt)
            },
            None => unsupported_line(ft, tt),
        }
    }
}

/// The pressure report: the identity pair short-circuits to the value
/// itself; every other pair shows the engine's exact result.
pub open spec fn spec_pressure_line(v: Ratio, from: PressureUnit, to: PressureUnit) -> Seq<char> {
    if from == to {
        spec_value_line(v, v, pressure_token(from), pressure_token(to))
    } else {
        spec_value_line(
            v,
            ratio_convert(v, pressure_factor(from), pressure_factor(to)),
            pressure_token(from),
            pressure_token(to),
        )
    }
}

/// Report a pressure conversion as the line the tool prints.
pub fn pressure_line(value: &Rat, from: PressureUnit, to: PressureUnit) -> (s: String)
    requires
        value.wf(),
        displayable(value@),
    ensures
        s@ == spec_pressure_line(value@, from, to),
{
    let ft = pressure_unit_token(from);
    let tt = pressure_unit_token(to);
    if from == to {
        value_line(value, value, ft, tt)
    } else {
        match convert_pressure(value, from, to) {
            Some(c) => {
                proof {
                    lemma_output_fits(c, value@);
                }
                value_line(value, &c, ft, tt)
            },
            None => unsupported_line(ft, tt),
        }
    }
}

/// The electric current report: the identity pair short-circuits to the value
/// itself; every other pair shows the engine's exact result.
pub open spec fn spec_current_line(v: Ratio, from: CurrentUnit, to: CurrentUnit) -> Seq<char> {
    if from == to {
        spec_value_line(v, v, current_token(from), current_token(to))
    } else {
        spec_value_line(
            v,
            ratio_convert(v, current_factor(from), current_factor(to)),
            current_token(from),
            current_token(to),
        )
    }
}

/// Report a electric current conversion as the line the tool prints.
pub fn current_line(value: &Rat, from: CurrentUnit, to: CurrentUnit) -> (s: String)
    requires
        value.wf(),
        displayable(value@),
    ensures
        s@ == spec_current_line(value@, from, to),
{
    let ft = current_unit_token(from);
    let tt = current_unit_token(to);
    if from == to {
        value_line(value, value, ft, tt)
    } else {
        match convert_current(value, from, to) {
            Some(c) => {
                proof {
                    lemma_output_fits(c, value@);
                }
                value_line(value, &c, ft, tt)
            },
            None => unsupported_line(ft, tt),
        }
    }
}

/// The energy report: the identity pair short-circuits to the value
/// itself; every other pair shows the engine's exact result.
pub open spec fn spec_energy_line(v: Ratio, from: EnergyUnit, to: EnergyUnit) -> Seq<char> {
    if from == to {
        spec_value_line(v, v, energy_token(from), energy_token(to))
    } else {
        spec_value_line(
            v,
            ratio_convert(v, energy_factor(from), energy_factor(to)),
            energy_token(from),
            energy_token(to),
        )
    }
}

/// Report a energy conversion as the line the tool prints.
pub fn energy_line(value: &Rat, from: EnergyUnit, to: EnergyUnit) -> (s: String)
    requires
        value.wf(),
        displayable(value@),
    ensures
        s@ == spec_energy_line(value@, from, to),
{
    let ft = energy_unit_token(from);
    let tt = energy_unit_token(to);
    if from == to {
        value_line(value, value, ft, tt)
    } else {
        match convert_energy(value, from, to) {
            Some(c) => {
                proof {
                    lemma_output_fits(c, value@);
                }
                value_line(value, &c, ft, tt)
            },
            None => unsupported_line(ft, tt),
        }
    }
}

/// The power report: the identity pair short-circuits to the value
/// itself; every other pair shows the engine's exact result.
pub open spec fn spec_power_line(v: Ratio, from: PowerUnit, to: PowerUnit) -> Seq<char> {
    if from == to {
        spec_value_line(v, v, power_token(from), power_token(to))
    } else {
        spec_value_line(
            v,
            ratio_convert(v, power_factor(from), power_factor(to)),
            power_token(from),
            power_token(to),
        )
    }
}

/// Report a power conversion as the line the tool prints.
pub fn power_line(value: &Rat, from: PowerUnit, to: PowerUnit) -> (s: String)
    requires
        value.wf(),
        displayable(value@),
    ensures
        s@ == spec_power_line(value@, from, to),
{
    let ft = power_unit_token(from);
    let tt = power_unit_token(to);
    if from == to {
        value_line(value, value, ft, tt)
    } else {
        match convert_power(value, from, to) {
            Some(c) => {
                proof {
                    lemma_output_fits(c, value@);
                }
                value_line(value, &c, ft, tt)
            },
            None => unsupported_line(ft, tt),
        }
    }
}

/// The frequency report: the identity pair short-circuits to the value
/// itself; every other pair shows the engine's exact result.
pub open spec fn spec_frequency_line(v: Ratio, from: FrequencyUnit, to: FrequencyUnit) -> Seq<char> {
    if from == to {
        spec_value_line(v, v, frequency_token(from), frequency_token(to))
    } else {
        spec_value_line(
            v,
            ratio_convert(v, frequency_factor(from), frequency_factor(to)),
            frequency_token(from),
            frequency_token(to),
        )
    }
}

/// Report a frequency conversion as the line the tool prints.
pub fn frequency_line(value: &Rat, from: FrequencyUnit, to: FrequencyUnit) -> (s: String)
    requires
        value.wf(),
        displayable(value@),
    ensures
        s@ == spec_frequency_line(value@, from, to),
{
    let ft = frequency_unit_token(from);
    let tt = frequency_unit_token(to);
    if from == to {
        value_line(value, value, ft, tt)
    } else {
        match convert_frequency(value, from, to) {
            Some(c) => {
                proof {
                    lemma_output_fits(c, value@);
                }
                value_line(value, &c, ft, tt)
            },
            None => unsupported_line(ft, tt),
        }
    }
}

/// The angle report: the identity pair short-circuits to the value
/// itself; every other pair shows the engine's exact result.
pub open spec fn spec_angle_line(v: Ratio, from: AngleUnit, to: AngleUnit) -> Seq<char> {
    if from == to {
        spec_value_line(v, v, angle_token(from), angle_token(to))
    } else {
        spec_value_line(
            v,
            ratio_convert(v, angle_factor(from), angle_factor(to)),
            angle_token(from),
            angle_token(to),
        )
    }
}

/// Report a angle conversion as the line the tool prints.
pub fn angle_line(value: &Rat, from: AngleUnit, to: AngleUnit) -> (s: String)
    requires
        value.wf(),
        displayable(value@),
    ensures
        s@ == spec_angle_line(value@, from, to),
{
    let ft = angle_unit_token(from);
    let tt = angle_unit_token(to);
    if from == to {
        value_line(value, value, ft, tt)
    } else {
        match convert_angle(value, from, to) {
            Some(c) => {
                proof {
                    lemma_output_fits(c, value@);
                }
                value_line(value, &c, ft, tt)
            },
            None => unsupported_line(ft, tt),
        }
    }
}

/// The force report: the identity pair short-circuits to the value
/// itself; every other pair shows the engine's exact result.
pub open spec fn spec_force_line(v: Ratio, from: ForceUnit, to: ForceUnit) -> Seq<char> {
    if from == to {
        spec_value_line(v, v, force_token(from), force_token(to))
    } else {
        spec_value_line(
            v,
            ratio_convert(v, force_factor(from), force_factor(to)),
            force_token(from),
            force_token(to),
        )
    }
}

/// Report a force conversion as the line the tool prints.
pub fn force_line(value: &Rat, from: ForceUnit, to: ForceUnit) -> (s: String)
    requires
        value.wf(),
        displayable(value@),
    ensures
        s@ == spec_force_line(value@, from, to),
{
    let ft = force_unit_token(from);
    let tt = force_unit_token(to);
    if from == to {
        value_line(value, value, ft, tt)
    } else {
        match convert_force(value, from, to) {
            Some(c) => {
                proof {
                    lemma_output_fits(c, value@);
                }
                value_line(value, &c, ft, tt)
            },
            None => unsupported_line(ft, tt),
        }
    }
}

/// The magnetic field report: the identity pair short-circuits to the value
/// itself; every other pair shows the engine's exact result.
pub open spec fn spec_magnetic_line(v: Ratio, from: MagneticUnit, to: MagneticUnit) -> Seq<char> {
    if from == to {
        spec_value_line(v, v, magnetic_token(from), magnetic_token(to))
    } else {
        spec_value_line(
            v,
            ratio_convert(v, magnetic_factor(from), magnetic_factor(to)),
            magnetic_token(from),
            magnetic_token(to),
        )
    }
}

/// Report a magnetic field conversion as the line the tool prints.
pub fn magnetic_line(value: &Rat, from: MagneticUnit, to: MagneticUnit) -> (s: String)
    requires
        value.wf(),
        displayable(value@),
    ensures
        s@ == spec_magnetic_line(value@, from, to),
{
    let ft = magnetic_unit_token(from);
    let tt = magnetic_unit_token(to);
    if from == to {
        value_line(value, value, ft, tt)
    } else {
        match convert_magnetic(value, from, to) {
            Some(c) => {
                proof {
                    lemma_output_fits(c, value@);
                }
                value_line(value, &c, ft, tt)
            },
            None => unsupported_line(ft, tt),
        }
    }
}

/// The radioactivity report: the identity pair short-circuits to the value
/// itself; every other pair shows the engine's exact result.
pub open spec fn spec_radioactivity_line(v: Ratio, from: RadioactivityUnit, to: RadioactivityUnit) -> Seq<char> {
    if from == to {
        spec_value_line(v, v, radioactivity_token(from), radioactivity_token(to))
    } else {
        spec_value_line(
            v,
            ratio_convert(v, radioactivity_factor(from), radioactivity_factor(to)),
            radioactivity_token(from),
            radioactivity_token(to),
        )
    }
}

/// Report a radioactivity conversion as the line the tool prints.
pub fn radioactivity_line(value: &Rat, from: RadioactivityUnit, to: RadioactivityUnit) -> (s: String)
    requires
        value.wf(),
        displayable(value@),
    ensures
        s@ == spec_radioactivity_line(value@, from, to),
{
    let ft = radioactivity_unit_token(from);
    let tt = radioactivity_unit_token(to);
    if from == to {
        value_line(value, value, ft, tt)
    } else {
        match convert_radioactivity(value, from, to) {
            Some(c) => {
                proof {
                    lemma_output_fits(c, value@);
                }
                value_line(value, &c, ft, tt)
            },
            None => unsupported_line(ft, tt),
        }
    }
}

/// The illuminance report: the identity pair short-circuits to the value
/// itself; every other pair shows the engine's exact result.
pub open spec fn spec_illuminance_line(v: Ratio, from: IlluminanceUnit, to: IlluminanceUnit) -> Seq<char> {
    if from == to {
        spec_value_line(v, v, illuminance_token(from), illuminance_token(to))
    } else {
        spec_value_line(
            v,
            ratio_convert(v, illuminance_factor(from), illuminance_factor(to)),
            illuminance_token(from),
            illuminance_token(to),
        )
    }
}

/// Report a illuminance conversion as the line the tool prints.
pub fn illuminance_line(value: &Rat, from: IlluminanceUnit, to: IlluminanceUnit) -> (s: String)
    requires
        value.wf(),
        displayable(value@),
    ensures
        s@ == spec_illuminance_line(value@, from, to),
{
    let ft = illuminance_unit_token(from);
    let tt = illuminance_unit_token(to);
    if from == to {
        value_line(value, value, ft, tt)
    } else {
        match convert_illuminance(value, from, to) {
            Some(c) => {
                proof {
                    lemma_output_fits(c, value@);
                }
                value_line(value, &c, ft, tt)
            },
            None => unsupported_line(ft, tt),
        }
    }
}

/// The capacitance report: with a single unit every pair is the
/// identity, so the line always shows the value unchanged.
pub open spec fn spec_capacitance_line(v: Ratio, from: CapacitanceUnit, to: CapacitanceUnit) -> Seq<char> {
    spec_value_line(v, v, capacitance_token(from), capacitance_token(to))
}

/// Report a capacitance conversion as the line the tool prints.
pub fn capacitance_line(value: &Rat, from: CapacitanceUnit, to: CapacitanceUnit) -> (s: String)
    requires
        value.wf(),
        displayable(value@),
    ensures
        s@ == spec_capacitance_line(value@, from, to),
{
    let ft = capacitance_unit_token(from);
    let tt = capacitance_unit_token(to);
    if from == to {
        value_line(value, value, ft, tt)
    } else {
        match convert_capacitance(value, from, to) {
            Some(c) => value_line(value, &c, ft, tt),
            None => unsupported_line(ft, tt),
        }
    }
}

/// The inductance report: with a single unit every pair is the
/// identity, so the line always shows the value unchanged.
pub open spec fn spec_inductance_line(v: Ratio, from: InductanceUnit, to: InductanceUnit) -> Seq<char> {
    spec_value_line(v, v, inductance_token(from), inductance_token(to))
}

/// Report a inductance conversion as the line the tool prints.
pub fn inductance_line(value: &Rat, from: InductanceUnit, to: InductanceUnit) -> (s: String)
    requires
        value.wf(),
        displayable(value@),
    ensures
        s@ == spec_inductance_line(value@, from, to),
{
    let ft = inductance_unit_token(from);
    let tt = inductance_unit_token(to);
    if from == to {
        value_line(value, value, ft, tt)
    } else {
        match convert_inductance(value, from, to) {
            Some(c) => value_line(value, &c, ft, tt),
            None => unsupported_line(ft, tt),
        }
    }
}

/// The conductance report: with a single unit every pair is the
/// identity, so the line always shows the value unchanged.
pub open spec fn spec_conductance_line(v: Ratio, from: ConductanceUnit, to: ConductanceUnit) -> Seq<char> {
    spec_value_line(v, v, conductance_token(from), conductance_token(to))
}

/// Report a conductance conversion as the line the tool prints.
pub fn conductance_line(value: &Rat, from: ConductanceUnit, to: ConductanceUnit) -> (s: String)
    requires
        value.wf(),
        displayable(value@),
    ensures
        s@ == spec_conductance_line(value@, from, to),
{
    let ft = conductance_unit_token(from);
    let tt = conductance_unit_token(to);
    if from == to {
        value_line(value, value, ft, tt)
    } else {
        match convert_conductance(value, from, to) {
            Some(c) => value_line(value, &c, ft, tt),
            None => unsupported_line(ft, tt),
        }
    }
}

/// The electric charge report: with a single unit every pair is the
/// identity, so the line always shows the value unchanged.
pub open spec fn spec_charge_line(v: Ratio, from: ChargeUnit, to: ChargeUnit) -> Seq<char> {
    spec_value_line(v, v, charge_token(from), charge_token(to))
}

/// Report a electric charge conversion as the line the tool prints.
pub fn charge_line(value: &Rat, from: ChargeUnit, to: ChargeUnit) -> (s: String)
    requires
        value.wf(),
        displayable(value@),
    ensures
        s@ == spec_charge_line(value@, from, to),
{
    let ft = charge_unit_token(from);
    let tt = charge_unit_token(to);
    if from == to {
        value_line(value, value, ft, tt)
    } else {
        match convert_charge(value, from, to) {
            Some(c) => value_line(value, &c, ft, tt),
            None => unsupported_line(ft, tt),
        }
    }
}

/// The voltage report: with a single unit every pair is the
/// identity, so the line always shows the value unchanged.
pub open spec fn spec_voltage_line(v: Ratio, from: VoltageUnit, to: VoltageUnit) -> Seq<char> {
    spec_value_line(v, v, voltage_token(from), voltage_token(to))
}

/// Report a voltage conversion as the line the tool prints.
pub fn voltage_line(value: &Rat, from: VoltageUnit, to: VoltageUnit) -> (s: String)
    requires
        value.wf(),
        displayable(value@),
    ensures
        s@ == spec_voltage_line(value@, from, to),
{
    let ft = voltage_unit_token(from);
    let tt = voltage_unit_token(to);
    if from == to {
        value_line(value, value, ft, tt)
    } else {
        match convert_voltage(value, from, to) {
            Some(c) => value_line(value, &c, ft, tt),
            None => unsupported_line(ft, tt),
        }
    }
}

/// The resistance report: with a single unit every pair is the
/// identity, so the line always shows the value unchanged.
pub open spec fn spec_resistance_line(v: Ratio, from: ResistanceUnit, to: ResistanceUnit) -> Seq<char> {
    spec_value_line(v, v, resistance_token(from), resistance_token(to))
}

/// Report a resistance conversion as the line the tool prints.
pub fn resistance_line(value: &Rat, from: ResistanceUnit, to: ResistanceUnit) -> (s: String)
    requires
        value.wf(),
        displayable(value@),
    ensures
        s@ == spec_resistance_line(value@, from, to),
{
    let ft = resistance_unit_token(from);
    let tt = resistance_unit_token(to);
    if from == to {
        value_line(value, value, ft, tt)
    } else {
        match convert_resistance(value, from, to) {
            Some(c) => value_line(value, &c, ft, tt),
            None => unsupported_line(ft, tt),
        }
    }
}

/// The amount of substance report: with a single unit every pair is the
/// identity, so the line always shows the value unchanged.
pub open spec fn spec_amount_line(v: Ratio, from: AmountUnit, to: AmountUnit) -> Seq<char> {
    spec_value_line(v, v, amount_token(from), amount_token(to))
}

/// Report a amount of substance conversion as the line the tool prints.
pub fn amount_line(value: &Rat, from: AmountUnit, to: AmountUnit) -> (s: String)
    requires
        value.wf(),
        displayable(value@),
    ensures
        s@ == spec_amount_line(value@, from, to),
{
    let ft = amount_unit_token(from);
    let tt = amount_unit_token(to);
    if from == to {
        value_line(value, value, ft, tt)
    } else {
        match convert_amount(value, from, to) {
            Some(c) => value_line(value, &c, ft, tt),
            None => unsupported_line(ft, tt),
        }
    }
}

} // verus!
