use convertx::engine::{
    convert_amount, convert_angle, convert_area, convert_capacitance, convert_charge,
    convert_conductance, convert_current, convert_datarate, convert_energy, convert_force,
    convert_frequency, convert_illuminance, convert_inductance, convert_length, convert_luminous,
    convert_magnetic, convert_mass, convert_power, convert_pressure, convert_radioactivity,
    convert_resistance, convert_speed, convert_temp, convert_voltage, convert_volume,
};
use convertx::human::{bytes_to_human_readable, bytes_to_mb, seconds_to_human_readable};
use convertx::rational::Rat;
use std::f64::consts::PI;
use convertx::units::{
    AmountUnit, AngleUnit, AreaUnit, CapacitanceUnit, ChargeUnit, ConductanceUnit, CurrentUnit,
    DataRateUnit, EnergyUnit, ForceUnit, FrequencyUnit, IlluminanceUnit, InductanceUnit,
    LengthUnit, LuminousUnit, MagneticUnit, MassUnit, PowerUnit, PressureUnit, RadioactivityUnit,
    ResistanceUnit, SpeedUnit, TempUnit, VoltageUnit, VolumeUnit,
};

fn rat(num: i128, den: i128) -> Rat {
    Rat { num, den }
}

fn approx(r: Rat) -> f64 {
    r.num as f64 / r.den as f64
}

#[test]
fn test_bytes_to_mb() {
    assert_eq!(approx(bytes_to_mb(1048576)), 1.0);
    assert!((approx(bytes_to_mb(2097152)) - 2.0).abs() < 1e-8);
}

#[test]
fn test_bytes_to_human_readable() {
    assert_eq!(bytes_to_human_readable(1023), "1023.00 B");
    assert_eq!(bytes_to_human_readable(1024), "1.00 KB");
    assert_eq!(bytes_to_human_readable(1048576), "1.00 MB");
}

#[test]
fn test_seconds_to_human_readable() {
    assert_eq!(seconds_to_human_readable(59), "59s");
    assert_eq!(seconds_to_human_readable(61), "1m 1s");
    assert_eq!(seconds_to_human_readable(3661), "1h 1m 1s");
    assert_eq!(seconds_to_human_readable(90061), "1d 1h 1m 1s");
}

#[test]
fn test_convert_length() {
    assert!((approx(convert_length(&rat(1, 1), LengthUnit::Meters, LengthUnit::Feet).unwrap()) - 3.28084).abs() < 1e-5);
    assert!((approx(convert_length(&rat(328084, 100000), LengthUnit::Feet, LengthUnit::Meters).unwrap()) - 1.0).abs() < 1e-5);
    assert!((approx(convert_length(&rat(1, 1), LengthUnit::Kilometers, LengthUnit::Meters).unwrap()) - 1000.0).abs() < 1e-5);
    assert!((approx(convert_length(&rat(12, 1), LengthUnit::Inches, LengthUnit::Feet).unwrap()) - 1.0).abs() < 1e-5);
}

#[test]
fn test_convert_temp() {
    assert!((approx(convert_temp(&rat(0, 1), TempUnit::C, TempUnit::F).unwrap()) - 32.0).abs() < 1e-6);
    assert!((approx(convert_temp(&rat(32, 1), TempUnit::F, TempUnit::C).unwrap()) - 0.0).abs() < 1e-6);
    assert!((approx(convert_temp(&rat(100, 1), TempUnit::C, TempUnit::K).unwrap()) - 373.15).abs() < 1e-2);
    assert!((approx(convert_temp(&rat(0, 1), TempUnit::K, TempUnit::C).unwrap()) - -273.15).abs() < 1e-2);
}

#[test]
fn test_convert_mass() {
    assert!((approx(convert_mass(&rat(1, 1), MassUnit::Kg, MassUnit::Lb).unwrap()) - 2.20462).abs() < 1e-5);
    assert!((approx(convert_mass(&rat(220462, 100000), MassUnit::Lb, MassUnit::Kg).unwrap()) - 1.0).abs() < 1e-5);
    assert!((approx(convert_mass(&rat(1, 1), MassUnit::Kg, MassUnit::Oz).unwrap()) - 35.274).abs() < 1e-3);
    assert!((approx(convert_mass(&rat(35274, 1000), MassUnit::Oz, MassUnit::Kg).unwrap()) - 1.0).abs() < 1e-3);
}

#[test]
fn test_convert_datarate() {
    assert!((approx(convert_datarate(&rat(1000000, 1), DataRateUnit::Bps, DataRateUnit::Mbps).unwrap()) - 1.0).abs() < 1e-8);
    assert!((approx(convert_datarate(&rat(1, 1), DataRateUnit::Mbps, DataRateUnit::Bps).unwrap()) - 1000000.0).abs() < 1e-8);
}

#[test]
fn test_convert_area() {
    assert!((approx(convert_area(&rat(1, 1), AreaUnit::Acres, AreaUnit::SquareMeters).unwrap()) - 4046.85642).abs() < 1e-4);
    assert!((approx(convert_area(&rat(1, 1), AreaUnit::SquareMeters, AreaUnit::Acres).unwrap()) - 0.000247105).abs() < 1e-7);
    assert!((approx(convert_area(&rat(1, 1), AreaUnit::Hectares, AreaUnit::Acres).unwrap()) - 2.47105).abs() < 1e-5);
}

#[test]
fn test_convert_volume() {
    assert!((approx(convert_volume(&rat(1, 1), VolumeUnit::Gallons, VolumeUnit::Liters).unwrap()) - 3.78541).abs() < 1e-5);
    assert!((approx(convert_volume(&rat(1, 1), VolumeUnit::Liters, VolumeUnit::Gallons).unwrap()) - 0.264172).abs() < 1e-6);
    assert!((approx(convert_volume(&rat(1000, 1), VolumeUnit::Milliliters, VolumeUnit::Liters).unwrap()) - 1.0).abs() < 1e-6);
}

#[test]
fn test_convert_speed() {
    assert!((approx(convert_speed(&rat(1, 1), SpeedUnit::Mps, SpeedUnit::Kph).unwrap()) - 3.6).abs() < 1e-6);
    assert!((approx(convert_speed(&rat(36, 10), SpeedUnit::Kph, SpeedUnit::Mps).unwrap()) - 1.0).abs() < 1e-6);
    assert!((approx(convert_speed(&rat(1, 1), SpeedUnit::Knots, SpeedUnit::Mph).unwrap()) - 1.15078).abs() < 1e-5);
}

#[test]
fn test_convert_pressure() {
    assert!((approx(convert_pressure(&rat(1, 1), PressureUnit::Atm, PressureUnit::Pascal).unwrap()) - 101325.0).abs() < 1e-3);
    assert!((approx(convert_pressure(&rat(1, 1), PressureUnit::Psi, PressureUnit::Bar).unwrap()) - 0.0689476).abs() < 1e-6);
    assert!((approx(convert_pressure(&rat(1, 1), PressureUnit::Bar, PressureUnit::Psi).unwrap()) - 14.5038).abs() < 1e-4);
}

#[test]
fn test_convert_current() {
    assert_eq!(
        approx(convert_current(&rat(1, 1), CurrentUnit::Ampere, CurrentUnit::Milliampere).unwrap()),
        1000.0
    );
    assert_eq!(
        approx(convert_current(&rat(5000, 1), CurrentUnit::Milliampere, CurrentUnit::Ampere).unwrap()),
        5.0
    );
}

#[test]
fn test_convert_energy() {
    assert!(
        (approx(convert_energy(&rat(1, 1), EnergyUnit::Joule, EnergyUnit::Calorie).unwrap())
            - 0.2390057361).abs() < 1e-6
    );
    assert!(
        (approx(convert_energy(&rat(1, 1), EnergyUnit::Calorie, EnergyUnit::Joule).unwrap())
            - 4.184).abs() < 1e-6
    );
    assert!(
        (approx(convert_energy(&rat(1, 1), EnergyUnit::Kwh, EnergyUnit::Joule).unwrap())
            - 3_600_000.0).abs() < 1e-3
    );
}

#[test]
fn test_convert_power() {
    assert!(
        (approx(convert_power(&rat(1, 1), PowerUnit::Kilowatt, PowerUnit::Horsepower).unwrap())
            - 1.34102209).abs() < 1e-6
    );
    assert!(
        (approx(convert_power(&rat(10, 1), PowerUnit::Horsepower, PowerUnit::Watt).unwrap())
            - 7456.99872).abs() < 1e-3
    );
}

#[test]
fn test_convert_frequency() {
    assert_eq!(
        approx(convert_frequency(&rat(1000, 1), FrequencyUnit::Hertz, FrequencyUnit::Kilohertz).unwrap()),
        1.0
    );
    assert_eq!(
        approx(convert_frequency(&rat(25, 10), FrequencyUnit::Kilohertz, FrequencyUnit::Hertz).unwrap()),
        2500.0
    );
}

#[test]
fn test_convert_angle() {
    assert!(
        (approx(convert_angle(&rat(180, 1), AngleUnit::Degree, AngleUnit::Radian).unwrap()) - PI)
            .abs() < 1e-10
    );
    assert!(
        (approx(convert_angle(&rat(100, 1), AngleUnit::Gradian, AngleUnit::Degree).unwrap())
            - 90.0).abs() < 1e-10
    );
}

#[test]
fn test_convert_force() {
    assert!(
        (approx(convert_force(&rat(10, 1), ForceUnit::Newton, ForceUnit::PoundForce).unwrap())
            - 2.248089).abs() < 1e-5
    );
    assert!(
        (approx(convert_force(&rat(1, 1), ForceUnit::PoundForce, ForceUnit::Newton).unwrap())
            - 4.4482216153).abs() < 1e-9
    );
}

#[test]
fn test_convert_luminous() {
    assert_eq!(
        approx(convert_luminous(&rat(5, 1), LuminousUnit::Candela, LuminousUnit::Candela).unwrap()),
        5.0
    );
    assert_eq!(
        approx(convert_luminous(&rat(10, 1), LuminousUnit::Lux, LuminousUnit::Lux).unwrap()),
        10.0
    );
    assert_eq!(
        convert_luminous(&rat(1, 1), LuminousUnit::Candela, LuminousUnit::Lumen),
        None
    );
}

#[test]
fn test_convert_magnetic() {
    assert_eq!(
        approx(convert_magnetic(&rat(1, 1), MagneticUnit::Tesla, MagneticUnit::Gauss).unwrap()),
        10000.0
    );
    assert!(
        (approx(convert_magnetic(&rat(10000, 1), MagneticUnit::Gauss, MagneticUnit::Tesla).unwrap())
            - 1.0).abs() < 1e-10
    );
}

#[test]
fn test_convert_radioactivity() {
    assert!(
        (approx(
            convert_radioactivity(
                &rat(1, 1),
                RadioactivityUnit::Curie,
                RadioactivityUnit::Becquerel
            )
            .unwrap()
        ) - 3.7e10).abs() < 1e2
    );
    assert!(
        (approx(
            convert_radioactivity(
                &rat(37000000000, 1),
                RadioactivityUnit::Becquerel,
                RadioactivityUnit::Curie
            )
            .unwrap()
        ) - 1.0).abs() < 1e-10
    );
}

#[test]
fn test_convert_capacitance() {
    assert_eq!(
        approx(convert_capacitance(&rat(2, 1), CapacitanceUnit::Farad, CapacitanceUnit::Farad).unwrap()),
        2.0
    );
}

#[test]
fn test_convert_inductance() {
    assert_eq!(
        approx(convert_inductance(&rat(5, 1), InductanceUnit::Henry, InductanceUnit::Henry).unwrap()),
        5.0
    );
}

#[test]
fn test_convert_conductance() {
    assert_eq!(
        approx(
            convert_conductance(&rat(3, 1), ConductanceUnit::Siemens, ConductanceUnit::Siemens).unwrap()
        ),
        3.0
    );
}

#[test]
fn test_convert_charge() {
    assert_eq!(
        approx(convert_charge(&rat(8, 1), ChargeUnit::Coulomb, ChargeUnit::Coulomb).unwrap()),
        8.0
    );
}

#[test]
fn test_convert_voltage() {
    assert_eq!(
        approx(convert_voltage(&rat(12, 1), VoltageUnit::Volt, VoltageUnit::Volt).unwrap()),
        12.0
    );
}

#[test]
fn test_convert_resistance() {
    assert_eq!(
        approx(convert_resistance(&rat(20, 1), ResistanceUnit::Ohm, ResistanceUnit::Ohm).unwrap()),
        20.0
    );
}

#[test]
fn test_convert_illuminance() {
    assert!(
        (approx(
            convert_illuminance(&rat(1, 1), IlluminanceUnit::FootCandle, IlluminanceUnit::Lux).unwrap()
        ) - 10.76391).abs() < 1e-5
    );
    assert!(
        (approx(
            convert_illuminance(&rat(1076391, 100000), IlluminanceUnit::Lux, IlluminanceUnit::FootCandle)
                .unwrap()
        ) - 1.0).abs() < 1e-5
    );
}

#[test]
fn test_convert_amount() {
    assert_eq!(
        approx(convert_amount(&rat(2, 1), AmountUnit::Mole, AmountUnit::Mole).unwrap()),
        2.0
    );
}
