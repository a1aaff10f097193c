use convertx::rational::Rat;
use convertx::report::{
    area_line, bytes_line, data_rate_line, length_line, mass_line, pressure_line, speed_line,
    temp_line, time_line, volume_line,
};
use convertx::units::{
    AreaUnit, DataRateUnit, LengthUnit, MassUnit, PressureUnit, SpeedUnit, TempUnit, VolumeUnit,
};

fn whole(n: i128) -> Rat {
    Rat { num: n, den: 1 }
}

#[test]
fn bytes_megabytes() {
    let line = bytes_line(1048576, true, false);
    assert!(line.contains("1.00 MB"));
}

#[test]
fn time_human_readable() {
    let line = time_line(3661, true);
    assert!(line.contains("1h 1m 1s"));
}

#[test]
fn length_kilometers_to_meters() {
    let line = length_line(&whole(1), LengthUnit::Kilometers, LengthUnit::Meters);
    assert!(line.contains("1.0000 kilometers = 1000.0000 meters"));
}

#[test]
fn temperature_f_to_c() {
    let line = temp_line(&whole(32), TempUnit::F, TempUnit::C);
    assert!(line.contains("32.00°F = 0.00°C"));
}

#[test]
fn mass_kg_to_lb() {
    let line = mass_line(&whole(1), MassUnit::Kg, MassUnit::Lb);
    assert!(line.contains("1.0000 kg = 2.2046 lb"));
}

#[test]
fn datarate_mbps_to_bps() {
    let line = data_rate_line(&whole(1), DataRateUnit::Mbps, DataRateUnit::Bps);
    assert!(line.contains("1.0000 mbps = 1000000.0000 bps"));
}

#[test]
fn area_acres_to_sqm() {
    let line = area_line(&whole(1), AreaUnit::Acres, AreaUnit::SquareMeters);
    assert!(line.contains("1.0000 acres = 4046.8564 sqm"));
}

#[test]
fn volume_gallons_to_liters() {
    let line = volume_line(&whole(1), VolumeUnit::Gallons, VolumeUnit::Liters);
    assert!(line.contains("1.0000 gallons = 3.7854 liters"));
}

#[test]
fn speed_mph_to_kph() {
    let line = speed_line(&whole(60), SpeedUnit::Mph, SpeedUnit::Kph);
    assert!(line.contains("60.0000 mph = 96.5606 kph"));
}

#[test]
fn pressure_atm_to_psi() {
    let line = pressure_line(&whole(1), PressureUnit::Atm, PressureUnit::Psi);
    assert!(line.contains("1.0000 atm = 14.6959 psi"));
}
