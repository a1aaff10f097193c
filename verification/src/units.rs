use vstd::prelude::*;

verus! {

use vstd::string::StrSliceExecFns;

/// ASCII-lowercase a single character; anything but `'A'..='Z'` is kept.
pub open spec fn lower_char(c: char) -> char {
    if c == 'A' {
        'a'
    } else if c == 'B' {
        'b'
    } else if c == 'C' {
        'c'
    } else if c == 'D' {
        'd'
    } else if c == 'E' {
        'e'
    } else if c == 'F' {
        'f'
    } else if c == 'G' {
        'g'
    } else if c == 'H' {
        'h'
    } else if c == 'I' {
        'i'
    } else if c == 'J' {
        'j'
    } else if c == 'K' {
        'k'
    } else if c == 'L' {
        'l'
    } else if c == 'M' {
        'm'
    } else if c == 'N' {
        'n'
    } else if c == 'O' {
        'o'
    } else if c == 'P' {
        'p'
    } else if c == 'Q' {
        'q'
    } else if c == 'R' {
        'r'
    } else if c == 'S' {
        's'
    } else if c == 'T' {
        't'
    } else if c == 'U' {
        'u'
    } else if c == 'V' {
        'v'
    } else if c == 'W' {
        'w'
    } else if c == 'X' {
        'x'
    } else if c == 'Y' {
        'y'
    } else if c == 'Z' {
        'z'
    } else {
        c
    }
}

/// The ASCII-case-folded view of a string.
pub open spec fn spec_lower(s: Seq<char>) -> Seq<char> {
    s.map_values(|c: char| lower_char(c))
}

/// ASCII-lowercase one character.
fn lower_char_x(c: char) -> (r: char)
    ensures
        r == lower_char(c),
{
    if c == 'A' {
        'a'
    } else if c == 'B' {
        'b'
    } else if c == 'C' {
        'c'
    } else if c == 'D' {
        'd'
    } else if c == 'E' {
        'e'
    } else if c == 'F' {
        'f'
    } else if c == 'G' {
        'g'
    } else if c == 'H' {
        'h'
    } else if c == 'I' {
        'i'
    } else if c == 'J' {
        'j'
    } else if c == 'K' {
        'k'
    } else if c == 'L' {
        'l'
    } else if c == 'M' {
        'm'
    } else if c == 'N' {
        'n'
    } else if c == 'O' {
        'o'
    } else if c == 'P' {
        'p'
    } else if c == 'Q' {
        'q'
    } else if c == 'R' {
        'r'
    } else if c == 'S' {
        's'
    } else if c == 'T' {
        't'
    } else if c == 'U' {
        'u'
    } else if c == 'V' {
        'v'
    } else if c == 'W' {
        'w'
    } else if c == 'X' {
        'x'
    } else if c == 'Y' {
        'y'
    } else if c == 'Z' {
        'z'
    } else {
        c
    }
}

/// Does `s` match the (already lowercase) token `t`, ignoring ASCII case?
fn eq_token(s: &str, t: &str) -> (b: bool)
    ensures
        b == (spec_lower(s@) == t@),
{
    let n = s.unicode_len();
    if n != t.unicode_len() {
        proof {
            assert(spec_lower(s@).len() == s@.len());
        }
        return false;
    }
    let mut i: usize = 0;
    while i < n
        invariant
            n == s@.len(),
            n == t@.len(),
            i <= n,
            forall|j: int| 0 <= j < i ==> spec_lower(s@)[j] == t@[j],
        decreases n - i,
    {
        let c = s.get_char(i);
        let ct = t.get_char(i);
        if lower_char_x(c) != ct {
            proof {
                assert(spec_lower(s@)[i as int] != t@[i as int]);
            }
            return false;
        }
        i += 1;
    }
    proof {
        assert(spec_lower(s@) =~= t@);
    }
    true
}

/// Units of length; `Meters` is the canonical unit.
#[derive(Clone, Copy, Debug, PartialEq, Eq, Structural)]
pub enum LengthUnit {
    Meters,
    Feet,
    Inches,
    Kilometers,
}

/// The token that names a length unit.
pub open spec fn length_token(u: LengthUnit) -> Seq<char> {
    match u {
        LengthUnit::Meters => "meters"@,
        LengthUnit::Feet => "feet"@,
        LengthUnit::Inches => "inches"@,
        LengthUnit::Kilometers => "kilometers"@,
    }
}

/// Which length unit a token names, ignoring ASCII case.
pub open spec fn spec_parse_length(s: Seq<char>) -> Option<LengthUnit> {
    if spec_lower(s) == "meters"@ {
        Some(LengthUnit::Meters)
    } else if spec_lower(s) == "feet"@ {
        Some(LengthUnit::Feet)
    } else if spec_lower(s) == "inches"@ {
        Some(LengthUnit::Inches)
    } else if spec_lower(s) == "kilometers"@ {
        Some(LengthUnit::Kilometers)
    } else {
        None
    }
}

/// Parse a length unit token, ignoring ASCII case.
pub fn parse_length_unit(s: &str) -> (r: Option<LengthUnit>)
    ensures
        r == spec_parse_length(s@),
{
    if eq_token(s, "meters") {
        Some(LengthUnit::Meters)
    } else if eq_token(s, "feet") {
        Some(LengthUnit::Feet)
    } else if eq_token(s, "inches") {
        Some(LengthUnit::Inches)
    } else if eq_token(s, "kilometers") {
        Some(LengthUnit::Kilometers)
    } else {
        None
    }
}

/// The display token of a length unit.
pub fn length_unit_token(u: LengthUnit) -> (t: &'static str)
    ensures
        t@ == length_token(u),
{
    match u {
        LengthUnit::Meters => "meters",
        LengthUnit::Feet => "feet",
        LengthUnit::Inches => "inches",
        LengthUnit::Kilometers => "kilometers",
    }
}

/// All length unit tokens, in declaration order.
pub fn length_variants() -> (v: Vec<&'static str>)
    ensures
        v@.len() == 4,
        v@[0]@ == length_token(LengthUnit::Meters),
        v@[1]@ == length_token(LengthUnit::Feet),
        v@[2]@ == length_token(LengthUnit::Inches),
        v@[3]@ == length_token(LengthUnit::Kilometers),
{
    let mut v: Vec<&'static str> = Vec::new();
    v.push("meters");
    v.push("feet");
    v.push("inches");
    v.push("kilometers");
    v
}

/// Units of temperature; `C` (Celsius) is the canonical unit.
#[derive(Clone, Copy, Debug, PartialEq, Eq, Structural)]
pub enum TempUnit {
    C,
    F,
    K,
}

/// The token that names a temperature unit.
pub open spec fn temp_token(u: TempUnit) -> Seq<char> {
    match u {
        TempUnit::C => "c"@,
        TempUnit::F => "f"@,
        TempUnit::K => "k"@,
    }
}

/// Which temperature unit a token names, ignoring ASCII case.
pub open spec fn spec_parse_temp(s: Seq<char>) -> Option<TempUnit> {
    if spec_lower(s) == "c"@ {
        Some(TempUnit::C)
    } else if spec_lower(s) == "f"@ {
        Some(TempUnit::F)
    } else if spec_lower(s) == "k"@ {
        Some(TempUnit::K)
    } else {
        None
    }
}

/// Parse a temperature unit token, ignoring ASCII case.
pub fn parse_temp_unit(s: &str) -> (r: Option<TempUnit>)
    ensures
        r == spec_parse_temp(s@),
{
    if eq_token(s, "c") {
        Some(TempUnit::C)
    } else if eq_token(s, "f") {
        Some(TempUnit::F)
    } else if eq_token(s, "k") {
        Some(TempUnit::K)
    } else {
        None
    }
}

/// The display token of a temperature unit.
pub fn temp_unit_token(u: TempUnit) -> (t: &'static str)
    ensures
        t@ == temp_token(u),
{
    match u {
        TempUnit::C => "c",
        TempUnit::F => "f",
        TempUnit::K => "k",
    }
}

/// All temperature unit tokens, in declaration order.
pub fn temp_variants() -> (v: Vec<&'static str>)
    ensures
        v@.len() == 3,
        v@[0]@ == temp_token(TempUnit::C),
        v@[1]@ == temp_token(TempUnit::F),
        v@[2]@ == temp_token(TempUnit::K),
{
    let mut v: Vec<&'static str> = Vec::new();
    v.push("c");
    v.push("f");
    v.push("k");
    v
}

/// Units of mass; `Kg` is the canonical unit.
#[derive(Clone, Copy, Debug, PartialEq, Eq, Structural)]
pub enum MassUnit {
    Kg,
    Lb,
    Oz,
}

/// The token that names a mass unit.
pub open spec fn mass_token(u: MassUnit) -> Seq<char> {
    match u {
        MassUnit::Kg => "kg"@,
        MassUnit::Lb => "lb"@,
        MassUnit::Oz => "oz"@,
    }
}

/// Which mass unit a token names, ignoring ASCII case.
pub open spec fn spec_parse_mass(s: Seq<char>) -> Option<MassUnit> {
    if spec_lower(s) == "kg"@ {
        Some(MassUnit::Kg)
    } else if spec_lower(s) == "lb"@ {
        Some(MassUnit::Lb)
    } else if spec_lower(s) == "oz"@ {
        Some(MassUnit::Oz)
    } else {
        None
    }
}

/// Parse a mass unit token, ignoring ASCII case.
pub fn parse_mass_unit(s: &str) -> (r: Option<MassUnit>)
    ensures
        r == spec_parse_mass(s@),
{
    if eq_token(s, "kg") {
        Some(MassUnit::Kg)
    } else if eq_token(s, "lb") {
        Some(MassUnit::Lb)
    } else if eq_token(s, "oz") {
        Some(MassUnit::Oz)
    } else {
        None
    }
}

/// The display token of a mass unit.
pub fn mass_unit_token(u: MassUnit) -> (t: &'static str)
    ensures
        t@ == mass_token(u),
{
    match u {
        MassUnit::Kg => "kg",
        MassUnit::Lb => "lb",
        MassUnit::Oz => "oz",
    }
}

/// All mass unit tokens, in declaration order.
pub fn mass_variants() -> (v: Vec<&'static str>)
    ensures
        v@.len() == 3,
        v@[0]@ == mass_token(MassUnit::Kg),
        v@[1]@ == mass_token(MassUnit::Lb),
        v@[2]@ == mass_token(MassUnit::Oz),
{
    let mut v: Vec<&'static str> = Vec::new();
    v.push("kg");
    v.push("lb");
    v.push("oz");
    v
}

/// Units of data rate; `Bps` is the canonical unit.
#[derive(Clone, Copy, Debug, PartialEq, Eq, Structural)]
pub enum DataRateUnit {
    Bps,
    Mbps,
}

/// The token that names a data rate unit.
pub open spec fn data_rate_token(u: DataRateUnit) -> Seq<char> {
    match u {
        DataRateUnit::Bps => "bps"@,
        DataRateUnit::Mbps => "mbps"@,
    }
}

/// Which data rate unit a token names, ignoring ASCII case.
pub open spec fn spec_parse_data_rate(s: Seq<char>) -> Option<DataRateUnit> {
    if spec_lower(s) == "bps"@ {
        Some(DataRateUnit::Bps)
    } else if spec_lower(s) == "mbps"@ {
        Some(DataRateUnit::Mbps)
    } else {
        None
    }
}

/// Parse a data rate unit token, ignoring ASCII case.
pub fn parse_data_rate_unit(s: &str) -> (r: Option<DataRateUnit>)
    ensures
        r == spec_parse_data_rate(s@),
{
    if eq_token(s, "bps") {
        Some(DataRateUnit::Bps)
    } else if eq_token(s, "mbps") {
        Some(DataRateUnit::Mbps)
    } else {
        None
    }
}

/// The display token of a data rate unit.
pub fn data_rate_unit_token(u: DataRateUnit) -> (t: &'static str)
    ensures
        t@ == data_rate_token(u),
{
    match u {
        DataRateUnit::Bps => "bps",
        DataRateUnit::Mbps => "mbps",
    }
}

/// All data rate unit tokens, in declaration order.
pub fn data_rate_variants() -> (v: Vec<&'static str>)
    ensures
        v@.len() == 2,
        v@[0]@ == data_rate_token(DataRateUnit::Bps),
        v@[1]@ == data_rate_token(DataRateUnit::Mbps),
{
    let mut v: Vec<&'static str> = Vec::new();
    v.push("bps");
    v.push("mbps");
    v
}

/// Units of area; `SquareMeters` is the canonical unit.
#[derive(Clone, Copy, Debug, PartialEq, Eq, Structural)]
pub enum AreaUnit {
    SquareMeters,
    SquareFeet,
    Acres,
    Hectares,
}

/// The token that names a area unit.
pub open spec fn area_token(u: AreaUnit) -> Seq<char> {
    match u {
        AreaUnit::SquareMeters => "sqm"@,
        AreaUnit::SquareFeet => "sqft"@,
        AreaUnit::Acres => "acres"@,
        AreaUnit::Hectares => "hectares"@,
    }
}

/// Which area unit a token names, ignoring ASCII case.
pub open spec fn spec_parse_area(s: Seq<char>) -> Option<AreaUnit> {
    if spec_lower(s) == "sqm"@ {
        Some(AreaUnit::SquareMeters)
    } else if spec_lower(s) == "sqft"@ {
        Some(AreaUnit::SquareFeet)
    } else if spec_lower(s) == "acres"@ {
        Some(AreaUnit::Acres)
    } else if spec_lower(s) == "hectares"@ {
        Some(AreaUnit::Hectares)
    } else {
        None
    }
}

/// Parse a area unit token, ignoring ASCII case.
pub fn parse_area_unit(s: &str) -> (r: Option<AreaUnit>)
    ensures
        r == spec_parse_area(s@),
{
    if eq_token(s, "sqm") {
        Some(AreaUnit::SquareMeters)
    } else if eq_token(s, "sqft") {
        Some(AreaUnit::SquareFeet)
    } else if eq_token(s, "acres") {
        Some(AreaUnit::Acres)
    } else if eq_token(s, "hectares") {
        Some(AreaUnit::Hectares)
    } else {
        None
    }
}

/// The display token of a area unit.
pub fn area_unit_token(u: AreaUnit) -> (t: &'static str)
    ensures
        t@ == area_token(u),
{
    match u {
        AreaUnit::SquareMeters => "sqm",
        AreaUnit::SquareFeet => "sqft",
        AreaUnit::Acres => "acres",
        AreaUnit::Hectares => "hectares",
    }
}

/// All area unit tokens, in declaration order.
pub fn area_variants() -> (v: Vec<&'static str>)
    ensures
        v@.len() == 4,
        v@[0]@ == area_token(AreaUnit::SquareMeters),
        v@[1]@ == area_token(AreaUnit::SquareFeet),
        v@[2]@ == area_token(AreaUnit::Acres),
        v@[3]@ == area_token(AreaUnit::Hectares),
{
    let mut v: Vec<&'static str> = Vec::new();
    v.push("sqm");
    v.push("sqft");
    v.push("acres");
    v.push("hectares");
    v
}

/// Units of volume; `Liters` is the canonical unit.
#[derive(Clone, Copy, Debug, PartialEq, Eq, Structural)]
pub enum VolumeUnit {
    Liters,
    Milliliters,
    CubicMeters,
    CubicInches,
    Gallons,
}

/// The token that names a volume unit.
pub open spec fn volume_token(u: VolumeUnit) -> Seq<char> {
    match u {
        VolumeUnit::Liters => "liters"@,
        VolumeUnit::Milliliters => "milliliters"@,
        VolumeUnit::CubicMeters => "cubic_meters"@,
        VolumeUnit::CubicInches => "cubic_inches"@,
        VolumeUnit::Gallons => "gallons"@,
    }
}

/// Which volume unit a token names, ignoring ASCII case.
pub open spec fn spec_parse_volume(s: Seq<char>) -> Option<VolumeUnit> {
    if spec_lower(s) == "liters"@ {
        Some(VolumeUnit::Liters)
    } else if spec_lower(s) == "milliliters"@ {
        Some(VolumeUnit::Milliliters)
    } else if spec_lower(s) == "cubic_meters"@ {
        Some(VolumeUnit::CubicMeters)
    } else if spec_lower(s) == "cubic_inches"@ {
        Some(VolumeUnit::CubicInches)
    } else if spec_lower(s) == "gallons"@ {
        Some(VolumeUnit::Gallons)
    } else {
        None
    }
}

/// Parse a volume unit token, ignoring ASCII case.
pub fn parse_volume_unit(s: &str) -> (r: Option<VolumeUnit>)
    ensures
        r == spec_parse_volume(s@),
{
    if eq_token(s, "liters") {
        Some(VolumeUnit::Liters)
    } else if eq_token(s, "milliliters") {
        Some(VolumeUnit::Milliliters)
    } else if eq_token(s, "cubic_meters") {
        Some(VolumeUnit::CubicMeters)
    } else if eq_token(s, "cubic_inches") {
        Some(VolumeUnit::CubicInches)
    } else if eq_token(s, "gallons") {
        Some(VolumeUnit::Gallons)
    } else {
        None
    }
}

/// The display token of a volume unit.
pub fn volume_unit_token(u: VolumeUnit) -> (t: &'static str)
    ensures
        t@ == volume_token(u),
{
    match u {
        VolumeUnit::Liters => "liters",
        VolumeUnit::Milliliters => "milliliters",
        VolumeUnit::CubicMeters => "cubic_meters",
        VolumeUnit::CubicInches => "cubic_inches",
        VolumeUnit::Gallons => "gallons",
    }
}

/// All volume unit tokens, in declaration order.
pub fn volume_variants() -> (v: Vec<&'static str>)
    ensures
        v@.len() == 5,
        v@[0]@ == volume_token(VolumeUnit::Liters),
        v@[1]@ == volume_token(VolumeUnit::Milliliters),
        v@[2]@ == volume_token(VolumeUnit::CubicMeters),
        v@[3]@ == volume_token(VolumeUnit::CubicInches),
        v@[4]@ == volume_token(VolumeUnit::Gallons),
{
    let mut v: Vec<&'static str> = Vec::new();
    v.push("liters");
    v.push("milliliters");
    v.push("cubic_meters");
    v.push("cubic_inches");
    v.push("gallons");
    v
}

/// Units of speed; `Mps` is the canonical unit.
#[derive(Clone, Copy, Debug, PartialEq, Eq, Structural)]
pub enum SpeedUnit {
    Mps,
    Kph,
    Mph,
    Knots,
}

/// The token that names a speed unit.
pub open spec fn speed_token(u: SpeedUnit) -> Seq<char> {
    match u {
        SpeedUnit::Mps => "mps"@,
        SpeedUnit::Kph => "kph"@,
        SpeedUnit::Mph => "mph"@,
        SpeedUnit::Knots => "knots"@,
    }
}

/// Which speed unit a token names, ignoring ASCII case.
pub open spec fn spec_parse_speed(s: Seq<char>) -> Option<SpeedUnit> {
    if spec_lower(s) == "mps"@ {
        Some(SpeedUnit::Mps)
    } else if spec_lower(s) == "kph"@ {
        Some(SpeedUnit::Kph)
    } else if spec_lower(s) == "mph"@ {
        Some(SpeedUnit::Mph)
    } else if spec_lower(s) == "knots"@ {
        Some(SpeedUnit::Knots)
    } else {
        None
    }
}

/// Parse a speed unit token, ignoring ASCII case.
pub fn parse_speed_unit(s: &str) -> (r: Option<SpeedUnit>)
    ensures
        r == spec_parse_speed(s@),
{
    if eq_token(s, "mps") {
        Some(SpeedUnit::Mps)
    } else if eq_token(s, "kph") {
        Some(SpeedUnit::Kph)
    } else if eq_token(s, "mph") {
        Some(SpeedUnit::Mph)
    } else if eq_token(s, "knots") {
        Some(SpeedUnit::Knots)
    } else {
        None
    }
}

/// The display token of a speed unit.
pub fn speed_unit_token(u: SpeedUnit) -> (t: &'static str)
    ensures
        t@ == speed_token(u),
{
    match u {
        SpeedUnit::Mps => "mps",
        SpeedUnit::Kph => "kph",
        SpeedUnit::Mph => "mph",
        SpeedUnit::Knots => "knots",
    }
}

/// All speed unit tokens, in declaration order.
pub fn speed_variants() -> (v: Vec<&'static str>)
    ensures
        v@.len() == 4,
        v@[0]@ == speed_token(SpeedUnit::Mps),
        v@[1]@ == speed_token(SpeedUnit::Kph),
        v@[2]@ == speed_token(SpeedUnit::Mph),
        v@[3]@ == speed_token(SpeedUnit::Knots),
{
    let mut v: Vec<&'static str> = Vec::new();
    v.push("mps");
    v.push("kph");
    v.push("mph");
    v.push("knots");
    v
}

/// Units of pressure; `Pascal` is the canonical unit.
#[derive(Clone, Copy, Debug, PartialEq, Eq, Structural)]
pub enum PressureUnit {
    Pascal,
    Bar,
    Atm,
    Psi,
}

/// The token that names a pressure unit.
pub open spec fn pressure_token(u: PressureUnit) -> Seq<char> {
    match u {
        PressureUnit::Pascal => "pa"@,
        PressureUnit::Bar => "bar"@,
        PressureUnit::Atm => "atm"@,
        PressureUnit::Psi => "psi"@,
    }
}

/// Which pressure unit a token names, ignoring ASCII case.
pub open spec fn spec_parse_pressure(s: Seq<char>) -> Option<PressureUnit> {
    if spec_lower(s) == "pa"@ {
        Some(PressureUnit::Pascal)
    } else if spec_lower(s) == "bar"@ {
        Some(PressureUnit::Bar)
    } else if spec_lower(s) == "atm"@ {
        Some(PressureUnit::Atm)
    } else if spec_lower(s) == "psi"@ {
        Some(PressureUnit::Psi)
    } else {
        None
    }
}

/// Parse a pressure unit token, ignoring ASCII case.
pub fn parse_pressure_unit(s: &str) -> (r: Option<PressureUnit>)
    ensures
        r == spec_parse_pressure(s@),
{
    if eq_token(s, "pa") {
        Some(PressureUnit::Pascal)
    } else if eq_token(s, "bar") {
        Some(PressureUnit::Bar)
    } else if eq_token(s, "atm") {
        Some(PressureUnit::Atm)
    } else if eq_token(s, "psi") {
        Some(PressureUnit::Psi)
    } else {
        None
    }
}

/// The display token of a pressure unit.
pub fn pressure_unit_token(u: PressureUnit) -> (t: &'static str)
    ensures
        t@ == pressure_token(u),
{
    match u {
        PressureUnit::Pascal => "pa",
        PressureUnit::Bar => "bar",
        PressureUnit::Atm => "atm",
        PressureUnit::Psi => "psi",
    }
}

/// All pressure unit tokens, in declaration order.
pub fn pressure_variants() -> (v: Vec<&'static str>)
    ensures
        v@.len() == 4,
        v@[0]@ == pressure_token(PressureUnit::Pascal),
        v@[1]@ == pressure_token(PressureUnit::Bar),
        v@[2]@ == pressure_token(PressureUnit::Atm),
        v@[3]@ == pressure_token(PressureUnit::Psi),
{
    let mut v: Vec<&'static str> = Vec::new();
    v.push("pa");
    v.push("bar");
    v.push("atm");
    v.push("psi");
    v
}

/// Units of electric current; `Ampere` is the canonical unit.
#[derive(Clone, Copy, Debug, PartialEq, Eq, Structural)]
pub enum CurrentUnit {
    Ampere,
    Milliampere,
}

/// The token that names a electric current unit.
pub open spec fn current_token(u: CurrentUnit) -> Seq<char> {
    match u {
        CurrentUnit::Ampere => "ampere"@,
        CurrentUnit::Milliampere => "milliampere"@,
    }
}

/// Which electric current unit a token names, ignoring ASCII case.
pub open spec fn spec_parse_current(s: Seq<char>) -> Option<CurrentUnit> {
    if spec_lower(s) == "ampere"@ {
        Some(CurrentUnit::Ampere)
    } else if spec_lower(s) == "milliampere"@ {
        Some(CurrentUnit::Milliampere)
    } else {
        None
    }
}

/// Parse a electric current unit token, ignoring ASCII case.
pub fn parse_current_unit(s: &str) -> (r: Option<CurrentUnit>)
    ensures
        r == spec_parse_current(s@),
{
    if eq_token(s, "ampere") {
        Some(CurrentUnit::Ampere)
    } else if eq_token(s, "milliampere") {
        Some(CurrentUnit::Milliampere)
    } else {
        None
    }
}

/// The display token of a electric current unit.
pub fn current_unit_token(u: CurrentUnit) -> (t: &'static str)
    ensures
        t@ == current_token(u),
{
    match u {
        CurrentUnit::Ampere => "ampere",
        CurrentUnit::Milliampere => "milliampere",
    }
}

/// All electric current unit tokens, in declaration order.
pub fn current_variants() -> (v: Vec<&'static str>)
    ensures
        v@.len() == 2,
        v@[0]@ == current_token(CurrentUnit::Ampere),
        v@[1]@ == current_token(CurrentUnit::Milliampere),
{
    let mut v: Vec<&'static str> = Vec::new();
    v.push("ampere");
    v.push("milliampere");
    v
}

/// Units of energy; `Joule` is the canonical unit.
#[derive(Clone, Copy, Debug, PartialEq, Eq, Structural)]
pub enum EnergyUnit {
    Joule,
    Calorie,
    Kwh,
}

/// The token that names a energy unit.
pub open spec fn energy_token(u: EnergyUnit) -> Seq<char> {
    match u {
        EnergyUnit::Joule => "joule"@,
        EnergyUnit::Calorie => "calorie"@,
        EnergyUnit::Kwh => "kwh"@,
    }
}

/// Which energy unit a token names, ignoring ASCII case.
pub open spec fn spec_parse_energy(s: Seq<char>) -> Option<EnergyUnit> {
    if spec_lower(s) == "joule"@ {
        Some(EnergyUnit::Joule)
    } else if spec_lower(s) == "calorie"@ {
        Some(EnergyUnit::Calorie)
    } else if spec_lower(s) == "kwh"@ {
        Some(EnergyUnit::Kwh)
    } else {
        None
    }
}

/// Parse a energy unit token, ignoring ASCII case.
pub fn parse_energy_unit(s: &str) -> (r: Option<EnergyUnit>)
    ensures
        r == spec_parse_energy(s@),
{
    if eq_token(s, "joule") {
        Some(EnergyUnit::Joule)
    } else if eq_token(s, "calorie") {
        Some(EnergyUnit::Calorie)
    } else if eq_token(s, "kwh") {
        Some(EnergyUnit::Kwh)
    } else {
        None
    }
}

/// The display token of a energy unit.
pub fn energy_unit_token(u: EnergyUnit) -> (t: &'static str)
    ensures
        t@ == energy_token(u),
{
    match u {
        EnergyUnit::Joule => "joule",
        EnergyUnit::Calorie => "calorie",
        EnergyUnit::Kwh => "kwh",
    }
}

/// All energy unit tokens, in declaration order.
pub fn energy_variants() -> (v: Vec<&'static str>)
    ensures
        v@.len() == 3,
        v@[0]@ == energy_token(EnergyUnit::Joule),
        v@[1]@ == energy_token(EnergyUnit::Calorie),
        v@[2]@ == energy_token(EnergyUnit::Kwh),
{
    let mut v: Vec<&'static str> = Vec::new();
    v.push("joule");
    v.push("calorie");
    v.push("kwh");
    v
}

/// Units of power; `Watt` is the canonical unit.
#[derive(Clone, Copy, Debug, PartialEq, Eq, Structural)]
pub enum PowerUnit {
    Watt,
    Kilowatt,
    Horsepower,
}

/// The token that names a power unit.
pub open spec fn power_token(u: PowerUnit) -> Seq<char> {
    match u {
        PowerUnit::Watt => "watt"@,
        PowerUnit::Kilowatt => "kilowatt"@,
        PowerUnit::Horsepower => "horsepower"@,
    }
}

/// Which power unit a token names, ignoring ASCII case.
pub open spec fn spec_parse_power(s: Seq<char>) -> Option<PowerUnit> {
    if spec_lower(s) == "watt"@ {
        Some(PowerUnit::Watt)
    } else if spec_lower(s) == "kilowatt"@ {
        Some(PowerUnit::Kilowatt)
    } else if spec_lower(s) == "horsepower"@ {
        Some(PowerUnit::Horsepower)
    } else {
        None
    }
}

/// Parse a power unit token, ignoring ASCII case.
pub fn parse_power_unit(s: &str) -> (r: Option<PowerUnit>)
    ensures
        r == spec_parse_power(s@),
{
    if eq_token(s, "watt") {
        Some(PowerUnit::Watt)
    } else if eq_token(s, "kilowatt") {
        Some(PowerUnit::Kilowatt)
    } else if eq_token(s, "horsepower") {
        Some(PowerUnit::Horsepower)
    } else {
        None
    }
}

/// The display token of a power unit.
pub fn power_unit_token(u: PowerUnit) -> (t: &'static str)
    ensures
        t@ == power_token(u),
{
    match u {
        PowerUnit::Watt => "watt",
        PowerUnit::Kilowatt => "kilowatt",
        PowerUnit::Horsepower => "horsepower",
    }
}

/// All power unit tokens, in declaration order.
pub fn power_variants() -> (v: Vec<&'static str>)
    ensures
        v@.len() == 3,
        v@[0]@ == power_token(PowerUnit::Watt),
        v@[1]@ == power_token(PowerUnit::Kilowatt),
        v@[2]@ == power_token(PowerUnit::Horsepower),
{
    let mut v: Vec<&'static str> = Vec::new();
    v.push("watt");
    v.push("kilowatt");
    v.push("horsepower");
    v
}

/// Units of frequency; `Hertz` is the canonical unit.
#[derive(Clone, Copy, Debug, PartialEq, Eq, Structural)]
pub enum FrequencyUnit {
    Hertz,
    Kilohertz,
}

/// The token that names a frequency unit.
pub open spec fn frequency_token(u: FrequencyUnit) -> Seq<char> {
    match u {
        FrequencyUnit::Hertz => "hertz"@,
        FrequencyUnit::Kilohertz => "kilohertz"@,
    }
}

/// Which frequency unit a token names, ignoring ASCII case.
pub open spec fn spec_parse_frequency(s: Seq<char>) -> Option<FrequencyUnit> {
    if spec_lower(s) == "hertz"@ {
        Some(FrequencyUnit::Hertz)
    } else if spec_lower(s) == "kilohertz"@ {
        Some(FrequencyUnit::Kilohertz)
    } else {
        None
    }
}

/// Parse a frequency unit token, ignoring ASCII case.
pub fn parse_frequency_unit(s: &str) -> (r: Option<FrequencyUnit>)
    ensures
        r == spec_parse_frequency(s@),
{
    if eq_token(s, "hertz") {
        Some(FrequencyUnit::Hertz)
    } else if eq_token(s, "kilohertz") {
        Some(FrequencyUnit::Kilohertz)
    } else {
        None
    }
}

/// The display token of a frequency unit.
pub fn frequency_unit_token(u: FrequencyUnit) -> (t: &'static str)
    ensures
        t@ == frequency_token(u),
{
    match u {
        FrequencyUnit::Hertz => "hertz",
        FrequencyUnit::Kilohertz => "kilohertz",
    }
}

/// All frequency unit tokens, in declaration order.
pub fn frequency_variants() -> (v: Vec<&'static str>)
    ensures
        v@.len() == 2,
        v@[0]@ == frequency_token(FrequencyUnit::Hertz),
        v@[1]@ == frequency_token(FrequencyUnit::Kilohertz),
{
    let mut v: Vec<&'static str> = Vec::new();
    v.push("hertz");
    v.push("kilohertz");
    v
}

/// Units of angle; `Degree` is the canonical unit.
#[derive(Clone, Copy, Debug, PartialEq, Eq, Structural)]
pub enum AngleUnit {
    Degree,
    Radian,
    Gradian,
}

/// The token that names a angle unit.
pub open spec fn angle_token(u: AngleUnit) -> Seq<char> {
    match u {
        AngleUnit::Degree => "degree"@,
        AngleUnit::Radian => "radian"@,
        AngleUnit::Gradian => "gradian"@,
    }
}

/// Which angle unit a token names, ignoring ASCII case.
pub open spec fn spec_parse_angle(s: Seq<char>) -> Option<AngleUnit> {
    if spec_lower(s) == "degree"@ {
        Some(AngleUnit::Degree)
    } else if spec_lower(s) == "radian"@ {
        Some(AngleUnit::Radian)
    } else if spec_lower(s) == "gradian"@ {
        Some(AngleUnit::Gradian)
    } else {
        None
    }
}

/// Parse a angle unit token, ignoring ASCII case.
pub fn parse_angle_unit(s: &str) -> (r: Option<AngleUnit>)
    ensures
        r == spec_parse_angle(s@),
{
    if eq_token(s, "degree") {
        Some(AngleUnit::Degree)
    } else if eq_token(s, "radian") {
        Some(AngleUnit::Radian)
    } else if eq_token(s, "gradian") {
        Some(AngleUnit::Gradian)
    } else {
        None
    }
}

/// The display token of a angle unit.
pub fn angle_unit_token(u: AngleUnit) -> (t: &'static str)
    ensures
        t@ == angle_token(u),
{
    match u {
        AngleUnit::Degree => "degree",
        AngleUnit::Radian => "radian",
        AngleUnit::Gradian => "gradian",
    }
}

/// All angle unit tokens, in declaration order.
pub fn angle_variants() -> (v: Vec<&'static str>)
    ensures
        v@.len() == 3,
        v@[0]@ == angle_token(AngleUnit::Degree),
        v@[1]@ == angle_token(AngleUnit::Radian),
        v@[2]@ == angle_token(AngleUnit::Gradian),
{
    let mut v: Vec<&'static str> = Vec::new();
    v.push("degree");
    v.push("radian");
    v.push("gradian");
    v
}

/// Units of force; `Newton` is the canonical unit.
#[derive(Clone, Copy, Debug, PartialEq, Eq, Structural)]
pub enum ForceUnit {
    Newton,
    PoundForce,
}

/// The token that names a force unit.
pub open spec fn force_token(u: ForceUnit) -> Seq<char> {
    match u {
        ForceUnit::Newton => "newton"@,
        ForceUnit::PoundForce => "pound_force"@,
    }
}

/// Which force unit a token names, ignoring ASCII case.
pub open spec fn spec_parse_force(s: Seq<char>) -> Option<ForceUnit> {
    if spec_lower(s) == "newton"@ {
        Some(ForceUnit::Newton)
    } else if spec_lower(s) == "pound_force"@ {
        Some(ForceUnit::PoundForce)
    } else {
        None
    }
}

/// Parse a force unit token, ignoring ASCII case.
pub fn parse_force_unit(s: &str) -> (r: Option<ForceUnit>)
    ensures
        r == spec_parse_force(s@),
{
    if eq_token(s, "newton") {
        Some(ForceUnit::Newton)
    } else if eq_token(s, "pound_force") {
        Some(ForceUnit::PoundForce)
    } else {
        None
    }
}

/// The display token of a force unit.
pub fn force_unit_token(u: ForceUnit) -> (t: &'static str)
    ensures
        t@ == force_token(u),
{
    match u {
        ForceUnit::Newton => "newton",
        ForceUnit::PoundForce => "pound_force",
    }
}

/// All force unit tokens, in declaration order.
pub fn force_variants() -> (v: Vec<&'static str>)
    ensures
        v@.len() == 2,
        v@[0]@ == force_token(ForceUnit::Newton),
        v@[1]@ == force_token(ForceUnit::PoundForce),
{
    let mut v: Vec<&'static str> = Vec::new();
    v.push("newton");
    v.push("pound_force");
    v
}

/// Units of luminous quantity; they measure different things and are not
/// interconvertible.
#[derive(Clone, Copy, Debug, PartialEq, Eq, Structural)]
pub enum LuminousUnit {
    Candela,
    Lumen,
    Lux,
}

/// The token that names a luminous quantity unit.
pub open spec fn luminous_token(u: LuminousUnit) -> Seq<char> {
    match u {
        LuminousUnit::Candela => "candela"@,
        LuminousUnit::Lumen => "lumen"@,
        LuminousUnit::Lux => "lux"@,
    }
}

/// Which luminous quantity unit a token names, ignoring ASCII case.
pub open spec fn spec_parse_luminous(s: Seq<char>) -> Option<LuminousUnit> {
    if spec_lower(s) == "candela"@ {
        Some(LuminousUnit::Candela)
    } else if spec_lower(s) == "lumen"@ {
        Some(LuminousUnit::Lumen)
    } else if spec_lower(s) == "lux"@ {
        Some(LuminousUnit::Lux)
    } else {
        None
    }
}

/// Parse a luminous quantity unit token, ignoring ASCII case.
pub fn parse_luminous_unit(s: &str) -> (r: Option<LuminousUnit>)
    ensures
        r == spec_parse_luminous(s@),
{
    if eq_token(s, "candela") {
        Some(LuminousUnit::Candela)
    } else if eq_token(s, "lumen") {
        Some(LuminousUnit::Lumen)
    } else if eq_token(s, "lux") {
        Some(LuminousUnit::Lux)
    } else {
        None
    }
}

/// The display token of a luminous quantity unit.
pub fn luminous_unit_token(u: LuminousUnit) -> (t: &'static str)
    ensures
        t@ == luminous_token(u),
{
    match u {
        LuminousUnit::Candela => "candela",
        LuminousUnit::Lumen => "lumen",
        LuminousUnit::Lux => "lux",
    }
}

/// All luminous quantity unit tokens, in declaration order.
pub fn luminous_variants() -> (v: Vec<&'static str>)
    ensures
        v@.len() == 3,
        v@[0]@ == luminous_token(LuminousUnit::Candela),
        v@[1]@ == luminous_token(LuminousUnit::Lumen),
        v@[2]@ == luminous_token(LuminousUnit::Lux),
{
    let mut v: Vec<&'static str> = Vec::new();
    v.push("candela");
    v.push("lumen");
    v.push("lux");
    v
}

/// Units of magnetic field; `Tesla` is the canonical unit.
#[derive(Clone, Copy, Debug, PartialEq, Eq, Structural)]
pub enum MagneticUnit {
    Tesla,
    Gauss,
}

/// The token that names a magnetic field unit.
pub open spec fn magnetic_token(u: MagneticUnit) -> Seq<char> {
    match u {
        MagneticUnit::Tesla => "tesla"@,
        MagneticUnit::Gauss => "gauss"@,
    }
}

/// Which magnetic field unit a token names, ignoring ASCII case.
pub open spec fn spec_parse_magnetic(s: Seq<char>) -> Option<MagneticUnit> {
    if spec_lower(s) == "tesla"@ {
        Some(MagneticUnit::Tesla)
    } else if spec_lower(s) == "gauss"@ {
        Some(MagneticUnit::Gauss)
    } else {
        None
    }
}

/// Parse a magnetic field unit token, ignoring ASCII case.
pub fn parse_magnetic_unit(s: &str) -> (r: Option<MagneticUnit>)
    ensures
        r == spec_parse_magnetic(s@),
{
    if eq_token(s, "tesla") {
        Some(MagneticUnit::Tesla)
    } else if eq_token(s, "gauss") {
        Some(MagneticUnit::Gauss)
    } else {
        None
    }
}

/// The display token of a magnetic field unit.
pub fn magnetic_unit_token(u: MagneticUnit) -> (t: &'static str)
    ensures
        t@ == magnetic_token(u),
{
    match u {
        MagneticUnit::Tesla => "tesla",
        MagneticUnit::Gauss => "gauss",
    }
}

/// All magnetic field unit tokens, in declaration order.
pub fn magnetic_variants() -> (v: Vec<&'static str>)
    ensures
        v@.len() == 2,
        v@[0]@ == magnetic_token(MagneticUnit::Tesla),
        v@[1]@ == magnetic_token(MagneticUnit::Gauss),
{
    let mut v: Vec<&'static str> = Vec::new();
    v.push("tesla");
    v.push("gauss");
    v
}

/// Units of radioactivity; `Becquerel` is the canonical unit.
#[derive(Clone, Copy, Debug, PartialEq, Eq, Structural)]
pub enum RadioactivityUnit {
    Becquerel,
    Curie,
}

/// The token that names a radioactivity unit.
pub open spec fn radioactivity_token(u: RadioactivityUnit) -> Seq<char> {
    match u {
        RadioactivityUnit::Becquerel => "becquerel"@,
        RadioactivityUnit::Curie => "curie"@,
    }
}

/// Which radioactivity unit a token names, ignoring ASCII case.
pub open spec fn spec_parse_radioactivity(s: Seq<char>) -> Option<RadioactivityUnit> {
    if spec_lower(s) == "becquerel"@ {
        Some(RadioactivityUnit::Becquerel)
    } else if spec_lower(s) == "curie"@ {
        Some(RadioactivityUnit::Curie)
    } else {
        None
    }
}

/// Parse a radioactivity unit token, ignoring ASCII case.
pub fn parse_radioactivity_unit(s: &str) -> (r: Option<RadioactivityUnit>)
    ensures
        r == spec_parse_radioactivity(s@),
{
    if eq_token(s, "becquerel") {
        Some(RadioactivityUnit::Becquerel)
    } else if eq_token(s, "curie") {
        Some(RadioactivityUnit::Curie)
    } else {
        None
    }
}

/// The display token of a radioactivity unit.
pub fn radioactivity_unit_token(u: RadioactivityUnit) -> (t: &'static str)
    ensures
        t@ == radioactivity_token(u),
{
    match u {
        RadioactivityUnit::Becquerel => "becquerel",
        RadioactivityUnit::Curie => "curie",
    }
}

/// All radioactivity unit tokens, in declaration order.
pub fn radioactivity_variants() -> (v: Vec<&'static str>)
    ensures
        v@.len() == 2,
        v@[0]@ == radioactivity_token(RadioactivityUnit::Becquerel),
        v@[1]@ == radioactivity_token(RadioactivityUnit::Curie),
{
    let mut v: Vec<&'static str> = Vec::new();
    v.push("becquerel");
    v.push("curie");
    v
}

/// The single supported unit of capacitance.
#[derive(Clone, Copy, Debug, PartialEq, Eq, Structural)]
pub enum CapacitanceUnit {
    Farad,
}

/// The token that names a capacitance unit.
pub open spec fn capacitance_token(u: CapacitanceUnit) -> Seq<char> {
    match u {
        CapacitanceUnit::Farad => "farad"@,
    }
}

/// Which capacitance unit a token names, ignoring ASCII case.
pub open spec fn spec_parse_capacitance(s: Seq<char>) -> Option<CapacitanceUnit> {
    if spec_lower(s) == "farad"@ {
        Some(CapacitanceUnit::Farad)
    } else {
        None
    }
}

/// Parse a capacitance unit token, ignoring ASCII case.
pub fn parse_capacitance_unit(s: &str) -> (r: Option<CapacitanceUnit>)
    ensures
        r == spec_parse_capacitance(s@),
{
    if eq_token(s, "farad") {
        Some(CapacitanceUnit::Farad)
    } else {
        None
    }
}

/// The display token of a capacitance unit.
pub fn capacitance_unit_token(u: CapacitanceUnit) -> (t: &'static str)
    ensures
        t@ == capacitance_token(u),
{
    match u {
        CapacitanceUnit::Farad => "farad",
    }
}

/// All capacitance unit tokens, in declaration order.
pub fn capacitance_variants() -> (v: Vec<&'static str>)
    ensures
        v@.len() == 1,
        v@[0]@ == capacitance_token(CapacitanceUnit::Farad),
{
    let mut v: Vec<&'static str> = Vec::new();
    v.push("farad");
    v
}

/// The single supported unit of inductance.
#[derive(Clone, Copy, Debug, PartialEq, Eq, Structural)]
pub enum InductanceUnit {
    Henry,
}

/// The token that names a inductance unit.
pub open spec fn inductance_token(u: InductanceUnit) -> Seq<char> {
    match u {
        InductanceUnit::Henry => "henry"@,
    }
}

/// Which inductance unit a token names, ignoring ASCII case.
pub open spec fn spec_parse_inductance(s: Seq<char>) -> Option<InductanceUnit> {
    if spec_lower(s) == "henry"@ {
        Some(InductanceUnit::Henry)
    } else {
        None
    }
}

/// Parse a inductance unit token, ignoring ASCII case.
pub fn parse_inductance_unit(s: &str) -> (r: Option<InductanceUnit>)
    ensures
        r == spec_parse_inductance(s@),
{
    if eq_token(s, "henry") {
        Some(InductanceUnit::Henry)
    } else {
        None
    }
}

/// The display token of a inductance unit.
pub fn inductance_unit_token(u: InductanceUnit) -> (t: &'static str)
    ensures
        t@ == inductance_token(u),
{
    match u {
        InductanceUnit::Henry => "henry",
    }
}

/// All inductance unit tokens, in declaration order.
pub fn inductance_variants() -> (v: Vec<&'static str>)
    ensures
        v@.len() == 1,
        v@[0]@ == inductance_token(InductanceUnit::Henry),
{
    let mut v: Vec<&'static str> = Vec::new();
    v.push("henry");
    v
}

/// The single supported unit of conductance.
#[derive(Clone, Copy, Debug, PartialEq, Eq, Structural)]
pub enum ConductanceUnit {
    Siemens,
}

/// The token that names a conductance unit.
pub open spec fn conductance_token(u: ConductanceUnit) -> Seq<char> {
    match u {
        ConductanceUnit::Siemens => "siemens"@,
    }
}

/// Which conductance unit a token names, ignoring ASCII case.
pub open spec fn spec_parse_conductance(s: Seq<char>) -> Option<ConductanceUnit> {
    if spec_lower(s) == "siemens"@ {
        Some(ConductanceUnit::Siemens)
    } else {
        None
    }
}

/// Parse a conductance unit token, ignoring ASCII case.
pub fn parse_conductance_unit(s: &str) -> (r: Option<ConductanceUnit>)
    ensures
        r == spec_parse_conductance(s@),
{
    if eq_token(s, "siemens") {
        Some(ConductanceUnit::Siemens)
    } else {
        None
    }
}

/// The display token of a conductance unit.
pub fn conductance_unit_token(u: ConductanceUnit) -> (t: &'static str)
    ensures
        t@ == conductance_token(u),
{
    match u {
        ConductanceUnit::Siemens => "siemens",
    }
}

/// All conductance unit tokens, in declaration order.
pub fn conductance_variants() -> (v: Vec<&'static str>)
    ensures
        v@.len() == 1,
        v@[0]@ == conductance_token(ConductanceUnit::Siemens),
{
    let mut v: Vec<&'static str> = Vec::new();
    v.push("siemens");
    v
}

/// The single supported unit of electric charge.
#[derive(Clone, Copy, Debug, PartialEq, Eq, Structural)]
pub enum ChargeUnit {
    Coulomb,
}

/// The token that names a electric charge unit.
pub open spec fn charge_token(u: ChargeUnit) -> Seq<char> {
    match u {
        ChargeUnit::Coulomb => "coulomb"@,
    }
}

/// Which electric charge unit a token names, ignoring ASCII case.
pub open spec fn spec_parse_charge(s: Seq<char>) -> Option<ChargeUnit> {
    if spec_lower(s) == "coulomb"@ {
        Some(ChargeUnit::Coulomb)
    } else {
        None
    }
}

/// Parse a electric charge unit token, ignoring ASCII case.
pub fn parse_charge_unit(s: &str) -> (r: Option<ChargeUnit>)
    ensures
        r == spec_parse_charge(s@),
{
    if eq_token(s, "coulomb") {
        Some(ChargeUnit::Coulomb)
    } else {
        None
    }
}

/// The display token of a electric charge unit.
pub fn charge_unit_token(u: ChargeUnit) -> (t: &'static str)
    ensures
        t@ == charge_token(u),
{
    match u {
        ChargeUnit::Coulomb => "coulomb",
    }
}

/// All electric charge unit tokens, in declaration order.
pub fn charge_variants() -> (v: Vec<&'static str>)
    ensures
        v@.len() == 1,
        v@[0]@ == charge_token(ChargeUnit::Coulomb),
{
    let mut v: Vec<&'static str> = Vec::new();
    v.push("coulomb");
    v
}

/// The single supported unit of voltage.
#[derive(Clone, Copy, Debug, PartialEq, Eq, Structural)]
pub enum VoltageUnit {
    Volt,
}

/// The token that names a voltage unit.
pub open spec fn voltage_token(u: VoltageUnit) -> Seq<char> {
    match u {
        VoltageUnit::Volt => "volt"@,
    }
}

/// Which voltage unit a token names, ignoring ASCII case.
pub open spec fn spec_parse_voltage(s: Seq<char>) -> Option<VoltageUnit> {
    if spec_lower(s) == "volt"@ {
        Some(VoltageUnit::Volt)
    } else {
        None
    }
}

/// Parse a voltage unit token, ignoring ASCII case.
pub fn parse_voltage_unit(s: &str) -> (r: Option<VoltageUnit>)
    ensures
        r == spec_parse_voltage(s@),
{
    if eq_token(s, "volt") {
        Some(VoltageUnit::Volt)
    } else {
        None
    }
}

/// The display token of a voltage unit.
pub fn voltage_unit_token(u: VoltageUnit) -> (t: &'static str)
    ensures
        t@ == voltage_token(u),
{
    match u {
        VoltageUnit::Volt => "volt",
    }
}

/// All voltage unit tokens, in declaration order.
pub fn voltage_variants() -> (v: Vec<&'static str>)
    ensures
        v@.len() == 1,
        v@[0]@ == voltage_token(VoltageUnit::Volt),
{
    let mut v: Vec<&'static str> = Vec::new();
    v.push("volt");
    v
}

/// The single supported unit of resistance.
#[derive(Clone, Copy, Debug, PartialEq, Eq, Structural)]
pub enum ResistanceUnit {
    Ohm,
}

/// The token that names a resistance unit.
pub open spec fn resistance_token(u: ResistanceUnit) -> Seq<char> {
    match u {
        ResistanceUnit::Ohm => "ohm"@,
    }
}

/// Which resistance unit a token names, ignoring ASCII case.
pub open spec fn spec_parse_resistance(s: Seq<char>) -> Option<ResistanceUnit> {
    if spec_lower(s) == "ohm"@ {
        Some(ResistanceUnit::Ohm)
    } else {
        None
    }
}

/// Parse a resistance unit token, ignoring ASCII case.
pub fn parse_resistance_unit(s: &str) -> (r: Option<ResistanceUnit>)
    ensures
        r == spec_parse_resistance(s@),
{
    if eq_token(s, "ohm") {
        Some(ResistanceUnit::Ohm)
    } else {
        None
    }
}

/// The display token of a resistance unit.
pub fn resistance_unit_token(u: ResistanceUnit) -> (t: &'static str)
    ensures
        t@ == resistance_token(u),
{
    match u {
        ResistanceUnit::Ohm => "ohm",
    }
}

/// All resistance unit tokens, in declaration order.
pub fn resistance_variants() -> (v: Vec<&'static str>)
    ensures
        v@.len() == 1,
        v@[0]@ == resistance_token(ResistanceUnit::Ohm),
{
    let mut v: Vec<&'static str> = Vec::new();
    v.push("ohm");
    v
}

/// Units of illuminance; `Lux` is the canonical unit.
#[derive(Clone, Copy, Debug, PartialEq, Eq, Structural)]
pub enum IlluminanceUnit {
    Lux,
    FootCandle,
}

/// The token that names a illuminance unit.
pub open spec fn illuminance_token(u: IlluminanceUnit) -> Seq<char> {
    match u {
        IlluminanceUnit::Lux => "lux"@,
        IlluminanceUnit::FootCandle => "foot_candle"@,
    }
}

/// Which illuminance unit a token names, ignoring ASCII case.
pub open spec fn spec_parse_illuminance(s: Seq<char>) -> Option<IlluminanceUnit> {
    if spec_lower(s) == "lux"@ {
        Some(IlluminanceUnit::Lux)
    } else if spec_lower(s) == "foot_candle"@ {
        Some(IlluminanceUnit::FootCandle)
    } else {
        None
    }
}

/// Parse a illuminance unit token, ignoring ASCII case.
pub fn parse_illuminance_unit(s: &str) -> (r: Option<IlluminanceUnit>)
    ensures
        r == spec_parse_illuminance(s@),
{
    if eq_token(s, "lux") {
        Some(IlluminanceUnit::Lux)
    } else if eq_token(s, "foot_candle") {
        Some(IlluminanceUnit::FootCandle)
    } else {
        None
    }
}

/// The display token of a illuminance unit.
pub fn illuminance_unit_token(u: IlluminanceUnit) -> (t: &'static str)
    ensures
        t@ == illuminance_token(u),
{
    match u {
        IlluminanceUnit::Lux => "lux",
        IlluminanceUnit::FootCandle => "foot_candle",
    }
}

/// All illuminance unit tokens, in declaration order.
pub fn illuminance_variants() -> (v: Vec<&'static str>)
    ensures
        v@.len() == 2,
        v@[0]@ == illuminance_token(IlluminanceUnit::Lux),
        v@[1]@ == illuminance_token(IlluminanceUnit::FootCandle),
{
    let mut v: Vec<&'static str> = Vec::new();
    v.push("lux");
    v.push("foot_candle");
    v
}

/// The single supported unit of amount of substance.
#[derive(Clone, Copy, Debug, PartialEq, Eq, Structural)]
pub enum AmountUnit {
    Mole,
}

/// The token that names a amount of substance unit.
pub open spec fn amount_token(u: AmountUnit) -> Seq<char> {
    match u {
        AmountUnit::Mole => "mole"@,
    }
}

/// Which amount of substance unit a token names, ignoring ASCII case.
pub open spec fn spec_parse_amount(s: Seq<char>) -> Option<AmountUnit> {
    if spec_lower(s) == "mole"@ {
        Some(AmountUnit::Mole)
    } else {
        None
    }
}

/// Parse a amount of substance unit token, ignoring ASCII case.
pub fn parse_amount_unit(s: &str) -> (r: Option<AmountUnit>)
    ensures
        r == spec_parse_amount(s@),
{
    if eq_token(s, "mole") {
        Some(AmountUnit::Mole)
    } else {
        None
    }
}

/// The display token of a amount of substance unit.
pub fn amount_unit_token(u: AmountUnit) -> (t: &'static str)
    ensures
        t@ == amount_token(u),
{
    match u {
        AmountUnit::Mole => "mole",
    }
}

/// All amount of substance unit tokens, in declaration order.
pub fn amount_variants() -> (v: Vec<&'static str>)
    ensures
        v@.len() == 1,
        v@[0]@ == amount_token(AmountUnit::Mole),
{
    let mut v: Vec<&'static str> = Vec::new();
    v.push("mole");
    v
}


} // verus!
