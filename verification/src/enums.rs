use vstd::prelude::*;

verus! {

/// The kinds of sensor readings a device reports.
#[derive(Clone, Copy, PartialEq, Eq, Structural, Debug)]
pub enum DeviceEventType {
    Temperature,
    Humidity,
    Illumination,
}

/// The operating modes an air conditioner can be put in.
#[derive(Clone, Copy, PartialEq, Eq, Structural, Debug)]
pub enum AirconModeType {
    Cool,
    Warm,
    Dry,
    Blow,
    Auto,
}

impl AirconModeType {
    /// The lower-case name the cloud API uses for each mode.
    pub open spec fn spec_str(self) -> Seq<char> {
        match self {
            AirconModeType::Cool => "cool"@,
            AirconModeType::Warm => "warm"@,
            AirconModeType::Dry => "dry"@,
            AirconModeType::Blow => "blow"@,
            AirconModeType::Auto => "auto"@,
        }
    }

    pub fn as_str(&self) -> (r: &str)
        ensures
            r@ == self.spec_str(),
    {
        match self {
            AirconModeType::Cool => "cool",
            AirconModeType::Warm => "warm",
            AirconModeType::Dry => "dry",
            AirconModeType::Blow => "blow",
            AirconModeType::Auto => "auto",
        }
    }
}

/// The temperature scales the cloud API reports settings in.
#[derive(Clone, Copy, PartialEq, Eq, Structural, Debug)]
pub enum TemperatureUnit {
    Celcius,
    Fahrenheit,
}

impl TemperatureUnit {
    /// The one-letter name the cloud API uses for each scale.
    pub open spec fn spec_str(self) -> Seq<char> {
        match self {
            TemperatureUnit::Celcius => "c"@,
            TemperatureUnit::Fahrenheit => "f"@,
        }
    }

    pub fn as_str(&self) -> (r: &str)
        ensures
            r@ == self.spec_str(),
    {
        match self {
            TemperatureUnit::Celcius => "c",
            TemperatureUnit::Fahrenheit => "f",
        }
    }
}

} // verus!
