use vstd::prelude::*;

verus! {

/// Base unit of a sensor reading, taken from the fixed catalog of unit
/// codes. `Unknown` stands for the dedicated code 0xFF; bytes outside the
/// catalog do not name a unit and are rejected by `try_from`.
#[derive(Debug, Clone, Copy, PartialEq, Eq, Structural)]
pub enum Unit {
    Unspecified,
    DegreesCelcius,
    DegreesFahrenheit,
    DegreesKelvin,
    Volt,
    Amp,
    Watt,
    Joule,
    Coulomb,
    VoltAmpere,
    Nit,
    Lumen,
    Lux,
    Candela,
    KiloPascal,
    PoundsPerSquareInch,
    Newton,
    CubicFeetPerMinute,
    RevolutionsPerMinute,
    Hertz,
    Microsecond,
    Millisecond,
    Second,
    Minute,
    Hour,
    Day,
    Week,
    Mil,
    Inch,
    Foot,
    CubicInch,
    CubicFoot,
    Millimeter,
    Centimeter,
    Meter,
    CubicCentimeter,
    CubicMeter,
    Liter,
    FluidOunce,
    Radian,
    Steradian,
    Revolution,
    Cycle,
    Gravity,
    Ounce,
    Pound,
    FootPound,
    OunceInch,
    Gauss,
    Gilbert,
    Henry,
    Millihenry,
    Farad,
    Microfarad,
    Ohm,
    Siemen,
    Mole,
    Becquerel,
    PartsPerMillion,
    Decibel,
    AWeightedDecibel,
    CWeightedDecibel,
    Gray,
    Sievert,
    ColorTemperatureDegreesKelvin,
    Bit,
    Kilobit,
    Megabit,
    Gigabit,
    Byte,
    Kilobyte,
    Megabyte,
    Gigabyte,
    Word,
    DoubleWord,
    QuadWord,
    CacheLine,
    Hit,
    Miss,
    Retry,
    Reset,
    OverrunOrUnderflow,
    Underrun,
    Collision,
    Packet,
    Message,
    Character,
    Error,
    CorrectableError,
    UncorrectableError,
    FatalError,
    Gram,
    Unknown,
}

/// The unit named by a raw code, if the catalog assigns one.
pub open spec fn unit_from_raw_spec(value: u8) -> Option<Unit> {
    if value == 0 {
        Some(Unit::Unspecified)
    } else if value == 1 {
        Some(Unit::DegreesCelcius)
    } else if value == 2 {
        Some(Unit::DegreesFahrenheit)
    } else if value == 3 {
        Some(Unit::DegreesKelvin)
    } else if value == 4 {
        Some(Unit::Volt)
    } else if value == 5 {
        Some(Unit::Amp)
    } else if value == 6 {
        Some(Unit::Watt)
    } else if value == 7 {
        Some(Unit::Joule)
    } else if value == 8 {
        Some(Unit::Coulomb)
    } else if value == 9 {
        Some(Unit::VoltAmpere)
    } else if value == 10 {
        Some(Unit::Nit)
    } else if value == 11 {
        Some(Unit::Lumen)
    } else if value == 12 {
        Some(Unit::Lux)
    } else if value == 13 {
        Some(Unit::Candela)
    } else if value == 14 {
        Some(Unit::KiloPascal)
    } else if value == 15 {
        Some(Unit::PoundsPerSquareInch)
    } else if value == 16 {
        Some(Unit::Newton)
    } else if value == 17 {
        Some(Unit::CubicFeetPerMinute)
    } else if value == 18 {
        Some(Unit::RevolutionsPerMinute)
    } else if value == 19 {
        Some(Unit::Hertz)
    } else if value == 20 {
        Some(Unit::Microsecond)
    } else if value == 21 {
        Some(Unit::Millisecond)
    } else if value == 22 {
        Some(Unit::Second)
    } else if value == 23 {
        Some(Unit::Minute)
    } else if value == 24 {
        Some(Unit::Hour)
    } else if value == 25 {
        Some(Unit::Day)
    } else if value == 26 {
        Some(Unit::Week)
    } else if value == 27 {
        Some(Unit::Mil)
    } else if value == 28 {
        Some(Unit::Inch)
    } else if value == 29 {
        Some(Unit::Foot)
    } else if value == 30 {
        Some(Unit::CubicInch)
    } else if value == 31 {
        Some(Unit::CubicFoot)
    } else if value == 32 {
        Some(Unit::Millimeter)
    } else if value == 33 {
        Some(Unit::Centimeter)
    } else if value == 34 {
        Some(Unit::Meter)
    } else if value == 35 {
        Some(Unit::CubicCentimeter)
    } else if value == 36 {
        Some(Unit::CubicMeter)
    } else if value == 37 {
        Some(Unit::Liter)
    } else if value == 38 {
        Some(Unit::FluidOunce)
    } else if value == 39 {
        Some(Unit::Radian)
    } else if value == 40 {
        Some(Unit::Steradian)
    } else if value == 41 {
        Some(Unit::Revolution)
    } else if value == 42 {
        Some(Unit::Cycle)
    } else if value == 43 {
        Some(Unit::Gravity)
    } else if value == 44 {
        Some(Unit::Ounce)
    } else if value == 45 {
        Some(Unit::Pound)
    } else if value == 46 {
        Some(Unit::FootPound)
    } else if value == 47 {
        Some(Unit::OunceInch)
    } else if value == 48 {
        Some(Unit::Gauss)
    } else if value == 49 {
        Some(Unit::Gilbert)
    } else if value == 50 {
        Some(Unit::Henry)
    } else if value == 51 {
        Some(Unit::Millihenry)
    } else if value == 52 {
        Some(Unit::Farad)
    } else if value == 53 {
        Some(Unit::Microfarad)
    } else if value == 54 {
        Some(Unit::Ohm)
    } else if value == 55 {
        Some(Unit::Siemen)
    } else if value == 56 {
        Some(Unit::Mole)
    } else if value == 57 {
        Some(Unit::Becquerel)
    } else if value == 58 {
        Some(Unit::PartsPerMillion)
    } else if value == 60 {
        Some(Unit::Decibel)
    } else if value == 61 {
        Some(Unit::AWeightedDecibel)
    } else if value == 62 {
        Some(Unit::CWeightedDecibel)
    } else if value == 63 {
        Some(Unit::Gray)
    } else if value == 64 {
        Some(Unit::Sievert)
    } else if value == 65 {
        Some(Unit::ColorTemperatureDegreesKelvin)
    } else if value == 66 {
        Some(Unit::Bit)
    } else if value == 67 {
        Some(Unit::Kilobit)
    } else if value == 68 {
        Some(Unit::Megabit)
    } else if value == 69 {
        Some(Unit::Gigabit)
    } else if value == 70 {
        Some(Unit::Byte)
    } else if value == 71 {
        Some(Unit::Kilobyte)
    } else if value == 72 {
        Some(Unit::Megabyte)
    } else if value == 73 {
        Some(Unit::Gigabyte)
    } else if value == 74 {
        Some(Unit::Word)
    } else if value == 75 {
        Some(Unit::DoubleWord)
    } else if value == 76 {
        Some(Unit::QuadWord)
    } else if value == 77 {
        Some(Unit::CacheLine)
    } else if value == 78 {
        Some(Unit::Hit)
    } else if value == 79 {
        Some(Unit::Miss)
    } else if value == 80 {
        Some(Unit::Retry)
    } else if value == 81 {
        Some(Unit::Reset)
    } else if value == 82 {
        Some(Unit::OverrunOrUnderflow)
    } else if value == 83 {
        Some(Unit::Underrun)
    } else if value == 84 {
        Some(Unit::Collision)
    } else if value == 85 {
        Some(Unit::Packet)
    } else if value == 86 {
        Some(Unit::Message)
    } else if value == 87 {
        Some(Unit::Character)
    } else if value == 88 {
        Some(Unit::Error)
    } else if value == 89 {
        Some(Unit::CorrectableError)
    } else if value == 90 {
        Some(Unit::UncorrectableError)
    } else if value == 91 {
        Some(Unit::FatalError)
    } else if value == 92 {
        Some(Unit::Gram)
    } else if value == 0xFF {
        Some(Unit::Unknown)
    } else {
        None
    }
}

/// The raw code of a unit.
pub open spec fn unit_raw_spec(unit: Unit) -> u8 {
    match unit {
        Unit::Unspecified => 0,
        Unit::DegreesCelcius => 1,
        Unit::DegreesFahrenheit => 2,
        Unit::DegreesKelvin => 3,
        Unit::Volt => 4,
        Unit::Amp => 5,
        Unit::Watt => 6,
        Unit::Joule => 7,
        Unit::Coulomb => 8,
        Unit::VoltAmpere => 9,
        Unit::Nit => 10,
        Unit::Lumen => 11,
        Unit::Lux => 12,
        Unit::Candela => 13,
        Unit::KiloPascal => 14,
        Unit::PoundsPerSquareInch => 15,
        Unit::Newton => 16,
        Unit::CubicFeetPerMinute => 17,
        Unit::RevolutionsPerMinute => 18,
        Unit::Hertz => 19,
        Unit::Microsecond => 20,
        Unit::Millisecond => 21,
        Unit::Second => 22,
        Unit::Minute => 23,
        Unit::Hour => 24,
        Unit::Day => 25,
        Unit::Week => 26,
        Unit::Mil => 27,
        Unit::Inch => 28,
        Unit::Foot => 29,
        Unit::CubicInch => 30,
        Unit::CubicFoot => 31,
        Unit::Millimeter => 32,
        Unit::Centimeter => 33,
        Unit::Meter => 34,
        Unit::CubicCentimeter => 35,
        Unit::CubicMeter => 36,
        Unit::Liter => 37,
        Unit::FluidOunce => 38,
        Unit::Radian => 39,
        Unit::Steradian => 40,
        Unit::Revolution => 41,
        Unit::Cycle => 42,
        Unit::Gravity => 43,
        Unit::Ounce => 44,
        Unit::Pound => 45,
        Unit::FootPound => 46,
        Unit::OunceInch => 47,
        Unit::Gauss => 48,
        Unit::Gilbert => 49,
        Unit::Henry => 50,
        Unit::Millihenry => 51,
        Unit::Farad => 52,
        Unit::Microfarad => 53,
        Unit::Ohm => 54,
        Unit::Siemen => 55,
        Unit::Mole => 56,
        Unit::Becquerel => 57,
        Unit::PartsPerMillion => 58,
        Unit::Decibel => 60,
        Unit::AWeightedDecibel => 61,
        Unit::CWeightedDecibel => 62,
        Unit::Gray => 63,
        Unit::Sievert => 64,
        Unit::ColorTemperatureDegreesKelvin => 65,
        Unit::Bit => 66,
        Unit::Kilobit => 67,
        Unit::Megabit => 68,
        Unit::Gigabit => 69,
        Unit::Byte => 70,
        Unit::Kilobyte => 71,
        Unit::Megabyte => 72,
        Unit::Gigabyte => 73,
        Unit::Word => 74,
        Unit::DoubleWord => 75,
        Unit::QuadWord => 76,
        Unit::CacheLine => 77,
        Unit::Hit => 78,
        Unit::Miss => 79,
        Unit::Retry => 80,
        Unit::Reset => 81,
        Unit::OverrunOrUnderflow => 82,
        Unit::Underrun => 83,
        Unit::Collision => 84,
        Unit::Packet => 85,
        Unit::Message => 86,
        Unit::Character => 87,
        Unit::Error => 88,
        Unit::CorrectableError => 89,
        Unit::UncorrectableError => 90,
        Unit::FatalError => 91,
        Unit::Gram => 92,
        Unit::Unknown => 0xFF,
    }
}

impl Unit {
    /// The unit a raw code names, or an error when the catalog leaves the
    /// code unassigned.
    pub fn try_from(value: u8) -> (r: Result<Unit, ()>)
        ensures
            r matches Ok(u) ==> unit_from_raw_spec(value) == Some(u),
            r is Err <==> unit_from_raw_spec(value) is None,
    {
        if value == 0 {
            Ok(Unit::Unspecified)
        } else if value == 1 {
            Ok(Unit::DegreesCelcius)
        } else if value == 2 {
            Ok(Unit::DegreesFahrenheit)
        } else if value == 3 {
            Ok(Unit::DegreesKelvin)
        } else if value == 4 {
            Ok(Unit::Volt)
        } else if value == 5 {
            Ok(Unit::Amp)
        } else if value == 6 {
            Ok(Unit::Watt)
        } else if value == 7 {
            Ok(Unit::Joule)
        } else if value == 8 {
            Ok(Unit::Coulomb)
        } else if value == 9 {
            Ok(Unit::VoltAmpere)
        } else if value == 10 {
            Ok(Unit::Nit)
        } else if value == 11 {
            Ok(Unit::Lumen)
        } else if value == 12 {
            Ok(Unit::Lux)
        } else if value == 13 {
            Ok(Unit::Candela)
        } else if value == 14 {
            Ok(Unit::KiloPascal)
        } else if value == 15 {
            Ok(Unit::PoundsPerSquareInch)
        } else if value == 16 {
            Ok(Unit::Newton)
        } else if value == 17 {
            Ok(Unit::CubicFeetPerMinute)
        } else if value == 18 {
            Ok(Unit::RevolutionsPerMinute)
        } else if value == 19 {
            Ok(Unit::Hertz)
        } else if value == 20 {
            Ok(Unit::Microsecond)
        } else if value == 21 {
            Ok(Unit::Millisecond)
        } else if value == 22 {
            Ok(Unit::Second)
        } else if value == 23 {
            Ok(Unit::Minute)
        } else if value == 24 {
            Ok(Unit::Hour)
        } else if value == 25 {
            Ok(Unit::Day)
        } else if value == 26 {
            Ok(Unit::Week)
        } else if value == 27 {
            Ok(Unit::Mil)
        } else if value == 28 {
            Ok(Unit::Inch)
        } else if value == 29 {
            Ok(Unit::Foot)
        } else if value == 30 {
            Ok(Unit::CubicInch)
        } else if value == 31 {
            Ok(Unit::CubicFoot)
        } else if value == 32 {
            Ok(Unit::Millimeter)
        } else if value == 33 {
            Ok(Unit::Centimeter)
        } else if value == 34 {
            Ok(Unit::Meter)
        } else if value == 35 {
            Ok(Unit::CubicCentimeter)
        } else if value == 36 {
            Ok(Unit::CubicMeter)
        } else if value == 37 {
            Ok(Unit::Liter)
        } else if value == 38 {
            Ok(Unit::FluidOunce)
        } else if value == 39 {
            Ok(Unit::Radian)
        } else if value == 40 {
            Ok(Unit::Steradian)
        } else if value == 41 {
            Ok(Unit::Revolution)
        } else if value == 42 {
            Ok(Unit::Cycle)
        } else if value == 43 {
            Ok(Unit::Gravity)
        } else if value == 44 {
            Ok(Unit::Ounce)
        } else if value == 45 {
            Ok(Unit::Pound)
        } else if value == 46 {
            Ok(Unit::FootPound)
        } else if value == 47 {
            Ok(Unit::OunceInch)
        } else if value == 48 {
            Ok(Unit::Gauss)
        } else if value == 49 {
            Ok(Unit::Gilbert)
        } else if value == 50 {
            Ok(Unit::Henry)
        } else if value == 51 {
            Ok(Unit::Millihenry)
        } else if value == 52 {
            Ok(Unit::Farad)
        } else if value == 53 {
            Ok(Unit::Microfarad)
        } else if value == 54 {
            Ok(Unit::Ohm)
        } else if value == 55 {
            Ok(Unit::Siemen)
        } else if value == 56 {
            Ok(Unit::Mole)
        } else if value == 57 {
            Ok(Unit::Becquerel)
        } else if value == 58 {
            Ok(Unit::PartsPerMillion)
        } else if value == 60 {
            Ok(Unit::Decibel)
        } else if value == 61 {
            Ok(Unit::AWeightedDecibel)
        } else if value == 62 {
            Ok(Unit::CWeightedDecibel)
        } else if value == 63 {
            Ok(Unit::Gray)
        } else if value == 64 {
            Ok(Unit::Sievert)
        } else if value == 65 {
            Ok(Unit::ColorTemperatureDegreesKelvin)
        } else if value == 66 {
            Ok(Unit::Bit)
        } else if value == 67 {
            Ok(Unit::Kilobit)
        } else if value == 68 {
            Ok(Unit::Megabit)
        } else if value == 69 {
            Ok(Unit::Gigabit)
        } else if value == 70 {
            Ok(Unit::Byte)
        } else if value == 71 {
            Ok(Unit::Kilobyte)
        } else if value == 72 {
            Ok(Unit::Megabyte)
        } else if value == 73 {
            Ok(Unit::Gigabyte)
        } else if value == 74 {
            Ok(Unit::Word)
        } else if value == 75 {
            Ok(Unit::DoubleWord)
        } else if value == 76 {
            Ok(Unit::QuadWord)
        } else if value == 77 {
            Ok(Unit::CacheLine)
        } else if value == 78 {
            Ok(Unit::Hit)
        } else if value == 79 {
            Ok(Unit::Miss)
        } else if value == 80 {
            Ok(Unit::Retry)
        } else if value == 81 {
            Ok(Unit::Reset)
        } else if value == 82 {
            Ok(Unit::OverrunOrUnderflow)
        } else if value == 83 {
            Ok(Unit::Underrun)
        } else if value == 84 {
            Ok(Unit::Collision)
        } else if value == 85 {
            Ok(Unit::Packet)
        } else if value == 86 {
            Ok(Unit::Message)
        } else if value == 87 {
            Ok(Unit::Character)
        } else if value == 88 {
            Ok(Unit::Error)
        } else if value == 89 {
            Ok(Unit::CorrectableError)
        } else if value == 90 {
            Ok(Unit::UncorrectableError)
        } else if value == 91 {
            Ok(Unit::FatalError)
        } else if value == 92 {
            Ok(Unit::Gram)
        } else if value == 0xFF {
            Ok(Unit::Unknown)
        } else {
            Err(())
        }
    }

    /// The raw code of this unit; inverse of `try_from` on assigned codes.
    pub fn raw(self) -> (r: u8)
        ensures
            r == unit_raw_spec(self),
            unit_from_raw_spec(r) == Some(self),
    {
        match self {
            Unit::Unspecified => 0,
            Unit::DegreesCelcius => 1,
            Unit::DegreesFahrenheit => 2,
            Unit::DegreesKelvin => 3,
            Unit::Volt => 4,
            Unit::Amp => 5,
            Unit::Watt => 6,
            Unit::Joule => 7,
            Unit::Coulomb => 8,
            Unit::VoltAmpere => 9,
            Unit::Nit => 10,
            Unit::Lumen => 11,
            Unit::Lux => 12,
            Unit::Candela => 13,
            Unit::KiloPascal => 14,
            Unit::PoundsPerSquareInch => 15,
            Unit::Newton => 16,
            Unit::CubicFeetPerMinute => 17,
            Unit::RevolutionsPerMinute => 18,
            Unit::Hertz => 19,
            Unit::Microsecond => 20,
            Unit::Millisecond => 21,
            Unit::Second => 22,
            Unit::Minute => 23,
            Unit::Hour => 24,
            Unit::Day => 25,
            Unit::Week => 26,
            Unit::Mil => 27,
            Unit::Inch => 28,
            Unit::Foot => 29,
            Unit::CubicInch => 30,
            Unit::CubicFoot => 31,
            Unit::Millimeter => 32,
            Unit::Centimeter => 33,
            Unit::Meter => 34,
            Unit::CubicCentimeter => 35,
            Unit::CubicMeter => 36,
            Unit::Liter => 37,
            Unit::FluidOunce => 38,
            Unit::Radian => 39,
            Unit::Steradian => 40,
            Unit::Revolution => 41,
            Unit::Cycle => 42,
            Unit::Gravity => 43,
            Unit::Ounce => 44,
            Unit::Pound => 45,
            Unit::FootPound => 46,
            Unit::OunceInch => 47,
            Unit::Gauss => 48,
            Unit::Gilbert => 49,
            Unit::Henry => 50,
            Unit::Millihenry => 51,
            Unit::Farad => 52,
            Unit::Microfarad => 53,
            Unit::Ohm => 54,
            Unit::Siemen => 55,
            Unit::Mole => 56,
            Unit::Becquerel => 57,
            Unit::PartsPerMillion => 58,
            Unit::Decibel => 60,
            Unit::AWeightedDecibel => 61,
            Unit::CWeightedDecibel => 62,
            Unit::Gray => 63,
            Unit::Sievert => 64,
            Unit::ColorTemperatureDegreesKelvin => 65,
            Unit::Bit => 66,
            Unit::Kilobit => 67,
            Unit::Megabit => 68,
            Unit::Gigabit => 69,
            Unit::Byte => 70,
            Unit::Kilobyte => 71,
            Unit::Megabyte => 72,
            Unit::Gigabyte => 73,
            Unit::Word => 74,
            Unit::DoubleWord => 75,
            Unit::QuadWord => 76,
            Unit::CacheLine => 77,
            Unit::Hit => 78,
            Unit::Miss => 79,
            Unit::Retry => 80,
            Unit::Reset => 81,
            Unit::OverrunOrUnderflow => 82,
            Unit::Underrun => 83,
            Unit::Collision => 84,
            Unit::Packet => 85,
            Unit::Message => 86,
            Unit::Character => 87,
            Unit::Error => 88,
            Unit::CorrectableError => 89,
            Unit::UncorrectableError => 90,
            Unit::FatalError => 91,
            Unit::Gram => 92,
            Unit::Unknown => 0xFF,
        }
    }
}

} // verus!
