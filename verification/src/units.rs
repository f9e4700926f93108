//! The drawing-unit table: every unit the source format can declare, and
//! the exact rational factor that maps one of it to output units.
//!
//! The output is calibrated so that one millimeter maps to two output
//! units; every entry below is that same physical calibration expressed in
//! the entry's unit, as an exact rational.

use vstd::prelude::*;
use crate::num::Factor;

verus! {

/// A drawing unit the source document can declare.
#[derive(Clone, Copy, Debug, PartialEq, Eq, Structural)]
pub enum Unit {
    Unitless,
    Inches,
    Feet,
    Miles,
    Millimeters,
    Centimeters,
    Meters,
    Kilometers,
    Microinches,
    Mils,
    Yards,
    Angstroms,
    Nanometers,
    Microns,
    Decimeters,
    Decameters,
    Hectometers,
    Gigameters,
    AstronomicalUnits,
    LightYears,
    Parsecs,
    USSurveyFeet,
    USSurveyInch,
    USSurveyYard,
    USSurveyMile,
}

/// The exact factor for each unit.  Unitless drawings are left unscaled.
pub open spec fn s_unit_factor(u: Unit) -> Factor {
    match u {
        Unit::Unitless => Factor { num: 1, den: 1 },
        Unit::Inches => Factor { num: 508, den: 10 },
        Unit::Feet => Factor { num: 6096, den: 10 },
        Unit::Miles => Factor { num: 32_186_944_374, den: 10_000 },
        Unit::Millimeters => Factor { num: 2, den: 1 },
        Unit::Centimeters => Factor { num: 20, den: 1 },
        Unit::Meters => Factor { num: 2_000, den: 1 },
        Unit::Kilometers => Factor { num: 2_000_000, den: 1 },
        Unit::Microinches => Factor { num: 508, den: 10_000_000 },
        Unit::Mils => Factor { num: 508, den: 10_000 },
        Unit::Yards => Factor { num: 18_288, den: 10 },
        Unit::Angstroms => Factor { num: 2, den: 10_000_000 },
        Unit::Nanometers => Factor { num: 2, den: 1_000_000 },
        Unit::Microns => Factor { num: 2, den: 1_000 },
        Unit::Decimeters => Factor { num: 200, den: 1 },
        Unit::Decameters => Factor { num: 20_000, den: 1 },
        Unit::Hectometers => Factor { num: 200_000, den: 1 },
        Unit::Gigameters => Factor { num: 2_000_000_000_000, den: 1 },
        Unit::AstronomicalUnits => Factor { num: 299_195_741_382_000, den: 1 },
        Unit::LightYears => Factor { num: 18_921_460_945_160_086_000, den: 1 },
        Unit::Parsecs => Factor { num: 61_713_551_625_599_170_000, den: 1 },
        Unit::USSurveyFeet => Factor { num: 6_096_012_192, den: 10_000_000 },
        Unit::USSurveyInch => Factor { num: 508_001_016, den: 10_000_000 },
        Unit::USSurveyYard => Factor { num: 18_288_036_576, den: 10_000_000 },
        Unit::USSurveyMile => Factor { num: 32_186_944_374, den: 10_000 },
    }
}

/// Looks up the output-unit factor for a declared drawing unit.
pub fn scale_factor(u: Unit) -> (r: Factor)
    ensures
        r == s_unit_factor(u),
        r.valid(),
{
    match u {
        Unit::Unitless => Factor { num: 1, den: 1 },
        Unit::Inches => Factor { num: 508, den: 10 },
        Unit::Feet => Factor { num: 6096, den: 10 },
        Unit::Miles => Factor { num: 32_186_944_374, den: 10_000 },
        Unit::Millimeters => Factor { num: 2, den: 1 },
        Unit::Centimeters => Factor { num: 20, den: 1 },
        Unit::Meters => Factor { num: 2_000, den: 1 },
        Unit::Kilometers => Factor { num: 2_000_000, den: 1 },
        Unit::Microinches => Factor { num: 508, den: 10_000_000 },
        Unit::Mils => Factor { num: 508, den: 10_000 },
        Unit::Yards => Factor { num: 18_288, den: 10 },
        Unit::Angstroms => Factor { num: 2, den: 10_000_000 },
        Unit::Nanometers => Factor { num: 2, den: 1_000_000 },
        Unit::Microns => Factor { num: 2, den: 1_000 },
        Unit::Decimeters => Factor { num: 200, den: 1 },
        Unit::Decameters => Factor { num: 20_000, den: 1 },
        Unit::Hectometers => Factor { num: 200_000, den: 1 },
        Unit::Gigameters => Factor { num: 2_000_000_000_000, den: 1 },
        Unit::AstronomicalUnits => Factor { num: 299_195_741_382_000, den: 1 },
        Unit::LightYears => Factor { num: 18_921_460_945_160_086_000, den: 1 },
        Unit::Parsecs => Factor { num: 61_713_551_625_599_170_000, den: 1 },
        Unit::USSurveyFeet => Factor { num: 6_096_012_192, den: 10_000_000 },
        Unit::USSurveyInch => Factor { num: 508_001_016, den: 10_000_000 },
        Unit::USSurveyYard => Factor { num: 18_288_036_576, den: 10_000_000 },
        Unit::USSurveyMile => Factor { num: 32_186_944_374, den: 10_000 },
    }
}

} // verus!
