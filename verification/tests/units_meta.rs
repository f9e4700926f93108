//! The drawing-unit table and the metadata types.

use dxf2elmt::font::{FontInfo, FontStyle, FontStyleHint, HAlignment, VAlignment};
use dxf2elmt::meta::{ItemType, LinkType, Names};
use dxf2elmt::num::Factor;
use dxf2elmt::units::{scale_factor, Unit};

#[test]
fn millimeters_map_to_two_output_units() {
    let f = scale_factor(Unit::Millimeters);
    assert_eq!(f.num, 2);
    assert_eq!(f.den, 1);
}

#[test]
fn inch_family_factors_are_exact_rationals() {
    let inches = scale_factor(Unit::Inches);
    assert_eq!((inches.num, inches.den), (508, 10));
    let mils = scale_factor(Unit::Mils);
    assert_eq!((mils.num, mils.den), (508, 10_000));
    let survey_inch = scale_factor(Unit::USSurveyInch);
    assert_eq!((survey_inch.num, survey_inch.den), (508_001_016, 10_000_000));
}

#[test]
fn unitless_drawings_stay_unscaled() {
    let f = scale_factor(Unit::Unitless);
    assert_eq!((f.num, f.den), (1, 1));
    assert_eq!(f, Factor::one());
}

#[test]
fn astronomic_factors_survive_the_rational_form() {
    let ly = scale_factor(Unit::LightYears);
    assert_eq!(ly.num, 18_921_460_945_160_086_000);
    let pc = scale_factor(Unit::Parsecs);
    assert_eq!(pc.num, 61_713_551_625_599_170_000);
}

#[test]
fn factor_min_picks_the_smaller_rational() {
    let half = Factor::from_micro(500_000);
    let two = Factor::from_micro(2_000_000);
    assert_eq!(half.min(two), half);
    assert_eq!(two.min(half), half);
}

#[test]
fn font_codes_match_the_output_format() {
    assert_eq!(FontStyleHint::Helvetica.code(), 0);
    assert_eq!(FontStyleHint::Monospace.code(), 7);
    assert_eq!(FontStyle::Normal.code(), 0);
    assert_eq!(FontStyle::Oblique.code(), 2);
}

#[test]
fn default_font_is_the_stock_osifont() {
    let f = FontInfo::default();
    assert_eq!(f.family, "osifont");
    assert_eq!(f.point_size, 12_000_000);
    assert_eq!(f.pixel_size, 0);
    assert!(f.style_name.is_none());
    assert!(!f.underline);
}

#[test]
fn attachment_grid_maps_to_alignments() {
    assert_eq!(HAlignment::from_attachment(1), HAlignment::Left);
    assert_eq!(HAlignment::from_attachment(5), HAlignment::Center);
    assert_eq!(HAlignment::from_attachment(9), HAlignment::Right);
    assert_eq!(HAlignment::from_attachment(0), HAlignment::Left);
    assert_eq!(VAlignment::from_attachment(2), VAlignment::Top);
    assert_eq!(VAlignment::from_attachment(6), VAlignment::Center);
    assert_eq!(VAlignment::from_attachment(8), VAlignment::Bottom);
    assert_eq!(VAlignment::from_attachment(42), VAlignment::Top);
}

#[test]
fn fixed_tags_spell_their_words() {
    assert_eq!(ItemType::Element.as_text(), "element");
    assert_eq!(LinkType::Simple.as_text(), "simple");
}

#[test]
fn single_english_name() {
    let n = Names::single_english(String::from("relay"));
    assert_eq!(n.names.len(), 1);
    assert_eq!(n.names[0].lang, "en");
    assert_eq!(n.names[0].value, "relay");
}
