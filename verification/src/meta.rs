//! Document-level metadata carried alongside the shape tree: element names,
//! identifier, catalogue information and the fixed type/link tags.

use vstd::prelude::*;

verus! {

/// Kind tag of the produced element file; only plain elements are written.
#[derive(Clone, Copy, Debug, PartialEq, Eq, Structural)]
pub enum ItemType {
    Element,
}

impl ItemType {
    /// The word the output format spells this tag with.
    pub fn as_text(&self) -> (r: &'static str)
        ensures
            r@ == "element"@,
    {
        "element"
    }
}

/// Link behaviour of the produced element.
#[derive(Clone, Copy, Debug, PartialEq, Eq, Structural)]
pub enum LinkType {
    Simple,
}

impl LinkType {
    /// The word the output format spells this tag with.
    pub fn as_text(&self) -> (r: &'static str)
        ensures
            r@ == "simple"@,
    {
        "simple"
    }
}

/// One localized display name.
#[derive(Clone, Debug)]
pub struct Name {
    pub lang: String,
    pub value: String,
}

/// The set of localized display names.
#[derive(Clone, Debug)]
pub struct Names {
    pub names: Vec<Name>,
}

impl Names {
    /// A single English name.
    pub fn single_english(value: String) -> (r: Names)
        ensures
            r.names@.len() == 1,
            r.names@[0].lang@ == "en"@,
            r.names@[0].value == value,
    {
        let mut names: Vec<Name> = Vec::new();
        names.push(Name { lang: String::from_str("en"), value });
        Names { names }
    }
}

/// The element identifier, already rendered as text by the caller.
#[derive(Clone, Debug)]
pub struct ElmtUuid {
    pub uuid: String,
}

/// One catalogue field of the element.
#[derive(Clone, Debug)]
pub struct ElemInfo {
    pub name: String,
    pub show: i32,
    pub value: String,
}

/// The catalogue fields of the element.
#[derive(Clone, Debug)]
pub struct ElemInfos {
    pub elem_info: Vec<ElemInfo>,
}

} // verus!
