//! Bidirectional mapping between stored text and the `Breed` and `Gender`
//! enumerations.
//!
//! `Breed` is a closed set of ten named variants with an open escape hatch:
//! unrecognized text is accepted and carried verbatim in `Breed::Other`.
//! `Gender` is fully closed and matched case-sensitively.

use vstd::prelude::*;

use crate::errors::{AppError, ParseEnumError};

verus! {

/// A goat's breed: ten named variants, plus `Other` carrying unrecognized
/// text verbatim.
#[derive(Debug, Clone, PartialEq)]
pub enum Breed {
    Beetal,
    Jamunapari,
    Barbari,
    Sirohi,
    Osmanabadi,
    BlackBengal,
    Kutchi,
    Kaghani,
    Chegu,
    Jakhrana,
    Other(String),
}

/// A goat's gender: fully closed, two variants.
#[derive(Debug, Clone, Copy, PartialEq, Eq, Structural)]
pub enum Gender {
    Male,
    Female,
}

/// The mathematical value of a `Breed`: the carried text is abstracted to a
/// sequence of characters.
pub enum BreedLabel {
    Beetal,
    Jamunapari,
    Barbari,
    Sirohi,
    Osmanabadi,
    BlackBengal,
    Kutchi,
    Kaghani,
    Chegu,
    Jakhrana,
    Other(Seq<char>),
}

impl View for Breed {
    type V = BreedLabel;

    open spec fn view(&self) -> BreedLabel {
        match self {
            Breed::Beetal => BreedLabel::Beetal,
            Breed::Jamunapari => BreedLabel::Jamunapari,
            Breed::Barbari => BreedLabel::Barbari,
            Breed::Sirohi => BreedLabel::Sirohi,
            Breed::Osmanabadi => BreedLabel::Osmanabadi,
            Breed::BlackBengal => BreedLabel::BlackBengal,
            Breed::Kutchi => BreedLabel::Kutchi,
            Breed::Kaghani => BreedLabel::Kaghani,
            Breed::Chegu => BreedLabel::Chegu,
            Breed::Jakhrana => BreedLabel::Jakhrana,
            Breed::Other(s) => BreedLabel::Other(s@),
        }
    }
}

/// The stored text of a breed; for `Other` the carried text itself.
pub open spec fn breed_text(b: BreedLabel) -> Seq<char> {
    match b {
        BreedLabel::Beetal => "Beetal"@,
        BreedLabel::Jamunapari => "Jamunapari"@,
        BreedLabel::Barbari => "Barbari"@,
        BreedLabel::Sirohi => "Sirohi"@,
        BreedLabel::Osmanabadi => "Osmanabadi"@,
        BreedLabel::BlackBengal => "BlackBengal"@,
        BreedLabel::Kutchi => "Kutchi"@,
        BreedLabel::Kaghani => "Kaghani"@,
        BreedLabel::Chegu => "Chegu"@,
        BreedLabel::Jakhrana => "Jakhrana"@,
        BreedLabel::Other(s) => s,
    }
}

/// The breed denoted by a stored text: the matching named variant, or
/// `Other` carrying the text.  Total: every text denotes a breed.
pub open spec fn breed_of_text(s: Seq<char>) -> BreedLabel {
    if s == "Beetal"@ {
        BreedLabel::Beetal
    } else if s == "Jamunapari"@ {
        BreedLabel::Jamunapari
    } else if s == "Barbari"@ {
        BreedLabel::Barbari
    } else if s == "Sirohi"@ {
        BreedLabel::Sirohi
    } else if s == "Osmanabadi"@ {
        BreedLabel::Osmanabadi
    } else if s == "BlackBengal"@ {
        BreedLabel::BlackBengal
    } else if s == "Kutchi"@ {
        BreedLabel::Kutchi
    } else if s == "Kaghani"@ {
        BreedLabel::Kaghani
    } else if s == "Chegu"@ {
        BreedLabel::Chegu
    } else if s == "Jakhrana"@ {
        BreedLabel::Jakhrana
    } else {
        BreedLabel::Other(s)
    }
}

/// The stored text of a gender.
pub open spec fn gender_text(g: Gender) -> Seq<char> {
    match g {
        Gender::Male => "Male"@,
        Gender::Female => "Female"@,
    }
}

/// The gender denoted by a stored text, if any: matching is exact and
/// case-sensitive, so exactly the two canonical texts are accepted.
pub open spec fn gender_of_text(s: Seq<char>) -> Option<Gender> {
    if s == "Male"@ {
        Some(Gender::Male)
    } else if s == "Female"@ {
        Some(Gender::Female)
    } else {
        None
    }
}

/// Character-for-character comparison of two string slices.
fn str_eq(a: &str, b: &str) -> (r: bool)
    ensures
        r == (a@ == b@),
{
    let x = a.to_owned();
    let y = b.to_owned();
    x == y
}

/// Converts a stored text to a `Gender`, failing on anything but the two
/// canonical texts.
pub fn str_to_gender(s: &str) -> (r: Result<Gender, AppError>)
    ensures
        match r {
            Ok(g) => gender_of_text(s@) == Some(g),
            Err(e) => gender_of_text(s@) is None && (e matches AppError::ParseError(p)
                && p.input@ == s@ && p.target_enum@ == "Gender"@),
        },
{
    if str_eq(s, "Male") {
        Ok(Gender::Male)
    } else if str_eq(s, "Female") {
        Ok(Gender::Female)
    } else {
        Err(AppError::ParseError(ParseEnumError::new(s, "Gender")))
    }
}

/// Converts a `Gender` to its stored text.
pub fn gender_to_str(gender: &Gender) -> (r: &str)
    ensures
        r@ == gender_text(*gender),
{
    match gender {
        Gender::Male => "Male",
        Gender::Female => "Female",
    }
}

/// Converts a stored text to a `Breed`, treating unknown text as `Other`.
/// Never fails; the `Result` is kept for interface consistency.
pub fn str_to_breed(s: &str) -> (r: Result<Breed, AppError>)
    ensures
        r matches Ok(b) && b@ == breed_of_text(s@),
{
    if str_eq(s, "Beetal") {
        Ok(Breed::Beetal)
    } else if str_eq(s, "Jamunapari") {
        Ok(Breed::Jamunapari)
    } else if str_eq(s, "Barbari") {
        Ok(Breed::Barbari)
    } else if str_eq(s, "Sirohi") {
        Ok(Breed::Sirohi)
    } else if str_eq(s, "Osmanabadi") {
        Ok(Breed::Osmanabadi)
    } else if str_eq(s, "BlackBengal") {
        Ok(Breed::BlackBengal)
    } else if str_eq(s, "Kutchi") {
        Ok(Breed::Kutchi)
    } else if str_eq(s, "Kaghani") {
        Ok(Breed::Kaghani)
    } else if str_eq(s, "Chegu") {
        Ok(Breed::Chegu)
    } else if str_eq(s, "Jakhrana") {
        Ok(Breed::Jakhrana)
    } else {
        Ok(Breed::Other(s.to_owned()))
    }
}

/// Converts a `Breed` to its stored text; for `Other` the carried text
/// unchanged.
pub fn breed_to_str(breed: &Breed) -> (r: &str)
    ensures
        r@ == breed_text(breed@),
{
    match breed {
        Breed::Beetal => "Beetal",
        Breed::Jamunapari => "Jamunapari",
        Breed::Barbari => "Barbari",
        Breed::Sirohi => "Sirohi",
        Breed::Osmanabadi => "Osmanabadi",
        Breed::BlackBengal => "BlackBengal",
        Breed::Kutchi => "Kutchi",
        Breed::Kaghani => "Kaghani",
        Breed::Chegu => "Chegu",
        Breed::Jakhrana => "Jakhrana",
        Breed::Other(name) => name.as_str(),
    }
}

/// Decoding a breed text is idempotent through the `Other` fallback: for
/// every text, re-encoding the decoded breed and decoding again yields the
/// same breed.
pub proof fn lemma_breed_roundtrip(s: Seq<char>)
    ensures
        breed_of_text(breed_text(breed_of_text(s))) == breed_of_text(s),
{
}

/// Re-encoding a decoded gender yields the text back: exactly the two
/// canonical texts survive a decode-encode round trip.
pub proof fn lemma_gender_roundtrip(s: Seq<char>)
    requires
        gender_of_text(s) is Some,
    ensures
        gender_text(gender_of_text(s)->Some_0) == s,
{
}

} // verus!
