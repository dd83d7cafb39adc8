//! The domain entities: goats, their shared vaccine and disease references,
//! and the flat row shape they take in the store.

use vstd::prelude::*;

use crate::codec::{breed_text, gender_text, Breed, BreedLabel, Gender};

verus! {

/// A shared, deduplicated vaccine reference: identifier (present once
/// persisted) and name (unique across vaccine rows).
#[derive(Debug, Clone, PartialEq)]
pub struct VaccineRef {
    pub id: Option<i64>,
    pub name: String,
}

/// A shared, deduplicated disease reference: identifier (present once
/// persisted) and name (unique across disease rows).
#[derive(Debug, Clone, PartialEq)]
pub struct DiseaseRef {
    pub id: Option<i64>,
    pub name: String,
}

/// The mathematical value of a reference entity.
pub struct RefEntityLabel {
    pub id: Option<i64>,
    pub name: Seq<char>,
}

impl View for VaccineRef {
    type V = RefEntityLabel;

    open spec fn view(&self) -> RefEntityLabel {
        RefEntityLabel { id: self.id, name: self.name@ }
    }
}

impl DeepView for VaccineRef {
    type V = RefEntityLabel;

    open spec fn deep_view(&self) -> RefEntityLabel {
        self.view()
    }
}

impl View for DiseaseRef {
    type V = RefEntityLabel;

    open spec fn view(&self) -> RefEntityLabel {
        RefEntityLabel { id: self.id, name: self.name@ }
    }
}

impl DeepView for DiseaseRef {
    type V = RefEntityLabel;

    open spec fn deep_view(&self) -> RefEntityLabel {
        self.view()
    }
}

/// A request payload addressing an entity by bare name.
pub struct NamePayload {
    pub name: String,
}

/// The primary entity.  Decimal amounts (cost, weight, current market
/// price) are carried as fixed-point integers in hundredths; the last-bred
/// date is carried as stored text.
#[derive(Debug, Clone)]
pub struct Goat {
    pub id: Option<i64>,
    pub breed: Breed,
    pub name: String,
    pub gender: Gender,
    pub offspring: i64,
    pub cost: i64,
    pub weight: i64,
    pub current_price: i64,
    pub diet: String,
    pub last_bred: Option<String>,
    pub health_status: String,
    pub vaccinations: Vec<VaccineRef>,
    pub diseases: Vec<DiseaseRef>,
}

/// The mathematical value of a goat.
pub struct GoatLabel {
    pub id: Option<i64>,
    pub breed: BreedLabel,
    pub name: Seq<char>,
    pub gender: Gender,
    pub offspring: i64,
    pub cost: i64,
    pub weight: i64,
    pub current_price: i64,
    pub diet: Seq<char>,
    pub last_bred: Option<Seq<char>>,
    pub health_status: Seq<char>,
    pub vaccinations: Seq<RefEntityLabel>,
    pub diseases: Seq<RefEntityLabel>,
}

impl View for Goat {
    type V = GoatLabel;

    open spec fn view(&self) -> GoatLabel {
        GoatLabel {
            id: self.id,
            breed: self.breed@,
            name: self.name@,
            gender: self.gender,
            offspring: self.offspring,
            cost: self.cost,
            weight: self.weight,
            current_price: self.current_price,
            diet: self.diet@,
            last_bred: self.last_bred.deep_view(),
            health_status: self.health_status@,
            vaccinations: self.vaccinations.deep_view(),
            diseases: self.diseases.deep_view(),
        }
    }
}

/// A goat's flat base row as exchanged with the store: enumerations as
/// stored text, no relations.
#[derive(Debug, Clone)]
pub struct GoatRow {
    pub breed: String,
    pub name: String,
    pub gender: String,
    pub offspring: i64,
    pub cost: i64,
    pub weight: i64,
    pub current_price: i64,
    pub diet: String,
    pub last_bred: Option<String>,
    pub health_status: String,
}

/// The mathematical value of a base row.
pub struct GoatRowLabel {
    pub breed: Seq<char>,
    pub name: Seq<char>,
    pub gender: Seq<char>,
    pub offspring: i64,
    pub cost: i64,
    pub weight: i64,
    pub current_price: i64,
    pub diet: Seq<char>,
    pub last_bred: Option<Seq<char>>,
    pub health_status: Seq<char>,
}

impl View for GoatRow {
    type V = GoatRowLabel;

    open spec fn view(&self) -> GoatRowLabel {
        GoatRowLabel {
            breed: self.breed@,
            name: self.name@,
            gender: self.gender@,
            offspring: self.offspring,
            cost: self.cost,
            weight: self.weight,
            current_price: self.current_price,
            diet: self.diet@,
            last_bred: self.last_bred.deep_view(),
            health_status: self.health_status@,
        }
    }
}

/// The base row a goat is stored as: enumerations encoded to text.
pub open spec fn row_of_goat(g: GoatLabel) -> GoatRowLabel {
    GoatRowLabel {
        breed: breed_text(g.breed),
        name: g.name,
        gender: gender_text(g.gender),
        offspring: g.offspring,
        cost: g.cost,
        weight: g.weight,
        current_price: g.current_price,
        diet: g.diet,
        last_bred: g.last_bred,
        health_status: g.health_status,
    }
}

/// A structurally valid goat: the offspring count is non-negative.
pub open spec fn valid_goat(g: GoatLabel) -> bool {
    g.offspring >= 0
}

/// A joined relation row handed back by the store: a reference entity's
/// identifier and name.
#[derive(Debug, Clone)]
pub struct RefRow {
    pub id: i64,
    pub name: String,
}

} // verus!
