//! Person normalization: four small categorical lookups over the raw
//! text, each a closed catalog where unmatched text becomes absent.

use crate::raw::persons::RawPersonRecord;
use vstd::prelude::*;

verus! {

/// A person involved in a collision, normalized for the warehouse.
#[derive(Clone, Debug)]
pub struct Person {
    pub person_id: String,
    pub person_type: Option<PersonType>,
    pub person_age: Option<u8>,
    pub person_sex: Option<PersonSex>,
    pub person_position_in_vehicle: Option<PersonPositionInVehicle>,
    pub person_role: Option<PersonRole>,
    pub crash_id: u32,
}

#[derive(Clone, Copy, Debug, PartialEq, Eq, Structural)]
pub enum PersonSex {
    Male,
    Female,
}

#[derive(Clone, Copy, Debug, PartialEq, Eq, Structural)]
pub enum PersonType {
    Pedestrian,
    Occupant,
    Bicyclist,
    OtherMotorized,
}

#[derive(Clone, Copy, Debug, PartialEq, Eq, Structural)]
pub enum PersonPositionInVehicle {
    Driver,
    Front,
    Rear,
    Lap,
    Outside,
}

#[derive(Clone, Copy, Debug, PartialEq, Eq, Structural)]
pub enum PersonRole {
    NotifiedPerson,
    Witness,
    Registrant,
    InLineSkater,
    Passenger,
    Driver,
    PolicyHolder,
    Owner,
    Pedestrian,
}

/// The person-type catalog.
pub open spec fn person_type_spec(s: Seq<char>) -> Option<PersonType> {
    if s == "Pedestrian"@ {
        Some(PersonType::Pedestrian)
    } else if s == "Occupant"@ {
        Some(PersonType::Occupant)
    } else if s == "Bicyclist"@ {
        Some(PersonType::Bicyclist)
    } else if s == "Other Motorized"@ {
        Some(PersonType::OtherMotorized)
    } else {
        None
    }
}

/// The single-character sex code: `F` and `M` are known, anything else is
/// absent.
pub open spec fn sex_spec(c: char) -> Option<PersonSex> {
    if c == 'F' {
        Some(PersonSex::Female)
    } else if c == 'M' {
        Some(PersonSex::Male)
    } else {
        None
    }
}

/// The position-in-vehicle catalog: several verbose raw phrasings map to
/// one of five seats.
pub open spec fn position_spec(s: Seq<char>) -> Option<PersonPositionInVehicle> {
    if s == "Driver"@ {
        Some(PersonPositionInVehicle::Driver)
    } else if s
        == "Front passenger, if two or more persons, including the driver, are in the front seat"@
        || s == "Middle front seat, or passenger lying across a seat"@ {
        Some(PersonPositionInVehicle::Front)
    } else if s
        == "Any person in the rear of a station wagon, pick-up truck, all passengers on a bus, etc"@
        || s == "Middle rear seat, or passenger lying across a seat"@ || s
        == "Right rear passenger or motorcycle sidecar passenger"@ || s
        == "Left rear passenger, or rear passenger on a bicycle, motorcycle, snowmobile"@ {
        Some(PersonPositionInVehicle::Rear)
    } else if s == "If one person is seated on another person&apos;s lap"@ {
        Some(PersonPositionInVehicle::Lap)
    } else if s == "Outside"@ || s == "Riding/Hanging on Outside"@ {
        Some(PersonPositionInVehicle::Outside)
    } else {
        None
    }
}

/// The pedestrian/occupant role catalog.
pub open spec fn role_spec(s: Seq<char>) -> Option<PersonRole> {
    if s == "Notified Person"@ {
        Some(PersonRole::NotifiedPerson)
    } else if s == "Witness"@ {
        Some(PersonRole::Witness)
    } else if s == "Registrant"@ {
        Some(PersonRole::Registrant)
    } else if s == "In-Line Skater"@ {
        Some(PersonRole::InLineSkater)
    } else if s == "Passenger"@ {
        Some(PersonRole::Passenger)
    } else if s == "Driver"@ {
        Some(PersonRole::Driver)
    } else if s == "Policy Holder"@ {
        Some(PersonRole::PolicyHolder)
    } else if s == "Owner"@ {
        Some(PersonRole::Owner)
    } else if s == "Pedestrian"@ {
        Some(PersonRole::Pedestrian)
    } else {
        None
    }
}

/// Looks raw person-type text up in the closed person-type catalog;
/// unmatched text is absent, never an error.
pub fn extract_person_type(raw_person_type: &str) -> (r: Option<PersonType>)
    ensures
        r == person_type_spec(raw_person_type@),
{
    if crate::text::str_eq(raw_person_type, "Pedestrian") {
        Some(PersonType::Pedestrian)
    } else if crate::text::str_eq(raw_person_type, "Occupant") {
        Some(PersonType::Occupant)
    } else if crate::text::str_eq(raw_person_type, "Bicyclist") {
        Some(PersonType::Bicyclist)
    } else if crate::text::str_eq(raw_person_type, "Other Motorized") {
        Some(PersonType::OtherMotorized)
    } else {
        None
    }
}

/// Maps the single-character sex code to a sex, or absent.
pub fn extract_sex(c: char) -> (r: Option<PersonSex>)
    ensures
        r == sex_spec(c),
{
    if c == 'F' {
        Some(PersonSex::Female)
    } else if c == 'M' {
        Some(PersonSex::Male)
    } else {
        None
    }
}

/// Looks raw position text up in the closed position-in-vehicle catalog;
/// unmatched text is absent, never an error.
pub fn extract_position_in_vehicle(raw_position: &str) -> (r: Option<PersonPositionInVehicle>)
    ensures
        r == position_spec(raw_position@),
{
    if crate::text::str_eq(raw_position, "Driver") {
        Some(PersonPositionInVehicle::Driver)
    } else if crate::text::str_eq(
        raw_position,
        "Front passenger, if two or more persons, including the driver, are in the front seat",
    ) || crate::text::str_eq(raw_position, "Middle front seat, or passenger lying across a seat") {
        Some(PersonPositionInVehicle::Front)
    } else if crate::text::str_eq(
        raw_position,
        "Any person in the rear of a station wagon, pick-up truck, all passengers on a bus, etc",
    ) || crate::text::str_eq(raw_position, "Middle rear seat, or passenger lying across a seat")
        || crate::text::str_eq(
        raw_position,
        "Right rear passenger or motorcycle sidecar passenger",
    ) || crate::text::str_eq(
        raw_position,
        "Left rear passenger, or rear passenger on a bicycle, motorcycle, snowmobile",
    ) {
        Some(PersonPositionInVehicle::Rear)
    } else if crate::text::str_eq(
        raw_position,
        "If one person is seated on another person&apos;s lap",
    ) {
        Some(PersonPositionInVehicle::Lap)
    } else if crate::text::str_eq(raw_position, "Outside") || crate::text::str_eq(
        raw_position,
        "Riding/Hanging on Outside",
    ) {
        Some(PersonPositionInVehicle::Outside)
    } else {
        None
    }
}

/// Looks raw role text up in the closed role catalog; unmatched text is
/// absent, never an error.
pub fn extract_role(raw_role: &str) -> (r: Option<PersonRole>)
    ensures
        r == role_spec(raw_role@),
{
    if crate::text::str_eq(raw_role, "Notified Person") {
        Some(PersonRole::NotifiedPerson)
    } else if crate::text::str_eq(raw_role, "Witness") {
        Some(PersonRole::Witness)
    } else if crate::text::str_eq(raw_role, "Registrant") {
        Some(PersonRole::Registrant)
    } else if crate::text::str_eq(raw_role, "In-Line Skater") {
        Some(PersonRole::InLineSkater)
    } else if crate::text::str_eq(raw_role, "Passenger") {
        Some(PersonRole::Passenger)
    } else if crate::text::str_eq(raw_role, "Driver") {
        Some(PersonRole::Driver)
    } else if crate::text::str_eq(raw_role, "Policy Holder") {
        Some(PersonRole::PolicyHolder)
    } else if crate::text::str_eq(raw_role, "Owner") {
        Some(PersonRole::Owner)
    } else if crate::text::str_eq(raw_role, "Pedestrian") {
        Some(PersonRole::Pedestrian)
    } else {
        None
    }
}

impl Person {
    /// How a normalized person relates to its raw record.
    pub open spec fn matches_raw(self, raw: RawPersonRecord) -> bool {
        &&& self.person_id == raw.unique_id
        &&& self.person_type == (match raw.person_type {
            Some(s) => person_type_spec(s@),
            None => None::<PersonType>,
        })
        &&& self.person_age == raw.person_age
        &&& self.person_sex == (match raw.person_sex {
            Some(c) => sex_spec(c),
            None => None::<PersonSex>,
        })
        &&& self.person_position_in_vehicle == (match raw.person_position_in_vehicle {
            Some(s) => position_spec(s@),
            None => None::<PersonPositionInVehicle>,
        })
        &&& self.person_role == (match raw.person_ped_role {
            Some(s) => role_spec(s@),
            None => None::<PersonRole>,
        })
        &&& self.crash_id == raw.collision_id
    }

    /// Normalizes one raw person row: the four categorical fields go
    /// through their catalogs, unmatched or absent text stays absent.
    pub fn from(raw: RawPersonRecord) -> (r: Person)
        ensures
            r.matches_raw(raw),
    {
        let person_type = match &raw.person_type {
            Some(s) => extract_person_type(s.as_str()),
            None => None,
        };
        let person_sex = match &raw.person_sex {
            Some(c) => extract_sex(*c),
            None => None,
        };
        let person_position_in_vehicle = match &raw.person_position_in_vehicle {
            Some(s) => extract_position_in_vehicle(s.as_str()),
            None => None,
        };
        let person_role = match &raw.person_ped_role {
            Some(s) => extract_role(s.as_str()),
            None => None,
        };
        Person {
            person_id: raw.unique_id,
            person_type,
            person_age: raw.person_age,
            person_sex,
            person_position_in_vehicle,
            person_role,
            crash_id: raw.collision_id,
        }
    }
}

/// Person normalization is deterministic: any two results for the same
/// raw record agree on every normalized field.
pub proof fn lemma_person_normalization_deterministic(
    p1: Person,
    p2: Person,
    raw: RawPersonRecord,
)
    requires
        p1.matches_raw(raw),
        p2.matches_raw(raw),
    ensures
        p1.person_id@ == p2.person_id@,
        p1.person_type == p2.person_type,
        p1.person_age == p2.person_age,
        p1.person_sex == p2.person_sex,
        p1.person_position_in_vehicle == p2.person_position_in_vehicle,
        p1.person_role == p2.person_role,
        p1.crash_id == p2.crash_id,
{
}

} // verus!
