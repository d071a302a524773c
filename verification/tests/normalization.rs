use nyc_incidents::base_database::crash::{extract_contributing_factor, Crash, CrashFactor};
use nyc_incidents::base_database::person::{
    extract_person_type, extract_position_in_vehicle, extract_role, extract_sex, Person,
    PersonPositionInVehicle, PersonRole, PersonSex, PersonType,
};
use nyc_incidents::calendar::{Date, TimeOfDay};
use nyc_incidents::raw::crashes::RawCrashRecord;
use nyc_incidents::raw::persons::RawPersonRecord;

fn crash_row() -> Vec<String> {
    let mut fields: Vec<String> = vec![String::new(); 24];
    fields[0] = "09/23/2021".to_string();
    fields[1] = "7:05".to_string();
    fields[10] = "2".to_string();
    fields[11] = "0".to_string();
    fields[12] = "1".to_string();
    fields[13] = "not a number".to_string();
    fields[14] = "0".to_string();
    fields[15] = "0".to_string();
    fields[16] = "1".to_string();
    fields[17] = "0".to_string();
    fields[18] = "Driver Inattention/Distraction".to_string();
    fields[19] = "  unsafe speed ".to_string();
    fields[20] = "Some Legacy Phrase".to_string();
    fields[21] = String::new();
    fields[22] = String::new();
    fields[23] = "4455667".to_string();
    fields
}

#[test]
fn crash_factor_exact_phrases() {
    assert_eq!(
        extract_contributing_factor("cell phone (hand-held)"),
        Some(CrashFactor::CellPhoneHandHeld)
    );
    assert_eq!(
        extract_contributing_factor("driverless/runaway vehicle"),
        Some(CrashFactor::DriverlessRunawayVehicle)
    );
    assert_eq!(
        extract_contributing_factor("pedestrian/bicyclist/other pedestrian error/confusion"),
        Some(CrashFactor::PedestrianBicyclistOtherPedestrianErrorConfusion)
    );
    assert_eq!(extract_contributing_factor("pavement slippery"), Some(CrashFactor::PavementSlippery));
}

#[test]
fn crash_factor_case_and_whitespace_insensitive() {
    assert_eq!(extract_contributing_factor("TEXTING"), Some(CrashFactor::Texting));
    assert_eq!(extract_contributing_factor("  Texting \t"), Some(CrashFactor::Texting));
    assert_eq!(
        extract_contributing_factor(" AGGRESSIVE DRIVING/ROAD RAGE\n"),
        Some(CrashFactor::AggressiveDrivingRoadRage)
    );
    assert_eq!(
        extract_contributing_factor("Fell Asleep"),
        extract_contributing_factor("fell asleep")
    );
}

#[test]
fn crash_factor_unknown_is_absent() {
    assert_eq!(extract_contributing_factor(""), None);
    assert_eq!(extract_contributing_factor("   "), None);
    assert_eq!(extract_contributing_factor("Unspecified"), None);
    assert_eq!(extract_contributing_factor("texting while driving"), None);
}

#[test]
fn crash_from_row_and_normalization() {
    let raw = RawCrashRecord::from_row(&crash_row()).unwrap();
    assert_eq!(raw.collision_id, 4455667);
    assert_eq!(raw.crash_date, Date { year: 2021, month: 9, day: 23 });
    assert_eq!(raw.crash_time, TimeOfDay { hour: 7, minute: 5 });
    assert_eq!(raw.number_of_persons_injured, 2);
    assert_eq!(raw.number_of_pedestrians_killed, 0, "unparsable count defaults to zero");
    let crash = Crash::from(raw);
    assert_eq!(crash.crash_id, 4455667);
    assert_eq!(crash.crash_timestamp.date, Date { year: 2021, month: 9, day: 23 });
    assert_eq!(crash.crash_timestamp.time, TimeOfDay { hour: 7, minute: 5 });
    assert_eq!(crash.crash_factor_1, Some(CrashFactor::DriverInattentionDistraction));
    assert_eq!(crash.crash_factor_2, Some(CrashFactor::UnsafeSpeed));
    assert_eq!(crash.crash_factor_3, None);
    assert_eq!(crash.crash_factor_4, None);
    assert_eq!(crash.crash_factor_5, None);
}

#[test]
fn crash_normalization_is_deterministic() {
    let raw = RawCrashRecord::from_row(&crash_row()).unwrap();
    let once = Crash::from(raw.clone());
    let twice = Crash::from(raw);
    assert_eq!(once, twice);
}

fn person_row() -> Vec<String> {
    let mut fields: Vec<String> = vec![String::new(); 21];
    fields[0] = "10249007".to_string();
    fields[1] = "3565527".to_string();
    fields[2] = "12/31/2016".to_string();
    fields[3] = "23:59".to_string();
    fields[5] = "Occupant".to_string();
    fields[8] = "33".to_string();
    fields[12] = "Middle rear seat, or passenger lying across a seat".to_string();
    fields[17] = "Passenger".to_string();
    fields[20] = "F".to_string();
    fields
}

#[test]
fn person_from_row_and_normalization() {
    let raw = RawPersonRecord::from_row(&person_row()).unwrap();
    assert_eq!(raw.unique_id, "10249007".to_string());
    assert_eq!(raw.collision_id, 3565527);
    assert_eq!(raw.person_age, Some(33));
    assert_eq!(raw.person_sex, Some('F'));
    let p = Person::from(raw);
    assert_eq!(p.person_id, "10249007".to_string());
    assert_eq!(p.crash_id, 3565527);
    assert_eq!(p.person_type, Some(PersonType::Occupant));
    assert_eq!(p.person_age, Some(33));
    assert_eq!(p.person_sex, Some(PersonSex::Female));
    assert_eq!(p.person_position_in_vehicle, Some(PersonPositionInVehicle::Rear));
    assert_eq!(p.person_role, Some(PersonRole::Passenger));
}

#[test]
fn person_optional_fields_fall_to_absent() {
    let mut fields = person_row();
    fields[5] = String::new();
    fields[8] = "abc".to_string();
    fields[12] = "Does not apply".to_string();
    fields[17] = String::new();
    fields[20] = String::new();
    let p = Person::from(RawPersonRecord::from_row(&fields).unwrap());
    assert_eq!(p.person_type, None);
    assert_eq!(p.person_age, None);
    assert_eq!(p.person_sex, None);
    assert_eq!(p.person_position_in_vehicle, None);
    assert_eq!(p.person_role, None);
}

#[test]
fn person_type_catalog() {
    assert_eq!(extract_person_type("Pedestrian"), Some(PersonType::Pedestrian));
    assert_eq!(extract_person_type("Other Motorized"), Some(PersonType::OtherMotorized));
    assert_eq!(extract_person_type("pedestrian"), None, "the person-type lookup is exact-case");
    assert_eq!(extract_person_type(""), None);
}

#[test]
fn sex_codes() {
    assert_eq!(extract_sex('F'), Some(PersonSex::Female));
    assert_eq!(extract_sex('M'), Some(PersonSex::Male));
    assert_eq!(extract_sex('U'), None);
    assert_eq!(extract_sex('f'), None);
}

#[test]
fn rear_seat_phrasings_map_to_rear() {
    assert_eq!(
        extract_position_in_vehicle("Middle rear seat, or passenger lying across a seat"),
        Some(PersonPositionInVehicle::Rear)
    );
    assert_eq!(
        extract_position_in_vehicle("Right rear passenger or motorcycle sidecar passenger"),
        Some(PersonPositionInVehicle::Rear)
    );
    assert_eq!(
        extract_position_in_vehicle(
            "Left rear passenger, or rear passenger on a bicycle, motorcycle, snowmobile"
        ),
        Some(PersonPositionInVehicle::Rear)
    );
    assert_eq!(extract_position_in_vehicle("Driver"), Some(PersonPositionInVehicle::Driver));
    assert_eq!(
        extract_position_in_vehicle("Riding/Hanging on Outside"),
        Some(PersonPositionInVehicle::Outside)
    );
    assert_eq!(extract_position_in_vehicle("Unknown"), None);
}

#[test]
fn role_catalog() {
    assert_eq!(extract_role("In-Line Skater"), Some(PersonRole::InLineSkater));
    assert_eq!(extract_role("Policy Holder"), Some(PersonRole::PolicyHolder));
    assert_eq!(extract_role("Notified Person"), Some(PersonRole::NotifiedPerson));
    assert_eq!(extract_role("Bystander"), None);
}
