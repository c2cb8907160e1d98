use encounter::aggregate_root::AggregateRoot;
use encounter::domain_error::DomainError;
use encounter::encounter_aggregate::Encounter;
use encounter::encounter_event::{
    EncounterEvent, PatientAdmitted, PatientDischarged, PatientTransferred,
};
use uuid::Uuid;

fn fred(id: Uuid) -> Encounter {
    Encounter::new(id, "Fred Jones".to_string(), 32, 45)
}

fn admitted(id: Uuid, ward: u32) -> EncounterEvent {
    EncounterEvent::PatientAdmitted(PatientAdmitted {
        patient_id: id,
        patient_name: "Fred Jones".to_string(),
        age_in_years: 32,
        ward,
    })
}

#[test]
fn admission_records_one_event_with_the_arguments() {
    let id = Uuid::from_u128(0x0123_4567_89ab_cdef_0123_4567_89ab_cdef);
    let encounter = fred(id);
    assert_eq!(encounter.events(), &vec![admitted(id, 45)]);
    assert_eq!(encounter.patient_id, Some(id));
    assert_eq!(encounter.patient_name, Some("Fred Jones".to_string()));
    assert_eq!(encounter.age_in_years, Some(32));
    assert_eq!(encounter.ward, Some(45));
    assert_eq!(encounter.currently_admitted, Some(true));
    assert_eq!(encounter.id(), id);
    assert_eq!(encounter.version(), -1);
}

#[test]
fn admission_keeps_an_empty_name_and_extreme_numbers() {
    let id = Uuid::nil();
    let encounter = Encounter::new(id, String::new(), u32::MAX, 0);
    assert_eq!(
        encounter.events(),
        &vec![EncounterEvent::PatientAdmitted(PatientAdmitted {
            patient_id: id,
            patient_name: String::new(),
            age_in_years: u32::MAX,
            ward: 0,
        })]
    );
    assert_eq!(encounter.patient_name, Some(String::new()));
    assert_eq!(encounter.age_in_years, Some(u32::MAX));
    assert_eq!(encounter.ward, Some(0));
    assert_eq!(encounter.currently_admitted, Some(true));
}

#[test]
fn discharge_then_discharge_again() {
    let id = Uuid::new_v4();
    let mut encounter = fred(id);
    assert!(encounter.discharge_patient().is_ok());
    assert_eq!(
        encounter.events(),
        &vec![
            admitted(id, 45),
            EncounterEvent::PatientDischarged(PatientDischarged { patient_id: id }),
        ]
    );
    assert_eq!(encounter.currently_admitted, Some(false));
    assert_eq!(encounter.ward, Some(45));

    match encounter.discharge_patient() {
        Err(DomainError::PatientDischargedError(refused)) => assert_eq!(refused, id),
        other => panic!("expected a refused discharge, got {:?}", other),
    }
    assert_eq!(encounter.events().len(), 2);
    assert_eq!(
        encounter.events(),
        &vec![
            admitted(id, 45),
            EncounterEvent::PatientDischarged(PatientDischarged { patient_id: id }),
        ]
    );
    assert_eq!(encounter.currently_admitted, Some(false));
    assert_eq!(encounter.patient_id, Some(id));
}

#[test]
fn transfer_of_an_admitted_patient() {
    let id = Uuid::new_v4();
    let mut encounter = fred(id);
    assert!(encounter.transfer(22).is_ok());
    assert_eq!(
        encounter.events(),
        &vec![
            admitted(id, 45),
            EncounterEvent::PatientTransferred(PatientTransferred { patient_id: id, ward: 22 }),
        ]
    );
    assert_eq!(encounter.ward, Some(22));
    assert_eq!(encounter.currently_admitted, Some(true));
    assert_eq!(encounter.patient_id, Some(id));
    assert_eq!(encounter.patient_name, Some("Fred Jones".to_string()));
    assert_eq!(encounter.age_in_years, Some(32));
}

#[test]
fn transfer_of_a_discharged_patient() {
    let id = Uuid::new_v4();
    let mut encounter = fred(id);
    encounter.discharge_patient().unwrap();
    match encounter.transfer(22) {
        Err(DomainError::PatientTransferredError(refused, ward)) => {
            assert_eq!(refused, id);
            assert_eq!(ward, 22);
        }
        other => panic!("expected a refused transfer, got {:?}", other),
    }
    assert_eq!(encounter.events().len(), 2);
    assert_eq!(encounter.ward, Some(45));
    assert_eq!(encounter.currently_admitted, Some(false));
}

#[test]
fn two_transfers_are_recorded_in_order() {
    let id = Uuid::new_v4();
    let mut encounter = fred(id);
    encounter.transfer(22).unwrap();
    encounter.transfer(7).unwrap();
    encounter.discharge_patient().unwrap();
    assert_eq!(
        encounter.events(),
        &vec![
            admitted(id, 45),
            EncounterEvent::PatientTransferred(PatientTransferred { patient_id: id, ward: 22 }),
            EncounterEvent::PatientTransferred(PatientTransferred { patient_id: id, ward: 7 }),
            EncounterEvent::PatientDischarged(PatientDischarged { patient_id: id }),
        ]
    );
    assert_eq!(encounter.ward, Some(7));
    assert_eq!(encounter.currently_admitted, Some(false));
}

#[test]
fn version_is_not_advanced_by_events() {
    let mut encounter = fred(Uuid::new_v4());
    assert_eq!(encounter.version(), -1);
    encounter.transfer(3).unwrap();
    encounter.discharge_patient().unwrap();
    assert_eq!(encounter.version(), -1);
}
