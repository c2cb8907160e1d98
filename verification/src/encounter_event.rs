//! The closed set of facts that can happen to an encounter.

use uuid::Uuid;
use vstd::prelude::*;

verus! {

/// `uuid::Uuid`, carried through as an opaque identity: contracts compare two
/// identities for equality and never look inside one.
#[verifier::external_type_specification]
#[verifier::external_body]
pub struct ExUuid(uuid::Uuid);

/// Any fact recorded about an encounter.
#[derive(Debug, PartialEq)]
pub enum EncounterEvent {
    PatientAdmitted(PatientAdmitted),
    PatientDischarged(PatientDischarged),
    PatientTransferred(PatientTransferred),
}

/// The encounter begins.
#[derive(Debug, PartialEq)]
pub struct PatientAdmitted {
    pub patient_id: Uuid,
    pub patient_name: String,
    pub age_in_years: u32,
    pub ward: u32,
}

/// The encounter ends.
#[derive(Debug, PartialEq)]
pub struct PatientDischarged {
    pub patient_id: Uuid,
}

/// The patient moves to another ward.
#[derive(Debug, PartialEq)]
pub struct PatientTransferred {
    pub patient_id: Uuid,
    pub ward: u32,
}

/// What a `PatientAdmitted` says, with the name as a sequence of characters.
pub struct AdmissionFact {
    pub patient_id: Uuid,
    pub patient_name: Seq<char>,
    pub age_in_years: u32,
    pub ward: u32,
}

/// What an `EncounterEvent` says: the mathematical value that contracts and
/// the replay function speak of.
pub enum Fact {
    Admitted(AdmissionFact),
    Discharged(PatientDischarged),
    Transferred(PatientTransferred),
}

impl View for PatientAdmitted {
    type V = AdmissionFact;

    open spec fn view(&self) -> AdmissionFact {
        AdmissionFact {
            patient_id: self.patient_id,
            patient_name: self.patient_name@,
            age_in_years: self.age_in_years,
            ward: self.ward,
        }
    }
}

impl View for EncounterEvent {
    type V = Fact;

    open spec fn view(&self) -> Fact {
        match *self {
            EncounterEvent::PatientAdmitted(e) => Fact::Admitted(e@),
            EncounterEvent::PatientDischarged(e) => Fact::Discharged(e),
            EncounterEvent::PatientTransferred(e) => Fact::Transferred(e),
        }
    }
}

/// The facts of a sequence of events, in the same order.
pub open spec fn facts(events: Seq<EncounterEvent>) -> Seq<Fact> {
    events.map_values(|e: EncounterEvent| e@)
}

} // verus!
