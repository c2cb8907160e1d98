//! The encounter aggregate: a patient's admission episode as a state machine
//! over domain events.

use crate::aggregate_root::{replay, replay_then_one, AggregateRoot};
use crate::domain_error::DomainError;
use crate::encounter_event::{
    facts, AdmissionFact, EncounterEvent, Fact, PatientAdmitted, PatientDischarged,
    PatientTransferred,
};
use uuid::Uuid;
use vstd::prelude::*;

verus! {

/// The derived state of an encounter as a mathematical value.
pub struct EncounterState {
    pub patient_id: Option<Uuid>,
    pub patient_name: Option<Seq<char>>,
    pub age_in_years: Option<u32>,
    pub ward: Option<u32>,
    pub currently_admitted: Option<bool>,
    pub version: int,
}

impl EncounterState {
    /// The state before any event: nothing is known, and the version is
    /// below zero.
    pub open spec fn initial() -> EncounterState {
        EncounterState {
            patient_id: None,
            patient_name: None,
            age_in_years: None,
            ward: None,
            currently_admitted: None,
            version: -1,
        }
    }

    /// The state once `f` has happened. An admission sets the identity and
    /// the descriptive attributes and admits the patient; a discharge only
    /// ends the admission; a transfer only changes the ward. The version is
    /// never advanced.
    pub open spec fn after(self, f: Fact) -> EncounterState {
        match f {
            Fact::Admitted(a) => EncounterState {
                patient_id: Some(a.patient_id),
                patient_name: Some(a.patient_name),
                age_in_years: Some(a.age_in_years),
                ward: Some(a.ward),
                currently_admitted: Some(true),
                version: self.version,
            },
            Fact::Discharged(_) => EncounterState { currently_admitted: Some(false), ..self },
            Fact::Transferred(t) => EncounterState { ward: Some(t.ward), ..self },
        }
    }
}

/// One clinical encounter: the derived state, and the events raised on it
/// that are not yet persisted.
#[derive(Debug)]
pub struct Encounter {
    pub patient_id: Option<Uuid>,
    pub patient_name: Option<String>,
    pub age_in_years: Option<u32>,
    pub ward: Option<u32>,
    pub currently_admitted: Option<bool>,
    version: i32,
    events: Vec<EncounterEvent>,
}

impl Encounter {
    /// The version counter as a number.
    pub closed spec fn recorded_version(&self) -> int {
        self.version as int
    }

    /// The events in the buffer, oldest first.
    pub closed spec fn buffer(&self) -> Seq<EncounterEvent> {
        self.events@
    }

    /// The name as a sequence of characters, where one is recorded.
    pub closed spec fn name_chars(&self) -> Option<Seq<char>> {
        match self.patient_name {
            Some(name) => Some(name@),
            None => None,
        }
    }

    /// The derived state is what replaying the buffer from the initial state
    /// gives. It holds of an encounter from its construction until its buffer
    /// is cleared.
    pub open spec fn replays_buffer(&self) -> bool {
        self.state() == replay::<Encounter>(EncounterState::initial(), self.uncommitted())
    }
}

impl Default for Encounter {
    /// An encounter to which no event has been applied.
    fn default() -> (encounter: Self)
        ensures
            encounter.state() == EncounterState::initial(),
            encounter.uncommitted() == Seq::<Fact>::empty(),
            encounter.replays_buffer(),
    {
        let encounter = Encounter {
            patient_id: None,
            patient_name: None,
            age_in_years: None,
            ward: None,
            currently_admitted: None,
            version: -1,
            events: Vec::new(),
        };
        assert(facts(encounter.events@) =~= Seq::<Fact>::empty());
        encounter
    }
}

impl AggregateRoot for Encounter {
    type State = EncounterState;

    closed spec fn state(&self) -> EncounterState {
        EncounterState {
            patient_id: self.patient_id,
            patient_name: self.name_chars(),
            age_in_years: self.age_in_years,
            ward: self.ward,
            currently_admitted: self.currently_admitted,
            version: self.recorded_version(),
        }
    }

    open spec fn uncommitted(&self) -> Seq<Fact> {
        facts(self.buffer())
    }

    open spec fn transition(s: EncounterState, f: Fact) -> EncounterState {
        s.after(f)
    }

    open spec fn identity_in(s: EncounterState) -> Option<Uuid> {
        s.patient_id
    }

    open spec fn version_in(s: EncounterState) -> int {
        s.version
    }

    fn events(&self) -> (buffer: &Vec<EncounterEvent>)
        ensures
            buffer@ == self.buffer(),
    {
        &self.events
    }

    fn clear_events(&mut self)
        ensures
            final(self).buffer() == Seq::<EncounterEvent>::empty(),
    {
        self.events.clear();
        assert(facts(self.events@) =~= Seq::<Fact>::empty());
    }

    fn id(&self) -> (identity: Uuid) {
        self.patient_id.unwrap()
    }

    fn version(&self) -> (v: i32) {
        self.version
    }

    fn apply(&mut self, e: &EncounterEvent)
        ensures
            final(self).buffer() == old(self).buffer(),
    {
        match e {
            EncounterEvent::PatientAdmitted(patient_admitted) => self.when_patient_admitted(
                patient_admitted,
            ),
            EncounterEvent::PatientDischarged(_) => self.when_patient_discharged(),
            EncounterEvent::PatientTransferred(patient_transferred) => {
                self.when_patient_transferred(patient_transferred)
            },
        }
    }

    fn raise(&mut self, e: EncounterEvent)
        ensures
            final(self).buffer() == old(self).buffer().push(e),
    {
        self.apply(&e);
        self.events.push(e);
        assert(facts(self.events@) =~= facts(old(self).events@).push(e@));
    }
}

/// Recording keeps replay valid. Where the state of `before` is the replay of
/// its buffer, and `after` is `before` with `f` raised on it, the state of
/// `after` is the replay of its buffer too: rebuilding the encounter from the
/// recorded events gives the state of the live one.
pub proof fn raise_keeps_replay(before: Encounter, after: Encounter, f: Fact)
    requires
        before.replays_buffer(),
        after.state() == before.state().after(f),
        after.uncommitted() == before.uncommitted().push(f),
    ensures
        after.replays_buffer(),
{
    replay_then_one::<Encounter>(EncounterState::initial(), before.uncommitted(), f);
}

impl Encounter {
    /// Admits a patient: a new encounter whose one uncommitted event is the
    /// admission with these values.
    pub fn new(patient_id: Uuid, patient_name: String, age_in_years: u32, ward: u32) -> (encounter:
        Self)
        ensures
            encounter.uncommitted() == seq![
                Fact::Admitted(
                    (AdmissionFact {
                        patient_id,
                        patient_name: patient_name@,
                        age_in_years,
                        ward,
                    }),
                ),
            ],
            encounter.state() == (EncounterState {
                patient_id: Some(patient_id),
                patient_name: Some(patient_name@),
                age_in_years: Some(age_in_years),
                ward: Some(ward),
                currently_admitted: Some(true),
                version: -1,
            }),
            encounter.replays_buffer(),
    {
        let mut encounter = Encounter::default();
        let ghost fresh = encounter;
        encounter.raise(
            EncounterEvent::PatientAdmitted(
                PatientAdmitted { patient_id, patient_name, age_in_years, ward },
            ),
        );
        assert(encounter.uncommitted() =~= seq![
            Fact::Admitted(
                (AdmissionFact { patient_id, patient_name: patient_name@, age_in_years, ward }),
            ),
        ]);
        proof {
            raise_keeps_replay(fresh, encounter, encounter.uncommitted()[0]);
        }
        encounter
    }

    /// Ends the admission. An admitted patient is discharged and the
    /// discharge is recorded; a patient who was discharged before is refused
    /// and nothing changes. The encounter must have been admitted once.
    pub fn discharge_patient(&mut self) -> (outcome: Result<(), DomainError>)
        requires
            old(self).state().patient_id is Some,
            old(self).state().currently_admitted is Some,
        ensures
            match outcome {
                Ok(_) => {
                    &&& old(self).state().currently_admitted == Some(true)
                    &&& final(self).state() == old(self).state().after(
                        Fact::Discharged(
                            (PatientDischarged { patient_id: old(self).state().patient_id->0 }),
                        ),
                    )
                    &&& final(self).uncommitted() == old(self).uncommitted().push(
                        Fact::Discharged(
                            (PatientDischarged { patient_id: old(self).state().patient_id->0 }),
                        ),
                    )
                },
                Err(refusal) => {
                    &&& old(self).state().currently_admitted == Some(false)
                    &&& refusal == DomainError::PatientDischargedError(old(self).state().patient_id->0)
                    &&& *final(self) == *old(self)
                },
            },
            old(self).replays_buffer() ==> final(self).replays_buffer(),
    {
        let patient_id = self.id();
        match self.currently_admitted {
            Some(true) => {
                self.raise(EncounterEvent::PatientDischarged(PatientDischarged { patient_id }));
                proof {
                    if old(self).replays_buffer() {
                        raise_keeps_replay(
                            *old(self),
                            *self,
                            Fact::Discharged(PatientDischarged { patient_id }),
                        );
                    }
                }
                Ok(())
            },
            _ => Err(DomainError::PatientDischargedError(patient_id)),
        }
    }

    /// Moves the patient to `ward`. An admitted patient is moved and the
    /// transfer is recorded; a discharged patient is refused and nothing
    /// changes. The encounter must have been admitted once.
    pub fn transfer(&mut self, ward: u32) -> (outcome: Result<(), DomainError>)
        requires
            old(self).state().patient_id is Some,
            old(self).state().currently_admitted is Some,
        ensures
            match outcome {
                Ok(_) => {
                    &&& old(self).state().currently_admitted == Some(true)
                    &&& final(self).state() == old(self).state().after(
                        Fact::Transferred(
                            (PatientTransferred { patient_id: old(self).state().patient_id->0, ward }),
                        ),
                    )
                    &&& final(self).uncommitted() == old(self).uncommitted().push(
                        Fact::Transferred(
                            (PatientTransferred { patient_id: old(self).state().patient_id->0, ward }),
                        ),
                    )
                },
                Err(refusal) => {
                    &&& old(self).state().currently_admitted == Some(false)
                    &&& refusal == DomainError::PatientTransferredError(
                        old(self).state().patient_id->0,
                        ward,
                    )
                    &&& *final(self) == *old(self)
                },
            },
            old(self).replays_buffer() ==> final(self).replays_buffer(),
    {
        let patient_id = self.id();
        match self.currently_admitted {
            Some(true) => {
                self.raise(
                    EncounterEvent::PatientTransferred(PatientTransferred { patient_id, ward }),
                );
                proof {
                    if old(self).replays_buffer() {
                        raise_keeps_replay(
                            *old(self),
                            *self,
                            Fact::Transferred(PatientTransferred { patient_id, ward }),
                        );
                    }
                }
                Ok(())
            },
            _ => Err(DomainError::PatientTransferredError(patient_id, ward)),
        }
    }

    fn when_patient_admitted(&mut self, e: &PatientAdmitted)
        ensures
            final(self).state() == old(self).state().after(Fact::Admitted(e@)),
            final(self).buffer() == old(self).buffer(),
    {
        self.patient_id = Some(e.patient_id);
        self.currently_admitted = Some(true);
        self.patient_name = Some(e.patient_name.clone());
        self.age_in_years = Some(e.age_in_years);
        self.ward = Some(e.ward);
    }

    fn when_patient_discharged(&mut self)
        ensures
            final(self).state() == (EncounterState {
                currently_admitted: Some(false),
                ..old(self).state()
            }),
            final(self).buffer() == old(self).buffer(),
    {
        self.currently_admitted = Some(false);
    }

    fn when_patient_transferred(&mut self, e: &PatientTransferred)
        ensures
            final(self).state() == (EncounterState { ward: Some(e.ward), ..old(self).state() }),
            final(self).buffer() == old(self).buffer(),
    {
        self.ward = Some(e.ward);
    }
}

} // verus!
