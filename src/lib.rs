//! A small record book of people: each record holds a name, an age and
//! whether the person has a phone. Records are added through an editing
//! buffer (the draft) while the add dialog is open, and removed by value.

mod person;
mod state;

pub use person::{default_person, Person, PersonView, AGE_LIMIT, DEFAULT_AGE};
pub use state::{
    after_adds, after_delete, lemma_adds_keep_order, lemma_delete_absent, lemma_delete_duplicate,
    lemma_delete_present, lemma_restore_round_trip, restored, AppView, WhoHasPhoneApp,
};
