use vstd::prelude::*;

use crate::person::{default_person, Person, PersonView, AGE_LIMIT};

verus! {

/// The mathematical value of a [`WhoHasPhoneApp`].
pub ghost struct AppView {
    /// The committed records, in insertion order.
    pub people: Seq<PersonView>,
    /// Whether the add dialog is open.
    pub dialog_open: bool,
    /// The record being edited in the add dialog.
    pub draft: PersonView,
}

/// The records left after removing the first record equal to `target`;
/// the records unchanged when there is none.
pub open spec fn after_delete(people: Seq<PersonView>, target: PersonView) -> Seq<PersonView> {
    match people.index_of_first(target) {
        Some(i) => people.remove(i),
        None => people,
    }
}

/// The records after appending each of `added` in turn.
pub open spec fn after_adds(people: Seq<PersonView>, added: Seq<PersonView>) -> Seq<PersonView>
    decreases added.len(),
{
    if added.len() == 0 {
        people
    } else {
        after_adds(people, added.drop_last()).push(added.last())
    }
}

/// The state rebuilt from saved records: those records, the dialog closed,
/// and a fresh draft.
pub open spec fn restored(people: Seq<PersonView>) -> AppView {
    AppView { people, dialog_open: false, draft: default_person() }
}

/// Adding records one after another, with no delete between, leaves the
/// earlier records followed by exactly the added ones, in the order they were
/// added: from an empty list, N adds give N records.
pub proof fn lemma_adds_keep_order(people: Seq<PersonView>, added: Seq<PersonView>)
    ensures
        after_adds(people, added) == people + added,
        after_adds(people, added).len() == people.len() + added.len(),
        people.len() == 0 ==> after_adds(people, added) == added,
    decreases added.len(),
{
    if added.len() > 0 {
        lemma_adds_keep_order(people, added.drop_last());
        assert(people + added.drop_last().push(added.last()) =~= people + added);
    } else {
        assert(people + added =~= people);
    }
    if people.len() == 0 {
        assert(people + added =~= added);
    }
}

/// Deleting a record that is present removes exactly one record: the first
/// one equal to it. The records before it and after it keep their order.
pub proof fn lemma_delete_present(people: Seq<PersonView>, target: PersonView)
    requires
        people.contains(target),
    ensures
        after_delete(people, target).len() == people.len() - 1,
        exists|i: int|
            0 <= i < people.len() && people[i] == target && (forall|j: int|
                0 <= j < i ==> people[j] != target) && after_delete(people, target)
                == people.remove(i),
{
    people.index_of_first_ensures(target);
    let i = people.index_of_first(target).unwrap();
    assert(0 <= i < people.len() && people[i] == target && (forall|j: int|
        0 <= j < i ==> people[j] != target) && after_delete(people, target) == people.remove(i));
}

/// Of two equal records, deleting that value removes the earlier one only:
/// the later one is still there, one place further forward.
pub proof fn lemma_delete_duplicate(people: Seq<PersonView>, target: PersonView, i: int, j: int)
    requires
        0 <= i < j < people.len(),
        people[i] == target,
        people[j] == target,
    ensures
        after_delete(people, target).len() == people.len() - 1,
        after_delete(people, target)[j - 1] == target,
        after_delete(people, target).contains(target),
{
    people.index_of_first_ensures(target);
    assert(people.contains(target));
    let k = people.index_of_first(target).unwrap();
    assert(k <= i);
    let rest = after_delete(people, target);
    assert(rest[j - 1] == people[j]);
    assert(rest.contains(target));
}

/// Deleting a record that is not present leaves the records as they were.
pub proof fn lemma_delete_absent(people: Seq<PersonView>, target: PersonView)
    requires
        !people.contains(target),
    ensures
        after_delete(people, target) == people,
{
    people.index_of_first_ensures(target);
}

/// Saving the records of any state and rebuilding a state from them gives
/// back the same records, with the dialog closed and a fresh draft, whatever
/// the dialog and the draft were when saved.
pub proof fn lemma_restore_round_trip(state: AppView)
    ensures
        restored(state.people).people == state.people,
        !restored(state.people).dialog_open,
        restored(state.people).draft == default_person(),
{
}

/// The whole application state: the records, and the add dialog with its draft.
pub struct WhoHasPhoneApp {
    people: Vec<Person>,
    add_person_modal_open: bool,
    mut_person: Person,
}

impl View for WhoHasPhoneApp {
    type V = AppView;

    closed spec fn view(&self) -> AppView {
        AppView {
            people: self.people@.map_values(|p: Person| p@),
            dialog_open: self.add_person_modal_open,
            draft: self.mut_person@,
        }
    }
}

impl WhoHasPhoneApp {
    /// The draft is a fresh record whenever the dialog is closed.
    pub open spec fn wf(&self) -> bool {
        !self@.dialog_open ==> self@.draft == default_person()
    }

    /// A state built from saved records. The dialog starts closed with a
    /// fresh draft, whatever it was when the records were saved.
    pub fn restore(people: Vec<Person>) -> (r: WhoHasPhoneApp)
        ensures
            r@ == restored(people@.map_values(|p: Person| p@)),
            r.wf(),
    {
        WhoHasPhoneApp { people, add_person_modal_open: false, mut_person: Person::default() }
    }

    /// The committed records, in insertion order.
    pub fn people(&self) -> (r: &Vec<Person>)
        ensures
            r@.map_values(|p: Person| p@) == self@.people,
    {
        &self.people
    }

    pub fn is_dialog_open(&self) -> (r: bool)
        ensures
            r == self@.dialog_open,
    {
        self.add_person_modal_open
    }

    /// The record being edited in the add dialog.
    pub fn draft(&self) -> (r: &Person)
        ensures
            r@ == self@.draft,
    {
        &self.mut_person
    }

    /// Appends a record at the end, whatever its fields.
    pub fn add(&mut self, person: Person)
        requires
            old(self).wf(),
        ensures
            final(self)@ == (AppView { people: old(self)@.people.push(person@), ..old(self)@ }),
            final(self).wf(),
    {
        self.people.push(person);
        assert(self@.people =~= old(self)@.people.push(person@));
    }

    /// Position of the first record equal to `target`, if any.
    pub fn find_person(&self, target: &Person) -> (r: Option<usize>)
        ensures
            match r {
                Some(i) => self@.people.index_of_first(target@) == Some(i as int),
                None => self@.people.index_of_first(target@) == None::<int>,
            },
    {
        let ghost s = self@.people;
        let mut i: usize = 0;
        while i < self.people.len()
            invariant
                s == self@.people,
                i <= s.len(),
                forall|j: int| 0 <= j < i ==> s[j] != target@,
            decreases self.people.len() - i,
        {
            if self.people[i] == *target {
                assert(s[i as int] == target@);
                assert(s.contains(target@));
                proof {
                    s.index_of_first_ensures(target@);
                }
                let ghost k = s.index_of_first(target@).unwrap();
                assert(k == i) by {
                    if k < i {
                        assert(s[k] != target@);
                    } else if k > i {
                        assert(s[i as int] != target@);
                    }
                }
                return Some(i);
            }
            i = i + 1;
        }
        proof {
            s.index_of_first_ensures(target@);
        }
        None
    }

    /// Removes the first record equal to `target` and hands it back. When no
    /// record is equal to it, nothing changes and `None` comes back.
    pub fn delete_person(&mut self, target: &Person) -> (r: Option<Person>)
        requires
            old(self).wf(),
        ensures
            final(self)@ == (AppView {
                people: after_delete(old(self)@.people, target@),
                ..old(self)@
            }),
            r is Some <==> old(self)@.people.contains(target@),
            r matches Some(p) ==> p@ == target@,
            final(self).wf(),
    {
        let ghost s = self@.people;
        proof {
            s.index_of_first_ensures(target@);
        }
        match self.find_person(target) {
            Some(i) => {
                let removed = self.people.remove(i);
                assert(self@.people =~= s.remove(i as int));
                Some(removed)
            },
            None => None,
        }
    }

    /// Opens the add dialog; the draft is then a fresh record.
    pub fn open_add_dialog(&mut self)
        requires
            old(self).wf(),
        ensures
            final(self)@ == (AppView { dialog_open: true, ..old(self)@ }),
            !old(self)@.dialog_open ==> final(self)@.draft == default_person(),
            final(self).wf(),
    {
        self.add_person_modal_open = true;
    }

    /// Sets the name of the draft.
    pub fn set_draft_name(&mut self, name: String)
        requires
            old(self).wf(),
            old(self)@.dialog_open,
        ensures
            final(self)@ == (AppView {
                draft: PersonView { name: name@, ..old(self)@.draft },
                ..old(self)@
            }),
            final(self).wf(),
    {
        self.mut_person = Person::new(name, self.mut_person.age(), self.mut_person.has_phone());
    }

    /// Sets the age of the draft, one of the ages the dialog offers.
    pub fn set_draft_age(&mut self, age: usize)
        requires
            old(self).wf(),
            old(self)@.dialog_open,
            age < AGE_LIMIT,
        ensures
            final(self)@ == (AppView {
                draft: PersonView { age, ..old(self)@.draft },
                ..old(self)@
            }),
            final(self).wf(),
    {
        let name = self.mut_person.to_display_label();
        self.mut_person = Person::new(name, age, self.mut_person.has_phone());
    }

    /// Sets whether the draft has a phone.
    pub fn set_draft_has_phone(&mut self, has_phone: bool)
        requires
            old(self).wf(),
            old(self)@.dialog_open,
        ensures
            final(self)@ == (AppView {
                draft: PersonView { has_phone, ..old(self)@.draft },
                ..old(self)@
            }),
            final(self).wf(),
    {
        let name = self.mut_person.to_display_label();
        self.mut_person = Person::new(name, self.mut_person.age(), has_phone);
    }

    /// Commits the draft: a copy of it goes to the end of the records, the
    /// draft starts over and the dialog closes.
    pub fn submit_draft(&mut self)
        requires
            old(self).wf(),
        ensures
            final(self)@ == (AppView {
                people: old(self)@.people.push(old(self)@.draft),
                dialog_open: false,
                draft: default_person(),
            }),
            final(self).wf(),
    {
        let committed = self.mut_person.duplicate();
        self.people.push(committed);
        self.mut_person = Person::default();
        self.add_person_modal_open = false;
        assert(self@.people =~= old(self)@.people.push(old(self)@.draft));
    }

    /// Dismisses the dialog: the draft starts over and the records stay as
    /// they were.
    pub fn cancel_add_dialog(&mut self)
        requires
            old(self).wf(),
        ensures
            final(self)@ == (AppView { dialog_open: false, draft: default_person(), ..old(self)@ }),
            final(self).wf(),
    {
        self.mut_person = Person::default();
        self.add_person_modal_open = false;
    }
}

impl Default for WhoHasPhoneApp {
    fn default() -> (r: WhoHasPhoneApp)
        ensures
            r@ == restored(Seq::empty()),
            r.wf(),
    {
        let people: Vec<Person> = Vec::new();
        assert(people@.map_values(|p: Person| p@) =~= Seq::<PersonView>::empty());
        WhoHasPhoneApp::restore(people)
    }
}

} // verus!
