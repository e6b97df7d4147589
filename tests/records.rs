use who_has_phone::{Person, WhoHasPhoneApp, AGE_LIMIT, DEFAULT_AGE};

fn person(name: &str, age: usize, has_phone: bool) -> Person {
    Person::new(name.to_string(), age, has_phone)
}

fn fresh() -> Person {
    person("New Person", 13, false)
}

#[test]
fn default_person_fields() {
    let p = Person::default();
    assert_eq!(p.name(), "New Person");
    assert_eq!(p.age(), 13);
    assert_eq!(p.age(), DEFAULT_AGE);
    assert!(!p.has_phone());
}

#[test]
fn default_state_is_empty_and_closed() {
    let app = WhoHasPhoneApp::default();
    assert!(app.people().is_empty());
    assert!(!app.is_dialog_open());
    assert!(*app.draft() == fresh());
}

#[test]
fn equality_compares_every_field() {
    assert!(person("Alice", 30, true) == person("Alice", 30, true));
    assert!(person("Alice", 30, true) != person("Alicia", 30, true));
    assert!(person("Alice", 30, true) != person("Alice", 31, true));
    assert!(person("Alice", 30, true) != person("Alice", 30, false));
}

#[test]
fn clone_and_duplicate_keep_fields() {
    let p = person("Bob", 42, true);
    assert!(p.clone() == p);
    assert!(p.duplicate() == p);
}

#[test]
fn display_label_is_the_name() {
    assert_eq!(person("Carol", 7, false).to_display_label(), "Carol");
    assert_eq!(person("", 0, true).to_display_label(), "");
}

#[test]
fn adds_keep_count_and_order() {
    let mut app = WhoHasPhoneApp::default();
    let names = ["a", "b", "c", "d", "e"];
    for (k, n) in names.iter().enumerate() {
        app.add(person(n, k, k % 2 == 0));
        assert_eq!(app.people().len(), k + 1);
    }
    for (k, n) in names.iter().enumerate() {
        assert!(app.people()[k] == person(n, k, k % 2 == 0));
    }
}

#[test]
fn add_accepts_duplicates_and_any_age() {
    let mut app = WhoHasPhoneApp::default();
    app.add(person("Dup", 500, false));
    app.add(person("Dup", 500, false));
    assert_eq!(app.people().len(), 2);
    assert_eq!(app.people()[1].age(), 500);
}

#[test]
fn submit_appends_draft_and_resets_it() {
    let mut app = WhoHasPhoneApp::default();
    app.open_add_dialog();
    assert!(app.is_dialog_open());
    assert!(*app.draft() == fresh());
    app.set_draft_name("Alice".to_string());
    app.set_draft_age(30);
    app.set_draft_has_phone(true);
    assert!(*app.draft() == person("Alice", 30, true));
    app.submit_draft();
    assert_eq!(app.people().len(), 1);
    assert!(app.people()[0] == person("Alice", 30, true));
    assert!(*app.draft() == fresh());
    assert!(!app.is_dialog_open());
}

#[test]
fn cancel_keeps_records_and_resets_draft() {
    let mut app = WhoHasPhoneApp::default();
    app.add(person("Zed", 50, true));
    app.open_add_dialog();
    app.set_draft_name("Eve".to_string());
    app.set_draft_age(AGE_LIMIT - 1);
    app.set_draft_has_phone(true);
    app.cancel_add_dialog();
    assert_eq!(app.people().len(), 1);
    assert!(app.people()[0] == person("Zed", 50, true));
    assert!(*app.draft() == fresh());
    assert!(!app.is_dialog_open());
}

#[test]
fn find_gives_first_match() {
    let mut app = WhoHasPhoneApp::default();
    app.add(person("A", 1, false));
    app.add(person("B", 2, true));
    app.add(person("A", 1, false));
    assert_eq!(app.find_person(&person("A", 1, false)), Some(0));
    assert_eq!(app.find_person(&person("B", 2, true)), Some(1));
    assert_eq!(app.find_person(&person("B", 2, false)), None);
}

#[test]
fn delete_present_removes_one() {
    let mut app = WhoHasPhoneApp::default();
    app.add(person("A", 1, false));
    app.add(person("B", 2, true));
    app.add(person("C", 3, false));
    let removed = app.delete_person(&person("B", 2, true));
    assert!(removed == Some(person("B", 2, true)));
    assert_eq!(app.people().len(), 2);
    assert!(app.people()[0] == person("A", 1, false));
    assert!(app.people()[1] == person("C", 3, false));
}

#[test]
fn delete_duplicate_removes_lowest_index() {
    let mut app = WhoHasPhoneApp::default();
    app.add(person("X", 9, true));
    app.add(person("Y", 8, false));
    app.add(person("X", 9, true));
    let removed = app.delete_person(&person("X", 9, true));
    assert!(removed.is_some());
    assert_eq!(app.people().len(), 2);
    assert!(app.people()[0] == person("Y", 8, false));
    assert!(app.people()[1] == person("X", 9, true));
}

#[test]
fn delete_absent_changes_nothing() {
    let mut app = WhoHasPhoneApp::default();
    app.add(person("A", 1, false));
    let removed = app.delete_person(&person("A", 1, true));
    assert!(removed.is_none());
    assert_eq!(app.people().len(), 1);
    assert!(app.people()[0] == person("A", 1, false));
    let mut empty = WhoHasPhoneApp::default();
    assert!(empty.delete_person(&fresh()).is_none());
    assert!(empty.people().is_empty());
}

#[test]
fn restore_keeps_records_and_closes_dialog() {
    let mut app = WhoHasPhoneApp::default();
    app.add(person("A", 1, false));
    app.add(person("B", 2, true));
    app.open_add_dialog();
    app.set_draft_name("Half typed".to_string());
    let saved: Vec<Person> = app.people().clone();
    let back = WhoHasPhoneApp::restore(saved);
    assert_eq!(back.people().len(), 2);
    assert!(back.people()[0] == person("A", 1, false));
    assert!(back.people()[1] == person("B", 2, true));
    assert!(!back.is_dialog_open());
    assert!(*back.draft() == fresh());
}

#[test]
fn open_keeps_edits_of_an_open_dialog() {
    let mut app = WhoHasPhoneApp::default();
    app.open_add_dialog();
    app.set_draft_age(0);
    app.open_add_dialog();
    assert_eq!(app.draft().age(), 0);
    assert!(app.people().is_empty());
}
