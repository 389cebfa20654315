use hypermedia_systems_rust::model::Contact;
use hypermedia_systems_rust::model::ContactAttributes;
use hypermedia_systems_rust::model::ContactId;
use hypermedia_systems_rust::store::ContactStore;
use hypermedia_systems_rust::store::Selection;

fn person(first: &str, last: &str, phone: &str, email: &str) -> ContactAttributes {
    ContactAttributes {
        first_name: first.to_string(),
        last_name: last.to_string(),
        phone: phone.to_string(),
        email_address: email.to_string(),
    }
}

fn numbered(count: u32) -> ContactStore {
    let mut store = ContactStore::new();
    for n in 1..=count {
        let added = store.insert(person(
            &format!("First{}", n),
            &format!("Last{}", n),
            &format!("555-{:04}", n),
            &format!("person{}@example.com", n),
        ));
        assert!(added.is_some());
    }
    store
}

fn ids(rows: &[Contact]) -> Vec<i32> {
    rows.iter().map(|row| row.id.value()).collect()
}

#[test]
fn new_store_is_empty() {
    let store = ContactStore::new();
    assert_eq!(store.count(), 0);
    assert!(store.all().is_empty());
    assert!(store.find(ContactId::new(1)).is_none());
}

#[test]
fn insert_hands_out_ascending_identifiers() {
    let mut store = ContactStore::new();
    let ada = store.insert(person("Ada", "Lovelace", "555-0100", "ada@example.com")).unwrap();
    let alan = store.insert(person("Alan", "Turing", "555-0142", "alan@example.com")).unwrap();
    assert_eq!(ada.id, ContactId::new(1));
    assert_eq!(alan.id, ContactId::new(2));
    assert_eq!(ada.first_name, "Ada");
    assert_eq!(alan.last_name, "Turing");
    assert_eq!(store.count(), 2);
    assert_eq!(ids(&store.all()), vec![1, 2]);
}

#[test]
fn inserted_contact_is_found_with_its_fields() {
    let mut store = numbered(3);
    let added = store.insert(person("Ada", "Lovelace", "555-0100", "ada@example.com")).unwrap();
    let found = store.find(added.id).expect("the contact was just added");
    assert_eq!(found.id, ContactId::new(4));
    assert_eq!(found.first_name, "Ada");
    assert_eq!(found.last_name, "Lovelace");
    assert_eq!(found.phone, "555-0100");
    assert_eq!(found.email_address, "ada@example.com");
}

#[test]
fn identifiers_are_not_handed_out_twice() {
    let mut store = numbered(2);
    assert_eq!(store.delete(ContactId::new(2)), 1);
    let next = store.insert(person("Ada", "Lovelace", "555-0100", "ada@example.com")).unwrap();
    assert_eq!(next.id, ContactId::new(3));
    assert_eq!(ids(&store.all()), vec![1, 3]);
}

#[test]
fn page_holds_at_most_its_limit() {
    let store = numbered(25);
    assert_eq!(ids(&store.page(10, 0)), (1..=10).collect::<Vec<i32>>());
    assert_eq!(ids(&store.page(10, 10)), (11..=20).collect::<Vec<i32>>());
    assert_eq!(ids(&store.page(10, 20)), (21..=25).collect::<Vec<i32>>());
    assert!(store.page(10, 30).is_empty());
    assert!(store.page(0, 0).is_empty());
    assert_eq!(ids(&store.page(u64::MAX, 23)), vec![24, 25]);
    assert!(store.page(u64::MAX, u64::MAX).is_empty());
}

#[test]
fn neighbouring_pages_share_no_contact() {
    let store = numbered(25);
    for number in 0..3u64 {
        let page = ids(&store.page(10, number * 10));
        let next = ids(&store.page(10, (number + 1) * 10));
        assert!(page.len() <= 10);
        assert!(page.windows(2).all(|pair| pair[0] < pair[1]));
        for id in &page {
            assert!(!next.contains(id));
            assert!(next.iter().all(|other| id < other));
        }
    }
}

#[test]
fn search_matches_first_or_last_name() {
    let mut store = ContactStore::new();
    store.insert(person("Ada", "Lovelace", "555-0100", "ada@example.com"));
    store.insert(person("Alan", "Turing", "555-0142", "alan@example.com"));
    store.insert(person("Grace", "Hopper", "555-0199", "grace@example.com"));
    assert_eq!(ids(&store.search("Ada")), vec![1]);
    assert_eq!(ids(&store.search("A")), vec![1, 2, 3]);
    assert_eq!(ids(&store.search("Al")), vec![2]);
    assert_eq!(ids(&store.search("ring")), vec![2]);
    assert_eq!(ids(&store.search("ace")), vec![1, 3]);
    assert_eq!(ids(&store.search("")), vec![1, 2, 3]);
}

#[test]
fn search_ignores_the_case_of_letters() {
    let mut store = ContactStore::new();
    store.insert(person("Ada", "Lovelace", "555-0100", "ada@example.com"));
    store.insert(person("alan", "TURING", "555-0142", "alan@example.com"));
    assert_eq!(ids(&store.search("ada")), vec![1]);
    assert_eq!(ids(&store.search("ADA")), vec![1]);
    assert_eq!(ids(&store.search("lOVE")), vec![1]);
    assert_eq!(ids(&store.search("Alan")), vec![2]);
    assert_eq!(ids(&store.search("turing")), vec![2]);
    assert_eq!(ids(&store.search("a")), vec![1, 2]);
    assert_eq!(ids(&store.search("L")), vec![1, 2]);
}

#[test]
fn search_does_not_read_phone_or_email() {
    let mut store = ContactStore::new();
    store.insert(person("Ada", "Lovelace", "555-0100", "ada@example.com"));
    store.insert(person("Alan", "Turing", "555-0142", "alan@example.com"));
    assert!(store.search("555").is_empty());
    assert!(store.search("example").is_empty());
    assert!(store.search("@").is_empty());
    assert!(store.search("Zed").is_empty());
}

#[test]
fn select_runs_the_selection() {
    let store = numbered(12);
    let page = store.select(&Selection::Page { limit: 10, offset: 10 });
    assert_eq!(ids(&page), vec![11, 12]);
    let found = store.select(&Selection::Search { term: "first1".to_string() });
    assert_eq!(ids(&found), vec![1, 10, 11, 12]);
}

#[test]
fn update_replaces_the_fields_and_keeps_the_identifier() {
    let mut store = numbered(3);
    let updated = store
        .update(ContactId::new(2), person("Ada", "Lovelace", "555-0100", "ada@example.com"))
        .expect("the contact is there");
    assert_eq!(updated.id, ContactId::new(2));
    assert_eq!(updated.first_name, "Ada");
    let found = store.find(ContactId::new(2)).unwrap();
    assert_eq!(found.last_name, "Lovelace");
    assert_eq!(found.phone, "555-0100");
    assert_eq!(found.email_address, "ada@example.com");
    assert_eq!(store.find(ContactId::new(1)).unwrap().first_name, "First1");
    assert_eq!(store.find(ContactId::new(3)).unwrap().first_name, "First3");
    assert_eq!(ids(&store.all()), vec![1, 2, 3]);
}

#[test]
fn update_of_a_missing_contact_changes_nothing() {
    let mut store = numbered(2);
    let updated =
        store.update(ContactId::new(9), person("Ada", "Lovelace", "555-0100", "ada@example.com"));
    assert!(updated.is_none());
    assert_eq!(ids(&store.all()), vec![1, 2]);
    assert!(store.search("Ada").is_empty());
}

#[test]
fn delete_removes_the_contact() {
    let mut store = numbered(3);
    assert_eq!(store.delete(ContactId::new(2)), 1);
    assert!(store.find(ContactId::new(2)).is_none());
    assert_eq!(ids(&store.all()), vec![1, 3]);
    assert_eq!(store.count(), 2);
}

#[test]
fn delete_of_a_missing_contact_changes_nothing() {
    let mut store = numbered(3);
    assert_eq!(store.delete(ContactId::new(7)), 0);
    assert_eq!(store.delete(ContactId::new(0)), 0);
    assert_eq!(store.delete(ContactId::new(-1)), 0);
    assert_eq!(ids(&store.all()), vec![1, 2, 3]);
}

#[test]
fn delete_many_removes_those_that_are_there() {
    let mut store = numbered(5);
    let selected = vec![ContactId::new(2), ContactId::new(9), ContactId::new(4), ContactId::new(2)];
    assert_eq!(store.delete_many(&selected), 2);
    assert_eq!(ids(&store.all()), vec![1, 3, 5]);
}

#[test]
fn delete_many_of_missing_contacts_changes_nothing() {
    let mut store = numbered(3);
    assert_eq!(store.delete_many(&vec![ContactId::new(8), ContactId::new(9)]), 0);
    assert_eq!(store.delete_many(&Vec::new()), 0);
    assert_eq!(ids(&store.all()), vec![1, 2, 3]);
}

#[test]
fn count_by_email_counts_exact_matches() {
    let mut store = numbered(3);
    store.insert(person("Twin", "One", "555-0001", "person2@example.com"));
    assert_eq!(store.count_by_email("person1@example.com"), 1);
    assert_eq!(store.count_by_email("person2@example.com"), 2);
    assert_eq!(store.count_by_email("person"), 0);
    assert_eq!(store.count_by_email("PERSON1@example.com"), 0);
    assert_eq!(store.count_by_email(""), 0);
}
