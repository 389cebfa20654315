use hypermedia_systems_rust::api::delete_contact;
use hypermedia_systems_rust::api::deleted;
use hypermedia_systems_rust::api::found;
use hypermedia_systems_rust::api::get_contact;
use hypermedia_systems_rust::api::get_contacts;
use hypermedia_systems_rust::api::new_contact;
use hypermedia_systems_rust::api::update_contact;
use hypermedia_systems_rust::api::Reply;
use hypermedia_systems_rust::exhausted;
use hypermedia_systems_rust::missing;
use hypermedia_systems_rust::model::Contact;
use hypermedia_systems_rust::model::ContactAttributes;
use hypermedia_systems_rust::model::ContactId;
use hypermedia_systems_rust::store::ContactStore;
use hypermedia_systems_rust::AppError;

fn ada() -> ContactAttributes {
    ContactAttributes {
        first_name: "Ada".to_string(),
        last_name: "Lovelace".to_string(),
        phone: "555-0100".to_string(),
        email_address: "ada@example.com".to_string(),
    }
}

fn alan() -> ContactAttributes {
    ContactAttributes {
        first_name: "Alan".to_string(),
        last_name: "Turing".to_string(),
        phone: "555-0142".to_string(),
        email_address: "alan@example.com".to_string(),
    }
}

fn expect_plain(reply: Reply, status: u16, body: &str) {
    match reply {
        Reply::Plain(plain) => {
            assert_eq!(plain.status, status);
            assert_eq!(plain.body, body);
        }
        other => panic!("expected plain text, got {:?}", other),
    }
}

#[test]
fn api_create_returns_the_record() {
    let mut store = ContactStore::new();
    let created = new_contact(&mut store, ada()).expect("the table has room");
    assert_eq!(created.id, ContactId::new(1));
    assert_eq!(created.first_name, "Ada");
    assert_eq!(created.last_name, "Lovelace");
    assert_eq!(created.phone, "555-0100");
    assert_eq!(created.email_address, "ada@example.com");
    assert_eq!(store.count(), 1);
}

#[test]
fn api_create_then_get_then_delete_then_get() {
    let mut store = ContactStore::new();
    let created = new_contact(&mut store, ada()).expect("the table has room");
    match get_contact(&store, created.id) {
        Reply::Contact(contact) => {
            assert_eq!(contact.id, created.id);
            assert_eq!(contact.first_name, "Ada");
            assert_eq!(contact.last_name, "Lovelace");
            assert_eq!(contact.phone, "555-0100");
            assert_eq!(contact.email_address, "ada@example.com");
        }
        other => panic!("expected the record, got {:?}", other),
    }
    expect_plain(delete_contact(&mut store, created.id), 200, "Successfully deleted");
    expect_plain(get_contact(&store, created.id), 404, "Could not find contact");
}

#[test]
fn api_list_holds_every_record() {
    let mut store = ContactStore::new();
    new_contact(&mut store, ada()).unwrap();
    new_contact(&mut store, alan()).unwrap();
    match get_contacts(&store) {
        Reply::Contacts(rows) => {
            assert_eq!(rows.len(), 2);
            assert_eq!(rows[0].id, ContactId::new(1));
            assert_eq!(rows[0].first_name, "Ada");
            assert_eq!(rows[1].id, ContactId::new(2));
            assert_eq!(rows[1].first_name, "Alan");
        }
        other => panic!("expected the list, got {:?}", other),
    }
}

#[test]
fn api_get_of_a_missing_record_is_404() {
    let store = ContactStore::new();
    expect_plain(get_contact(&store, ContactId::new(1)), 404, "Could not find contact");
    expect_plain(found(None), 404, "Could not find contact");
}

#[test]
fn api_update_replaces_the_fields() {
    let mut store = ContactStore::new();
    let created = new_contact(&mut store, ada()).unwrap();
    let sent = Contact { id: ContactId::new(99), attributes: alan() };
    let reply = update_contact(&mut store, created.id, sent).expect("the record is there");
    match reply {
        Reply::Contact(contact) => {
            assert_eq!(contact.id, ContactId::new(1));
            assert_eq!(contact.first_name, "Alan");
            assert_eq!(contact.email_address, "alan@example.com");
        }
        other => panic!("expected the record, got {:?}", other),
    }
    assert!(store.find(ContactId::new(99)).is_none());
    assert_eq!(store.find(ContactId::new(1)).unwrap().last_name, "Turing");
}

#[test]
fn api_update_of_a_missing_record_fails() {
    let mut store = ContactStore::new();
    new_contact(&mut store, ada()).unwrap();
    let sent = Contact { id: ContactId::new(5), attributes: alan() };
    match update_contact(&mut store, ContactId::new(5), sent) {
        Err(AppError::Diesel(detail)) => assert_eq!(detail, "Record not found"),
        other => panic!("expected a database error, got {:?}", other),
    }
    assert_eq!(store.count(), 1);
    assert_eq!(store.find(ContactId::new(1)).unwrap().first_name, "Ada");
}

#[test]
fn api_delete_of_a_missing_record_is_no_error() {
    let mut store = ContactStore::new();
    new_contact(&mut store, ada()).unwrap();
    expect_plain(delete_contact(&mut store, ContactId::new(7)), 200, "Successfully deleted");
    assert_eq!(store.count(), 1);
    expect_plain(deleted(), 200, "Successfully deleted");
}

#[test]
fn database_errors_of_the_table() {
    match exhausted() {
        AppError::Diesel(detail) => assert_eq!(detail, "no identifier is left"),
        other => panic!("expected a database error, got {:?}", other),
    }
    match missing() {
        AppError::Diesel(detail) => assert_eq!(detail, "Record not found"),
        other => panic!("expected a database error, got {:?}", other),
    }
    assert_eq!(missing().into_response().status, 500);
}
