use hypermedia_systems_rust::hx_triggers::header_name;
use hypermedia_systems_rust::hx_triggers::ContactsInteraction;
use hypermedia_systems_rust::hx_triggers::DeleteTrigger;
use hypermedia_systems_rust::hx_triggers::InvalidTrigger;
use hypermedia_systems_rust::model::ContactId;
use hypermedia_systems_rust::paths::page_link;
use hypermedia_systems_rust::paths::AddContact;
use hypermedia_systems_rust::paths::ContactEmail;
use hypermedia_systems_rust::paths::Contacts;
use hypermedia_systems_rust::paths::ContactsCount;
use hypermedia_systems_rust::paths::Pagination;
use hypermedia_systems_rust::paths::Root;
use hypermedia_systems_rust::paths::UpdateContact;
use hypermedia_systems_rust::paths::ViewContact;
use hypermedia_systems_rust::text::chars_of;
use hypermedia_systems_rust::text::contains_ignoring_case;
use hypermedia_systems_rust::text::decimal_string;
use hypermedia_systems_rust::text::escape;
use hypermedia_systems_rust::text::folded_chars;
use hypermedia_systems_rust::text::same_text;
use hypermedia_systems_rust::text::signed_decimal_string;
use hypermedia_systems_rust::text::to_lower;
use hypermedia_systems_rust::AppError;

#[test]
fn decimal_numerals() {
    assert_eq!(decimal_string(0), "0");
    assert_eq!(decimal_string(7), "7");
    assert_eq!(decimal_string(10), "10");
    assert_eq!(decimal_string(1234567890), "1234567890");
    assert_eq!(decimal_string(u64::MAX), "18446744073709551615");
    for n in [0u64, 9, 10, 99, 100, 101, 4294967295, 4294967296] {
        assert_eq!(decimal_string(n), n.to_string());
    }
}

#[test]
fn signed_decimal_numerals() {
    assert_eq!(signed_decimal_string(0), "0");
    assert_eq!(signed_decimal_string(-1), "-1");
    assert_eq!(signed_decimal_string(305), "305");
    assert_eq!(signed_decimal_string(i64::MAX), "9223372036854775807");
    assert_eq!(signed_decimal_string(i64::MIN), "-9223372036854775808");
}

#[test]
fn same_text_compares_letter_for_letter() {
    assert!(same_text("search", "search"));
    assert!(same_text("", ""));
    assert!(!same_text("search", "Search"));
    assert!(!same_text("search", "search "));
}

#[test]
fn chars_of_keeps_every_character() {
    assert_eq!(chars_of("Zoë"), vec!['Z', 'o', 'ë']);
    assert_eq!(chars_of(""), Vec::<char>::new());
}

#[test]
fn contains_finds_a_text_anywhere() {
    assert!(contains_ignoring_case("Lovelace", "Love"));
    assert!(contains_ignoring_case("Lovelace", "vela"));
    assert!(contains_ignoring_case("Lovelace", "lace"));
    assert!(contains_ignoring_case("Lovelace", "Lovelace"));
    assert!(contains_ignoring_case("Lovelace", ""));
    assert!(contains_ignoring_case("", ""));
    assert!(!contains_ignoring_case("Lovelace", "Lovelaces"));
    assert!(!contains_ignoring_case("Lovelace", "lovelave"));
    assert!(!contains_ignoring_case("", "a"));
    assert!(contains_ignoring_case("Zoë Åberg", "ë Å"));
}

#[test]
fn contains_ignores_the_case_of_ascii_letters() {
    assert!(contains_ignoring_case("Ada", "ada"));
    assert!(contains_ignoring_case("ada", "ADA"));
    assert!(contains_ignoring_case("Lovelace", "LOVE"));
    assert!(contains_ignoring_case("LOVELACE", "vela"));
    assert!(contains_ignoring_case("McAdam", "cad"));
    assert!(!contains_ignoring_case("Zoë", "ZOË"));
    assert!(contains_ignoring_case("Zoë", "zoë"));
    assert!(!contains_ignoring_case("a[b", "A{B"));
    assert!(!contains_ignoring_case("a@b", "a`b"));
}

#[test]
fn folding_makes_ascii_capitals_small() {
    assert_eq!(to_lower('A'), 'a');
    assert_eq!(to_lower('Z'), 'z');
    assert_eq!(to_lower('m'), 'm');
    assert_eq!(to_lower('@'), '@');
    assert_eq!(to_lower('['), '[');
    assert_eq!(to_lower('É'), 'É');
    assert_eq!(folded_chars("Ada L. 42"), vec!['a', 'd', 'a', ' ', 'l', '.', ' ', '4', '2']);
    for c in ['A', 'Q', 'z', '0', '_', 'ß'] {
        assert_eq!(to_lower(c), c.to_ascii_lowercase());
    }
}

#[test]
fn escape_guards_the_wildcards() {
    assert_eq!(escape("Ada"), "Ada");
    assert_eq!(escape(""), "");
    assert_eq!(escape("100%"), "100\\%");
    assert_eq!(escape("a_b"), "a\\_b");
    assert_eq!(escape("a\\b"), "a\\\\b");
    assert_eq!(escape("%_\\"), "\\%\\_\\\\");
    assert_eq!(escape("Zoë%"), "Zoë\\%");
}

#[test]
fn fixed_paths() {
    assert_eq!(Root.to_string(), "/");
    assert_eq!(Contacts.to_string(), "/contacts");
    assert_eq!(ContactsCount.to_string(), "/contacts/count");
    assert_eq!(AddContact.to_string(), "/contacts/new");
}

#[test]
fn paths_with_an_identifier() {
    let id = ContactId::new(42);
    assert_eq!(ViewContact { id }.to_string(), "/contacts/42");
    assert_eq!(UpdateContact { id }.to_string(), "/contacts/42/edit");
    assert_eq!(ContactEmail { id }.to_string(), "/contacts/42/email");
    assert_eq!(ViewContact { id: ContactId::new(-3) }.to_string(), "/contacts/-3");
}

#[test]
fn path_with_a_page_number() {
    assert_eq!(Contacts.with_query_params(Pagination { page: 1 }), "/contacts?&page=1");
    assert_eq!(
        Contacts.with_query_params(Pagination { page: u32::MAX }),
        "/contacts?&page=4294967295"
    );
    assert_eq!(page_link(4294967296), "/contacts?&page=4294967296");
}

#[test]
fn trigger_header_name_and_values() {
    assert_eq!(header_name(), "hx-trigger");
    assert_eq!(ContactsInteraction::Search.id(), "search");
    assert_eq!(DeleteTrigger::Button.id(), "delete-btn");
}

#[test]
fn search_trigger_is_read_from_the_first_value() {
    let search = vec!["search".to_string()];
    assert_eq!(ContactsInteraction::decode(&search), Ok(ContactsInteraction::Search));
    let two = vec!["search".to_string(), "delete-btn".to_string()];
    assert_eq!(ContactsInteraction::decode(&two), Ok(ContactsInteraction::Search));
    let second = vec!["other".to_string(), "search".to_string()];
    assert_eq!(ContactsInteraction::decode(&second), Err(InvalidTrigger));
}

#[test]
fn unknown_or_missing_trigger_is_invalid() {
    assert_eq!(ContactsInteraction::decode(&Vec::new()), Err(InvalidTrigger));
    assert_eq!(ContactsInteraction::decode(&vec!["Search".to_string()]), Err(InvalidTrigger));
    assert_eq!(ContactsInteraction::decode(&vec!["delete-btn".to_string()]), Err(InvalidTrigger));
    assert_eq!(DeleteTrigger::decode(&Vec::new()), Err(InvalidTrigger));
    assert_eq!(DeleteTrigger::decode(&vec!["search".to_string()]), Err(InvalidTrigger));
    assert_eq!(DeleteTrigger::decode(&vec![String::new()]), Err(InvalidTrigger));
}

#[test]
fn delete_trigger_is_read_from_the_first_value() {
    assert_eq!(DeleteTrigger::decode(&vec!["delete-btn".to_string()]), Ok(DeleteTrigger::Button));
}

#[test]
fn encoded_trigger_is_decoded_again() {
    let mut values = Vec::new();
    ContactsInteraction::Search.encode(&mut values);
    assert_eq!(values, vec!["search".to_string()]);
    assert_eq!(ContactsInteraction::decode(&values), Ok(ContactsInteraction::Search));

    let mut values = vec!["delete-btn".to_string()];
    DeleteTrigger::Button.encode(&mut values);
    assert_eq!(values, vec!["delete-btn".to_string(), "delete-btn".to_string()]);
    assert_eq!(DeleteTrigger::decode(&values), Ok(DeleteTrigger::Button));
}

#[test]
fn errors_as_text() {
    assert_eq!(AppError::Pool("timed out".to_string()).to_string(), "Pool error: timed out");
    assert_eq!(
        AppError::Diesel("Record not found".to_string()).to_string(),
        "PostgreSQL error: Record not found"
    );
    assert_eq!(AppError::Deadpool("aborted".to_string()).to_string(), "Deadpool error: aborted");
}

#[test]
fn every_error_is_answered_alike() {
    let errors = vec![
        AppError::Pool("timed out".to_string()),
        AppError::Diesel("syntax error".to_string()),
        AppError::Deadpool("aborted".to_string()),
    ];
    for error in errors {
        let response = error.into_response();
        assert_eq!(response.status, 500);
        assert_eq!(response.body, "An internal error occurred. Please try again later.");
    }
}
