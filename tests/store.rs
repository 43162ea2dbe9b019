use nbd::{
    AppError, Construct, Contact, ContactRepo, Date, IndexedContact, MemoryStore, MetadataRepo, OptionalContact,
};

const ALICE_CSV: &str = "first_name,last_name,email,phone_number\nAlice,Liddell,alice@wonderland.com,123-456-7890\n";

const EXAMPLE_CSV: &str = "first_name,last_name,email,phone_number\n\
Alice,Liddell,alice@wonderland.com,123-456-7890\n\
Bob,Builder,bob@example.com,0989878721\n\
Charlie,Brown,charlie@example.com,1989878721\n";

const BIRTHDAY_CSV: &str = "first_name,last_name,birthday\nAldous,Huxley,1894-07-26\n";

const THREE_BIRTHDAYS_CSV: &str = "first_name,last_name,birthday\n\
Aldous,Huxley,1894-07-26\n\
George,Orwell,1903-06-25\n\
Clive,Lewis,1898-11-29\n";

fn lewis_carroll() -> Contact {
    Contact::builder()
        .first_name("Lewis")
        .last_name("Carroll")
        .email("lewis@wonderland.com")
        .phone_number("777-777-7777")
        .birthday("1832-1-27")
        .build()
        .expect("Expect Louis Carroll")
}

#[test]
fn connection_test_save_contact() {
    let mut data_repo = MemoryStore::new();

    let example_contact = lewis_carroll();

    let result_contact_id = data_repo.save_contact(example_contact);
    let contact_id = result_contact_id.expect("Valid Contact");

    assert_eq!(contact_id, 1);
}

#[test]
fn test_save_optional_contact() {
    let mut data_repo = MemoryStore::new();

    let example_contact = OptionalContact { first_name: Some("Alice".to_string()), ..OptionalContact::template() };

    let result_contact_id = data_repo.save_optional_contact(example_contact);
    let contact_id = result_contact_id.expect("Valid Contact ID");

    assert_eq!(contact_id, 1);
}

#[test]
fn test_delete_contact() {
    let mut data_repo = MemoryStore::new();

    let example_contact = lewis_carroll();

    let contact_id = data_repo.save_contact(example_contact.clone()).expect("Valid ID");

    let contact_from_database = data_repo.get_contact_by_id(contact_id).expect("Contact from database");

    assert_eq!(contact_from_database.contact.first_name, example_contact.first_name);

    let deleted_contact_id = data_repo.delete_contact_by_id(contact_id).expect("Deleted from database");

    assert_eq!(deleted_contact_id, 1);
}

#[test]
fn contact_repo_test_save_contact() {
    let mut data_repo = MemoryStore::new();

    let test_contact = Contact::builder()
        .first_name("John")
        .last_name("Smith")
        .email("johndoe@example.com")
        .phone_number("123-456-7890")
        .birthday("1970-1-1")
        .build()
        .unwrap();

    let result = data_repo.save_contact(test_contact);

    let result = result.unwrap();

    assert_eq!(result, 1);
}

#[test]
fn contact_repo_test_get_all_contacts() {
    let mut data_repo = MemoryStore::new();

    let contact = Contact::builder()
        .first_name("John")
        .last_name("Doe")
        .email("johndoe@example.com")
        .phone_number("1234567890")
        .birthday("1970-01-01")
        .build()
        .unwrap();
    data_repo.save_contact(contact).unwrap();

    let result = data_repo.get_all_contacts();

    assert!(result.is_ok());
    assert_eq!(result.unwrap().len(), 1);
}

#[test]
fn test_update_contact() {
    let mut data_repo = MemoryStore::new();
    data_repo.save_contact(lewis_carroll()).unwrap();

    let edits = Construct::new(1, None, None, Some("some@email.com".to_string()), None, None, None).unwrap();

    let result = data_repo.update_contact(&edits);

    assert!(result.is_ok());
    assert_eq!(data_repo.get_contact_by_id(1).unwrap().contact.email, "some@email.com");
}

#[test]
fn test_get_contact_by_id() {
    let mut data_repo = MemoryStore::new();

    let contact = Contact::builder()
        .first_name("John")
        .last_name("Doe")
        .email("johndoe@example.com")
        .phone_number("1234567890")
        .birthday("1970-01-01")
        .build()
        .unwrap();
    data_repo.save_contact(contact).unwrap();

    let result = data_repo.get_contact_by_id(1);

    assert!(result.is_ok());

    let actual_contact = result.unwrap();

    assert_eq!(actual_contact.id, 1);
}

#[test]
fn should_save_option_contact_in_database() {
    let mut data_repo = MemoryStore::new();

    let test_contact = OptionalContact { first_name: Some("Jason".to_string()), ..OptionalContact::template() };

    let result = data_repo.save_optional_contact(test_contact).unwrap();

    assert_eq!(result, 1);
}

#[test]
fn should_be_able_to_retrieve_full_contact_when_saved_full_contact() {
    let mut data_repo = MemoryStore::new();

    let test_contact = OptionalContact {
        first_name: Some("Ada".to_string()),
        last_name: Some("Lovelace".to_string()),
        display_name: Some("Addy".to_string()),
        email: Some("ada@lovelace.rs".to_string()),
        phone_number: Some("1233211233".to_string()),
        birthday: Some(Date { year: 1970, month: 1, day: 1 }),
        starred: None,
        is_archived: None,
        last_seen_at: None,
        frequency: None,
        last_reminder_at: None,
    };

    let contact_id = data_repo.save_optional_contact(test_contact.clone()).unwrap();

    let saved_contact = data_repo.get_contact_by_id(contact_id).unwrap();

    let saved_contact = saved_contact.contact;

    assert_eq!(saved_contact.first_name, test_contact.first_name.unwrap());
    assert_eq!(saved_contact.last_name, test_contact.last_name.unwrap());
    assert_eq!(saved_contact.phone_number, test_contact.phone_number.unwrap());

    assert_eq!(saved_contact.email, test_contact.email.unwrap());

    assert_eq!(saved_contact.display_name, test_contact.display_name.unwrap());
}

#[test]
fn should_default_to_first_and_last_name_for_display_name() {
    let mut data_repo = MemoryStore::new();

    let test_contact = OptionalContact {
        first_name: Some("Ada".to_string()),
        last_name: Some("Lovelace".to_string()),
        birthday: Some(Date { year: 1970, month: 1, day: 1 }),
        ..OptionalContact::template()
    };

    let contact_id = data_repo.save_optional_contact(test_contact.clone()).unwrap();

    let saved_contact = data_repo.get_contact_by_id(contact_id).unwrap().contact;

    assert_eq!(saved_contact.display_name, "Ada Lovelace".to_string());

    let test_contact = OptionalContact {
        first_name: Some("Jason".to_string()),
        last_name: Some("Ribble".to_string()),
        ..OptionalContact::template()
    };

    let contact_id = data_repo.save_optional_contact(test_contact.clone()).unwrap();

    let saved_contact = data_repo.get_contact_by_id(contact_id).unwrap().contact;

    assert_eq!(saved_contact.display_name, "Jason Ribble".to_string());
}

#[test]
fn should_save_two_option_contact_in_database() {
    let mut data_repo = MemoryStore::new();

    let test_contact = OptionalContact { first_name: Some("Jason".to_string()), ..OptionalContact::template() };

    let contact_id = data_repo.save_optional_contact(test_contact).unwrap();

    assert_eq!(contact_id, 1);

    let another_contact = OptionalContact { first_name: Some("Alice".to_string()), ..OptionalContact::template() };

    let contact_id = data_repo.save_optional_contact(another_contact).unwrap();

    assert_eq!(contact_id, 2);
}

#[test]
fn should_store_one_contact_when_given_alice_csv() {
    let mut data_repo = MemoryStore::new();

    let number_of_imported_contacts =
        data_repo.import_contacts_by_csv("tests/fixtures/alice.csv", Some(ALICE_CSV.as_bytes())).unwrap();

    let number_of_contacts = data_repo.get_all_contacts().unwrap().len() as i64;

    assert_eq!(number_of_contacts, number_of_imported_contacts);
    assert_eq!(number_of_contacts, 1);
}

#[test]
fn should_store_three_contacts_when_given_example() {
    let mut data_repo = MemoryStore::new();

    let number_of_imported_contacts =
        data_repo.import_contacts_by_csv("tests/fixtures/example.csv", Some(EXAMPLE_CSV.as_bytes())).unwrap();

    let number_of_contacts = data_repo.get_all_contacts().unwrap().len() as i64;

    assert_eq!(number_of_contacts, number_of_imported_contacts);
    assert_eq!(number_of_contacts, 3);
}

#[test]
fn should_create_metadata_when_importing_csv() {
    let mut data_repo = MemoryStore::new();

    let number_of_imported_contacts =
        data_repo.import_contacts_by_csv("tests/fixtures/example.csv", Some(EXAMPLE_CSV.as_bytes())).unwrap();

    let contacts = data_repo.get_all_contacts().unwrap();
    let last_contact = contacts.last().unwrap();

    assert_eq!(number_of_imported_contacts, last_contact.id);
    assert_eq!(data_repo.get_metadata_by_id(last_contact.id).unwrap().contact_id, last_contact.id);
}

#[test]
fn should_save_csv_with_one_row_and_birthday() {
    let mut data_repo = MemoryStore::new();

    data_repo.import_contacts_by_csv("tests/fixtures/birthday.csv", Some(BIRTHDAY_CSV.as_bytes())).unwrap();

    let contacts = data_repo.get_all_contacts().unwrap();

    let aldous_huxley_birthday = contacts[0].contact.birthday;

    assert_eq!(aldous_huxley_birthday, Date { year: 1894, month: 7, day: 26 });
}

#[test]
fn should_save_csv_with_threes_row_and_birthday() {
    let mut data_repo = MemoryStore::new();

    data_repo
        .import_contacts_by_csv("tests/fixtures/three_birthdays.csv", Some(THREE_BIRTHDAYS_CSV.as_bytes()))
        .unwrap();

    let contacts = data_repo.get_all_contacts().unwrap();

    let aldous_huxley_birthday = contacts[0].contact.birthday;

    assert_eq!(aldous_huxley_birthday, Date { year: 1894, month: 7, day: 26 });

    let cs_lewis_birthday = contacts[2].contact.birthday;

    assert_eq!(cs_lewis_birthday, Date { year: 1898, month: 11, day: 29 });
}

#[test]
fn test_create_metadata_sqlite() {
    let mut repo = MemoryStore::new();
    let contact_id = repo.save_contact(lewis_carroll()).unwrap();

    let result = repo.create_metadata(contact_id).unwrap();

    assert_eq!(result.contact_id, contact_id);
}

#[test]
fn test_create_metadata() {
    let mut repo = MemoryStore::new();
    repo.save_contact(lewis_carroll()).unwrap();

    let result = repo.create_metadata(1);

    let result = result.unwrap();

    assert_eq!(result.contact_id, 1);
    assert!(!result.starred);
}

#[test]
fn test_get_metadata() {
    let mut repo = MemoryStore::new();
    repo.save_contact(lewis_carroll()).unwrap();
    let test_metadata = repo.create_metadata(1).unwrap();

    let result = repo.get_metadata_by_id(1);

    assert!(result.is_ok());

    let expected_metadata = result.unwrap();

    assert_eq!(expected_metadata, test_metadata);
}

#[test]
fn test_create_contact_get_metadata() {
    let mut repo = MemoryStore::new();

    let example_contact = Contact::new("Lewis", "Carroll", "lewis@wonderland.com", "777-777-7777", "").unwrap();

    let contact_id = repo.save_contact(example_contact).unwrap();

    assert_eq!(contact_id, 1);

    let metadata = repo.get_metadata_by_id(contact_id).unwrap();

    assert_eq!(metadata.contact_id, 1);
    assert!(!metadata.starred);
    assert!(!metadata.is_archived);
    assert_eq!(metadata.created_at, metadata.updated_at);
    assert_eq!(metadata.last_seen_at, None);
    assert_eq!(metadata.next_reminder_at, None);
    assert_eq!(metadata.frequency, None);
    assert_eq!(metadata.last_reminder_at, None);
}

#[test]
fn db_test_save_contact() {
    let mut repo = MemoryStore::new();
    let test_contact = Contact::new("John", "Smith", "johndoe@example.com", "123-456-7890", "").unwrap();

    let result = repo.save_contact(test_contact).unwrap();

    assert_eq!(result, 1);
}

#[test]
fn db_test_get_all_contacts() {
    let mut repo = MemoryStore::new();
    let contact = Contact::new("John", "Doe", "john@example.com", "1234567890", "").unwrap();
    repo.save_contact(contact.clone()).unwrap();

    let result = repo.get_all_contacts();

    assert!(result.is_ok());
    assert_eq!(result.unwrap(), vec![IndexedContact { id: 1, contact }]);
}

#[test]
fn saved_contact_comes_back_unchanged() {
    let mut repo = MemoryStore::new();
    let contact = Contact::new("Lewis", "Carroll", "lewis@wonderland.com", "777-777-7777", "1832-01-27").unwrap();

    let id = repo.save_contact(contact.clone()).unwrap();

    assert_eq!(id, 1);
    let found = repo.get_contact_by_id(id).unwrap();
    assert_eq!(found.contact, contact);
    assert_eq!(found.contact.display_name, "Lewis Carroll");
    assert_eq!(found.contact.birthday, Date { year: 1832, month: 1, day: 27 });
}

#[test]
fn listing_twice_gives_the_same_list() {
    let mut repo = MemoryStore::new();
    assert_eq!(repo.get_all_contacts().unwrap(), vec![]);
    repo.save_contact(lewis_carroll()).unwrap();
    repo.save_optional_contact(OptionalContact { first_name: Some("Bob".to_string()), ..OptionalContact::template() })
        .unwrap();

    let first = repo.get_all_contacts().unwrap();
    let second = repo.get_all_contacts().unwrap();

    assert_eq!(first, second);
    assert_eq!(first.iter().map(|c| c.id).collect::<Vec<i64>>(), vec![1, 2]);
}

#[test]
fn updating_only_the_email_keeps_every_other_field() {
    let mut repo = MemoryStore::new();
    repo.save_contact(lewis_carroll()).unwrap();
    let before = repo.get_contact_by_id(1).unwrap().contact;

    let edits = Construct::new(1, None, None, Some("dodgson@oxford.ac.uk".to_string()), None, None, None).unwrap();
    repo.update_contact(&edits).unwrap();

    let after = repo.get_contact_by_id(1).unwrap().contact;
    assert_eq!(after.email, "dodgson@oxford.ac.uk");
    assert!(after.updated_at >= before.updated_at);
    assert_eq!(Contact { email: before.email.clone(), updated_at: before.updated_at, ..after }, before);
}

#[test]
fn updating_a_missing_contact_fails_with_not_found() {
    let mut repo = MemoryStore::new();
    let edits = Construct::new(3, Some("Ada".to_string()), None, None, None, None, None).unwrap();

    assert_eq!(repo.update_contact(&edits), Err(AppError::NotFound(3)));
}

#[test]
fn deleted_contact_and_its_metadata_are_gone() {
    let mut repo = MemoryStore::new();
    repo.save_contact(lewis_carroll()).unwrap();
    repo.save_contact(lewis_carroll()).unwrap();

    assert_eq!(repo.delete_contact_by_id(1), Ok(1));

    assert_eq!(repo.get_contact_by_id(1), Err(AppError::NotFound(1)));
    assert_eq!(repo.get_metadata_by_id(1), Err(AppError::NotFound(1)));
    assert_eq!(repo.delete_contact_by_id(1), Err(AppError::NotFound(1)));
    assert_eq!(repo.get_contact_by_id(2).unwrap().id, 2);
    assert_eq!(repo.create_metadata(1), Err(AppError::NotFound(1)));
}

#[test]
fn identifiers_are_never_reused() {
    let mut repo = MemoryStore::new();
    repo.save_contact(lewis_carroll()).unwrap();
    repo.delete_contact_by_id(1).unwrap();

    assert_eq!(repo.save_contact(lewis_carroll()), Ok(2));
}

#[test]
fn import_with_one_bad_phone_number_stores_nothing() {
    let mut repo = MemoryStore::new();
    let text = "first_name,phone_number\nAlice,123-456-7890\nBob,not_a_phone\nCharlie,1989878721\n";

    let result = repo.import_contacts_by_csv("three.csv", Some(text.as_bytes()));

    assert_eq!(result, Err(AppError::InvalidPhoneNumber("not_a_phone".to_string())));
    assert_eq!(repo.get_all_contacts().unwrap().len(), 0);
}

#[test]
fn import_fills_in_display_names() {
    let mut repo = MemoryStore::new();

    assert_eq!(repo.import_contacts_by_csv("a.csv", Some(ALICE_CSV.as_bytes())), Ok(1));

    let alice = repo.get_contact_by_id(1).unwrap().contact;
    assert_eq!(alice.display_name, "Alice Liddell");
    assert_eq!(alice.birthday, Date { year: 1, month: 1, day: 1 });
    assert_eq!(alice.email, "alice@wonderland.com");
}
