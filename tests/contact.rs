use nbd::{AppError, Construct, Contact, Date, Optional};

#[test]
fn contact_test_display_name() {
    let person = Contact::new("Jason", "Ribble", "john@example.com", "123-456-7890", "1970-01-01");
    let display_name = "Jason Ribble".to_string();

    assert_eq!(person.unwrap().display_name, display_name)
}

#[test]
fn test_contact_builder() {
    let person = Contact::builder()
        .first_name("Alice")
        .last_name("Lovelace")
        .email("ada@lovelace.com")
        .phone_number("123-321-1233")
        .birthday("1970-01-01")
        .build();

    let contact = person.unwrap();
    assert_eq!(contact.first_name, "Alice");
    assert_eq!(contact.last_name, "Lovelace");
    assert_eq!(contact.display_name, "Alice Lovelace");
    assert_eq!(contact.email, "ada@lovelace.com");
    assert_eq!(contact.phone_number, "123-321-1233");
}

#[test]
fn test_contact_update_construct() {
    let edits = Construct::new(
        1,
        None,
        None,
        None,
        Some("123-233-1221".to_string()),
        Some("Nickname".to_string()),
        None,
    )
    .unwrap();

    assert_eq!(edits.id, 1);
    assert_eq!(edits.optional_contact.display_name, Some("Nickname".to_string()));
    assert_eq!(edits.optional_contact.phone_number, Some("123-233-1221".to_string()));
    assert_eq!(edits.optional_contact.first_name, None);
    assert_eq!(edits.optional_contact.last_name, None);
    assert_eq!(edits.optional_contact.email, None);
}

#[test]
fn test_contact_update_construct_2() {
    let edits = Construct::new(
        2,
        Some("Mary".to_string()),
        Some("Smith".to_string()),
        Some("new@email.com".to_string()),
        None,
        None,
        None,
    )
    .unwrap();

    assert_eq!(edits.id, 2);
    assert_eq!(edits.optional_contact.first_name, Some("Mary".to_string()));
    assert_eq!(edits.optional_contact.last_name, Some("Smith".to_string()));
    assert_eq!(edits.optional_contact.email, Some("new@email.com".to_string()));
    assert_eq!(edits.optional_contact.phone_number, None);
    assert_eq!(edits.optional_contact.display_name, None);
}

#[test]
fn test_construct_builder() {
    let edits = Construct::builder()
        .id(3)
        .first_name("John".to_string())
        .email("john@example.com".to_string())
        .phone_number("555-012-3456".to_string())
        .build()
        .unwrap();

    assert_eq!(edits.id, 3);
    assert_eq!(edits.optional_contact.first_name, Some("John".to_string()));
    assert_eq!(edits.optional_contact.email, Some("john@example.com".to_string()));
    assert_eq!(edits.optional_contact.phone_number, Some("555-012-3456".to_string()));
    assert_eq!(edits.optional_contact.last_name, None);
    assert_eq!(edits.optional_contact.display_name, None);
}

#[test]
fn test_is_empty() {
    let result = Construct::new(1, None, None, None, None, None, None);
    assert!(result.is_err());
}

#[test]
fn test_invalid_email_construct() {
    let result = Construct::new(1, None, None, Some("invalid@example".to_string()), None, None, None);
    assert!(result.is_err());
    assert!(matches!(result, Err(AppError::InvalidEmail(email)) if email == "invalid@example"));
}

#[test]
fn test_invalid_construct_phone_number() {
    let result = Construct::new(1, None, None, None, Some("123-123-12345".to_string()), None, None);

    println!("{result:?}");
    assert!(result.is_err());

    assert!(
        matches!(result, Err(AppError::InvalidPhoneNumber(phone_number)) if phone_number == "123-123-12345")
    );
}

#[test]
fn should_accept_a_birthdate() {
    let result = Contact::new("Alice", "Lovelace", "ada@lovelace.com", "123-321-1233", "1970-01-01").unwrap();

    let expect_birthday = Date { year: 1970, month: 1, day: 1 };

    assert_eq!(result.birthday, expect_birthday);
}

#[test]
fn should_return_error_when_creating_contact_with_invalid_birthday() {
    let invalid_birthday = "1970-13-32";
    let contact_result = Contact::new("Satoshi", "Nakamoto", "satoshi@bitcoin.org", "123-321-1234", invalid_birthday);

    assert!(matches!(contact_result, Err(AppError::InvalidBirthday(birthday)) if birthday == invalid_birthday));
}

#[test]
fn empty_construct_fails_with_empty_update_whatever_the_id() {
    for id in [1, 0, -7, i64::MAX] {
        let result = Construct::new(id, None, None, None, None, None, None);
        assert_eq!(result.err(), Some(AppError::EmptyUpdate));
    }
    assert_eq!(Construct::builder().build().err(), Some(AppError::EmptyUpdate));
}

#[test]
fn construct_without_an_id_fails_with_empty_update() {
    let result = Construct::builder().first_name("Ada".to_string()).build();
    assert_eq!(result.err(), Some(AppError::EmptyUpdate));
}

#[test]
fn construct_checks_email_before_phone_number() {
    let result = Construct::new(1, None, None, Some("bad@".to_string()), Some("12".to_string()), None, None);
    assert_eq!(result.err(), Some(AppError::InvalidEmail("bad@".to_string())));
    let built = Construct::builder()
        .id(1)
        .phone_number("12".to_string())
        .email("bad@".to_string())
        .build();
    assert_eq!(built.err(), Some(AppError::InvalidEmail("bad@".to_string())));
}

#[test]
fn construct_rejects_a_present_empty_email() {
    let result = Construct::new(1, Some("Ada".to_string()), None, Some(String::new()), None, None, None);
    assert_eq!(result.err(), Some(AppError::InvalidEmail(String::new())));
}

#[test]
fn construct_builder_takes_every_field() {
    let edits = Construct::builder()
        .id(9)
        .starred(true)
        .archived(false)
        .birthday(Date { year: 1815, month: 12, day: 10 })
        .last_seen_at(5)
        .frequency("weekly".to_string())
        .last_reminder_at(6)
        .last_name("Byron".to_string())
        .display_name("Ada".to_string())
        .build()
        .unwrap();
    assert_eq!(edits.optional_contact.starred, Some(true));
    assert_eq!(edits.optional_contact.is_archived, Some(false));
    assert_eq!(edits.optional_contact.birthday, Some(Date { year: 1815, month: 12, day: 10 }));
    assert_eq!(edits.optional_contact.last_seen_at, Some(5));
    assert_eq!(edits.optional_contact.frequency, Some("weekly".to_string()));
    assert_eq!(edits.optional_contact.last_reminder_at, Some(6));
    assert_eq!(edits.optional_contact.last_name, Some("Byron".to_string()));
}

#[test]
fn invalid_phone_number_fails_contact_with_that_number() {
    for phone in ["not_a_phone", "123", "123-456-789", "555-0123-456x"] {
        let result = Contact::new("A", "B", "", phone, "");
        assert_eq!(result.err(), Some(AppError::InvalidPhoneNumber(phone.to_string())));
    }
    for phone in ["555-012-3456", "(555) 012-3456", "+1 555.012.3456 ext 9", ""] {
        assert!(Contact::new("A", "B", "", phone, "").is_ok());
    }
}

#[test]
fn contact_checks_email_before_phone_number() {
    let result = Contact::new("A", "B", "not-an-email", "12", "");
    assert_eq!(result.err(), Some(AppError::InvalidEmail("not-an-email".to_string())));
}

#[test]
fn blank_birthday_becomes_the_unset_date() {
    let contact = Contact::new("A", "B", "", "", "   ").unwrap();
    assert_eq!(contact.birthday, Date { year: 1, month: 1, day: 1 });
    let contact = Contact::new("A", "B", "", "", "").unwrap();
    assert_eq!(contact.birthday, nbd::default_date());
}

#[test]
fn new_contact_has_default_flags_and_equal_timestamps() {
    let contact = Contact::new("Lewis", "Carroll", "lewis@wonderland.com", "777-777-7777", "1832-01-27").unwrap();
    assert!(!contact.starred);
    assert!(!contact.is_archived);
    assert_eq!(contact.created_at, contact.updated_at);
    assert_eq!(contact.last_seen_at, None);
    assert_eq!(contact.frequency, None);
    assert_eq!(contact.last_reminder_at, None);
    assert_eq!(contact.birthday, Date { year: 1832, month: 1, day: 27 });
}

#[test]
fn optional_template_is_empty() {
    let empty = Optional::template();
    assert!(empty.is_empty());
    let one = Optional { frequency: Some("daily".to_string()), ..Optional::template() };
    assert!(!one.is_empty());
}

#[test]
fn optional_fills_in_absent_fields() {
    let row = Optional {
        first_name: Some("Ada".to_string()),
        last_name: Some("Lovelace".to_string()),
        starred: Some(true),
        ..Optional::template()
    };
    let contact = row.to_contact(42);
    assert_eq!(contact.display_name, "Ada Lovelace");
    assert_eq!(contact.email, "");
    assert_eq!(contact.birthday, Date { year: 1, month: 1, day: 1 });
    assert!(contact.starred);
    assert!(!contact.is_archived);
    assert_eq!(contact.created_at, 42);
    assert_eq!(contact.updated_at, 42);

    let only_last = Optional { last_name: Some("Carroll".to_string()), ..Optional::template() };
    assert_eq!(only_last.to_contact(0).display_name, " Carroll");
}

#[test]
fn merge_keeps_absent_fields() {
    let before = Contact::new("Lewis", "Carroll", "lewis@wonderland.com", "777-777-7777", "1832-01-27").unwrap();
    let edits = Optional { email: Some("dodgson@oxford.ac.uk".to_string()), ..Optional::template() };
    let after = edits.merge_into(&before, before.created_at + 1000);
    assert_eq!(after.email, "dodgson@oxford.ac.uk");
    assert_eq!(after.updated_at, before.created_at + 1000);
    assert_eq!(Contact { email: before.email.clone(), updated_at: before.updated_at, ..after }, before);
}
