use nbd::{Email, PhoneNumber};

#[test]
fn test_email_creation_valid() {
    let email = Email::new("user@example.com".to_string());
    assert!(email.is_ok());
    assert_eq!(email.unwrap().to_string(), "user@example.com");
}

#[test]
fn test_email_creation_invalid() {
    let email = Email::new("invalid_email".to_string());
    assert!(email.is_err());
    assert_eq!(email.unwrap_err(), "Invalid email format");
}

#[test]
fn test_email_display() {
    let email = Email::new("user@example.com".to_string()).unwrap();
    assert_eq!(email.to_string(), "user@example.com");
}

#[test]
fn phone_number_test_phone_number_new_valid() {
    let valid_number = "1234567890".to_string();
    assert!(PhoneNumber::new(valid_number).is_ok());
}

#[test]
fn phone_number_test_phone_number_new_invalid() {
    let invalid_number = "123".to_string();
    assert!(PhoneNumber::new(invalid_number).is_err());
}

#[test]
fn phone_number_test_phone_number_display() {
    let phone = PhoneNumber::new("1234567890".to_string()).unwrap();
    assert_eq!(phone.to_string(), "1234567890");
}

#[test]
fn invalid_phone_number_has_its_message() {
    assert_eq!(PhoneNumber::new("123".to_string()).unwrap_err(), "Invalid phone number format");
}
