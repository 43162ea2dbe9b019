//! A personal contact book: validated contact records, partial updates, per-contact metadata,
//! CSV import, and an in-memory repository that stores them.

pub mod agent;
pub mod commands;
pub mod contact;
pub mod csv_import;
pub mod date;
pub mod email;
pub mod errors;
pub mod laws;
pub mod metadata;
pub mod phone_number;
pub mod profile;
pub mod repo;
pub mod store;
pub mod validation;

pub use agent::{Agent, AgentBuilder};
pub use commands::{Cli, Commands, CreateCommand, DeleteCommand, EditCommand, GetCommand, ImportCommand};
pub use contact::Indexed as IndexedContact;
pub use contact::Optional as OptionalContact;
pub use contact::{Construct, ConstructBuilder, Contact, ContactBuilder, Indexed, Optional};
pub use csv_import::{csv_to_contacts, process_csv_to_contacts, validate_csv_extension, validate_csv_file, validate_csv_format};
pub use date::{default_date, parse_birthday, Date};
pub use email::Email;
pub use errors::AppError;
pub use metadata::Metadata;
pub use phone_number::PhoneNumber;
pub use profile::{Profile, ProfileBuilder};
pub use repo::Repo;
pub use store::{ContactRepo, MemoryStore, MetadataRepo};
pub use validation::{is_not_valid_email, is_not_valid_phone_number, is_valid_email, is_valid_phone_number};
