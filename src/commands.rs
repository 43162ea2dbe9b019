use crate::contact::{
    contact_fault, copy_text, edits_of, text_or_empty, update_fault, Construct, Contact,
};
use crate::errors::AppError;
use vstd::prelude::*;

verus! {

/// A command-line invocation: the one command it names.
pub struct Cli {
    pub command: Commands,
}

/// The commands of the contact book.
pub enum Commands {
    /// Initialize a new contact book.
    Init,
    /// Create a contact.
    Create(CreateCommand),
    /// Edit a contact by identifier.
    Edit(EditCommand),
    /// Show every contact.
    Show,
    /// Show one contact.
    Get(GetCommand),
    /// Delete a contact.
    Delete(DeleteCommand),
    /// Import contacts from a CSV file.
    Import(ImportCommand),
}

/// The fields of a contact to create; each may be left out.
pub struct CreateCommand {
    pub first_name: Option<String>,
    pub last_name: Option<String>,
    pub display_name: Option<String>,
    pub email: Option<String>,
    pub phone_number: Option<String>,
    pub birthday: Option<String>,
}

/// The identifier of a contact to edit and the fields to change.
pub struct EditCommand {
    pub id: i64,
    pub first_name: Option<String>,
    pub last_name: Option<String>,
    pub display_name: Option<String>,
    pub email: Option<String>,
    pub phone_number: Option<String>,
}

/// The identifier of a contact to show.
pub struct GetCommand {
    pub id: i64,
}

/// The identifier of a contact to delete.
pub struct DeleteCommand {
    pub id: i64,
}

/// The name of a CSV file to import.
pub struct ImportCommand {
    pub filename: String,
}

/// The text of an optional field, or the empty text where it is absent.
fn text_of(field: &Option<String>) -> (r: &str)
    ensures
        r@ == text_or_empty(*field),
{
    proof {
        reveal_strlit("");
    }
    match field {
        Some(s) => s.as_str(),
        None => "",
    }
}

impl CreateCommand {
    /// The contact to create: `Contact::new` of the fields given, with the empty text for each
    /// field left out. The display name given is not used; it is made of the first and last
    /// name.
    pub fn to_contact(&self) -> (r: Result<Contact, AppError>)
        ensures
            r is Err <==> contact_fault(
                text_or_empty(self.email),
                text_or_empty(self.phone_number),
                text_or_empty(self.birthday),
            ) is Some,
            r matches Err(e) ==> contact_fault(
                text_or_empty(self.email),
                text_or_empty(self.phone_number),
                text_or_empty(self.birthday),
            ) == Some(e@),
            r matches Ok(c) ==> c.made_from(
                text_or_empty(self.first_name),
                text_or_empty(self.last_name),
                text_or_empty(self.email),
                text_or_empty(self.phone_number),
                text_or_empty(self.birthday),
            ),
    {
        Contact::new(
            text_of(&self.first_name),
            text_of(&self.last_name),
            text_of(&self.email),
            text_of(&self.phone_number),
            text_of(&self.birthday),
        )
    }
}

impl EditCommand {
    /// The partial update to apply: `Construct::new` of the identifier and the fields given,
    /// with no birthday.
    pub fn to_update(&self) -> (r: Result<Construct, AppError>)
        ensures
            r is Err <==> update_fault(
                Some(self.id),
                edits_of(
                    self.first_name,
                    self.last_name,
                    self.email,
                    self.phone_number,
                    self.display_name,
                    None,
                ),
            ) is Some,
            r matches Err(e) ==> update_fault(
                Some(self.id),
                edits_of(
                    self.first_name,
                    self.last_name,
                    self.email,
                    self.phone_number,
                    self.display_name,
                    None,
                ),
            ) == Some(e@),
            r matches Ok(c) ==> c.id == self.id && c.optional_contact == edits_of(
                self.first_name,
                self.last_name,
                self.email,
                self.phone_number,
                self.display_name,
                None,
            ),
    {
        Construct::new(
            self.id,
            copy_text(&self.first_name),
            copy_text(&self.last_name),
            copy_text(&self.email),
            copy_text(&self.phone_number),
            copy_text(&self.display_name),
            None,
        )
    }
}

} // verus!
