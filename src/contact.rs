use crate::date::{birthday_of, default_date, now_millis, parse_birthday, unset_birthday, Date};
use crate::errors::{AppError, Fault};
use crate::validation::{email_valid, is_valid_email, is_valid_phone_number, phone_valid};
use vstd::prelude::*;

verus! {

/// A fully populated contact record.
///
/// A contact made by `Contact::new` holds an email and a phone number that are each empty or
/// well formed, and a birthday that is a day of the calendar (see `well_formed`).
#[derive(Debug, Clone, PartialEq, Eq)]
pub struct Contact {
    pub first_name: String,
    pub last_name: String,
    pub display_name: String,
    pub email: String,
    pub phone_number: String,
    pub birthday: Date,
    pub starred: bool,
    pub is_archived: bool,
    /// Milliseconds since the Unix epoch.
    pub created_at: i64,
    /// Milliseconds since the Unix epoch.
    pub updated_at: i64,
    pub last_seen_at: Option<i64>,
    pub frequency: Option<String>,
    pub last_reminder_at: Option<i64>,
}

/// The name shown for a contact: first name, a space, last name.
pub open spec fn display_name_of(first: Seq<char>, last: Seq<char>) -> Seq<char> {
    first + seq![' '] + last
}

/// An email field is acceptable when it is empty or well formed.
pub open spec fn email_acceptable(email: Seq<char>) -> bool {
    email.len() == 0 || email_valid(email)
}

/// A phone field is acceptable when it is empty or well formed.
pub open spec fn phone_acceptable(phone: Seq<char>) -> bool {
    phone.len() == 0 || phone_valid(phone)
}

/// The first check that the fields of a new contact fail, in the order email, phone number,
/// birthday; `None` when they pass them all.
pub open spec fn contact_fault(email: Seq<char>, phone: Seq<char>, birthday: Seq<char>) -> Option<
    Fault,
> {
    if !email_acceptable(email) {
        Some(Fault::InvalidEmail(email))
    } else if !phone_acceptable(phone) {
        Some(Fault::InvalidPhoneNumber(phone))
    } else if birthday_of(birthday) is None {
        Some(Fault::InvalidBirthday(birthday))
    } else {
        None
    }
}

impl Contact {
    /// The email and phone number are each empty or well formed, and the birthday is a day of
    /// the calendar.
    pub open spec fn well_formed(&self) -> bool {
        email_acceptable(self.email@) && phone_acceptable(self.phone_number@)
            && self.birthday.valid()
    }

    /// `self` is the contact that `Contact::new` makes of these fields, whatever its timestamps.
    pub open spec fn made_from(
        &self,
        first: Seq<char>,
        last: Seq<char>,
        email: Seq<char>,
        phone: Seq<char>,
        birthday: Seq<char>,
    ) -> bool {
        &&& self.first_name@ == first
        &&& self.last_name@ == last
        &&& self.display_name@ == display_name_of(first, last)
        &&& self.email@ == email
        &&& self.phone_number@ == phone
        &&& birthday_of(birthday) == Some(self.birthday.ymd())
        &&& !self.starred
        &&& !self.is_archived
        &&& self.created_at == self.updated_at
        &&& self.last_seen_at is None
        &&& self.frequency is None
        &&& self.last_reminder_at is None
    }

    /// A new contact. The display name is the first and last name joined by a space; a blank
    /// birthday becomes 0001-01-01. Fails on an email or phone number that is present but not
    /// well formed, or on a birthday that is neither blank nor a `YYYY-MM-DD` date, checked in
    /// that order.
    pub fn new(first_name: &str, last_name: &str, email: &str, phone_number: &str, birthday: &str) -> (r:
        Result<Contact, AppError>)
        ensures
            r is Err <==> contact_fault(email@, phone_number@, birthday@) is Some,
            r matches Err(e) ==> contact_fault(email@, phone_number@, birthday@) == Some(e@),
            r matches Ok(c) ==> c.made_from(first_name@, last_name@, email@, phone_number@, birthday@)
                && c.well_formed(),
    {
        let mut display_name = String::from_str(first_name);
        display_name.append(" ");
        display_name.append(last_name);
        proof {
            reveal_strlit(" ");
        }
        assert(display_name@ =~= display_name_of(first_name@, last_name@));
        if !email.is_empty() && !is_valid_email(email) {
            return Err(AppError::InvalidEmail(email.to_owned()));
        }
        if !phone_number.is_empty() && !is_valid_phone_number(phone_number) {
            return Err(AppError::InvalidPhoneNumber(phone_number.to_owned()));
        }
        let birthday = match parse_birthday(birthday) {
            Some(date) => date,
            None => {
                return Err(AppError::InvalidBirthday(birthday.to_owned()));
            },
        };
        let now = now_millis();
        Ok(Contact {
            first_name: first_name.to_owned(),
            last_name: last_name.to_owned(),
            display_name,
            email: email.to_owned(),
            phone_number: phone_number.to_owned(),
            birthday,
            starred: false,
            is_archived: false,
            created_at: now,
            updated_at: now,
            last_seen_at: None,
            frequency: None,
            last_reminder_at: None,
        })
    }
}

/// What a `ContactBuilder` holds: each field given so far, or the empty text for one not given.
pub ghost struct ContactDraft {
    pub first_name: Seq<char>,
    pub last_name: Seq<char>,
    pub email: Seq<char>,
    pub phone_number: Seq<char>,
    pub birthday: Seq<char>,
}

/// The text of an optional field, or the empty text where it is absent.
pub open spec fn text_or_empty(field: Option<String>) -> Seq<char> {
    match field {
        Some(s) => s@,
        None => Seq::empty(),
    }
}

/// Gathers the fields of a contact one at a time; `build` makes the contact.
#[derive(Debug, Default)]
pub struct ContactBuilder {
    first_name: Option<String>,
    last_name: Option<String>,
    email: Option<String>,
    phone_number: Option<String>,
    birthday: Option<String>,
}

impl View for ContactBuilder {
    type V = ContactDraft;

    closed spec fn view(&self) -> ContactDraft {
        ContactDraft {
            first_name: text_or_empty(self.first_name),
            last_name: text_or_empty(self.last_name),
            email: text_or_empty(self.email),
            phone_number: text_or_empty(self.phone_number),
            birthday: text_or_empty(self.birthday),
        }
    }
}

/// The text of an optional field, or a new empty string where it is absent.
fn take_or_empty(field: Option<String>) -> (r: String)
    ensures
        r@ == text_or_empty(field),
{
    match field {
        Some(s) => s,
        None => String::new(),
    }
}

impl ContactBuilder {
    /// A builder with no field given.
    pub fn new() -> (r: ContactBuilder)
        ensures
            r@ == (ContactDraft {
                first_name: Seq::empty(),
                last_name: Seq::empty(),
                email: Seq::empty(),
                phone_number: Seq::empty(),
                birthday: Seq::empty(),
            }),
    {
        ContactBuilder {
            first_name: None,
            last_name: None,
            email: None,
            phone_number: None,
            birthday: None,
        }
    }

    /// Sets the first name.
    pub fn first_name(self, first_name: &str) -> (r: ContactBuilder)
        ensures
            r@ == (ContactDraft { first_name: first_name@, ..self@ }),
    {
        ContactBuilder { first_name: Some(first_name.to_owned()), ..self }
    }

    /// Sets the last name.
    pub fn last_name(self, last_name: &str) -> (r: ContactBuilder)
        ensures
            r@ == (ContactDraft { last_name: last_name@, ..self@ }),
    {
        ContactBuilder { last_name: Some(last_name.to_owned()), ..self }
    }

    /// Sets the email address.
    pub fn email(self, email: &str) -> (r: ContactBuilder)
        ensures
            r@ == (ContactDraft { email: email@, ..self@ }),
    {
        ContactBuilder { email: Some(email.to_owned()), ..self }
    }

    /// Sets the phone number.
    pub fn phone_number(self, phone_number: &str) -> (r: ContactBuilder)
        ensures
            r@ == (ContactDraft { phone_number: phone_number@, ..self@ }),
    {
        ContactBuilder { phone_number: Some(phone_number.to_owned()), ..self }
    }

    /// Sets the birthday, as `YYYY-MM-DD` text.
    pub fn birthday(self, birthday: &str) -> (r: ContactBuilder)
        ensures
            r@ == (ContactDraft { birthday: birthday@, ..self@ }),
    {
        ContactBuilder { birthday: Some(birthday.to_owned()), ..self }
    }

    /// The contact that `Contact::new` makes of the fields given, with the empty text for each
    /// field not given.
    pub fn build(self) -> (r: Result<Contact, AppError>)
        ensures
            r is Err <==> contact_fault(self@.email, self@.phone_number, self@.birthday) is Some,
            r matches Err(e) ==> contact_fault(self@.email, self@.phone_number, self@.birthday)
                == Some(e@),
            r matches Ok(c) ==> c.made_from(
                self@.first_name,
                self@.last_name,
                self@.email,
                self@.phone_number,
                self@.birthday,
            ) && c.well_formed(),
    {
        let first_name = take_or_empty(self.first_name);
        let last_name = take_or_empty(self.last_name);
        let email = take_or_empty(self.email);
        let phone_number = take_or_empty(self.phone_number);
        let birthday = take_or_empty(self.birthday);
        Contact::new(
            first_name.as_str(),
            last_name.as_str(),
            email.as_str(),
            phone_number.as_str(),
            birthday.as_str(),
        )
    }
}

impl Contact {
    /// A builder with no field given.
    pub fn builder() -> (r: ContactBuilder)
        ensures
            r@ == (ContactDraft {
                first_name: Seq::empty(),
                last_name: Seq::empty(),
                email: Seq::empty(),
                phone_number: Seq::empty(),
                birthday: Seq::empty(),
            }),
    {
        ContactBuilder::new()
    }
}

/// A stored contact with the identifier that the store gave it.
#[derive(Debug, Clone, PartialEq, Eq)]
pub struct Indexed {
    pub id: i64,
    pub contact: Contact,
}

/// A contact in which every field may be absent: the fields of a partial update, or a row read
/// from an import file.
#[derive(Debug, Clone, PartialEq, Eq)]
pub struct Optional {
    pub first_name: Option<String>,
    pub last_name: Option<String>,
    pub display_name: Option<String>,
    pub email: Option<String>,
    pub phone_number: Option<String>,
    pub birthday: Option<Date>,
    pub starred: Option<bool>,
    pub is_archived: Option<bool>,
    pub last_seen_at: Option<i64>,
    pub frequency: Option<String>,
    pub last_reminder_at: Option<i64>,
}

impl Optional {
    /// Each email, phone number and birthday that is present is well formed.
    pub open spec fn fields_valid(&self) -> bool {
        &&& (self.email matches Some(e) ==> email_valid(e@))
        &&& (self.phone_number matches Some(p) ==> phone_valid(p@))
        &&& (self.birthday matches Some(d) ==> d.valid())
    }

    /// No field is present.
    pub open spec fn absent(&self) -> bool {
        &&& self.first_name is None
        &&& self.last_name is None
        &&& self.display_name is None
        &&& self.email is None
        &&& self.phone_number is None
        &&& self.birthday is None
        &&& self.starred is None
        &&& self.is_archived is None
        &&& self.last_seen_at is None
        &&& self.frequency is None
        &&& self.last_reminder_at is None
    }

    /// Whether no field is present.
    pub fn is_empty(&self) -> (r: bool)
        ensures
            r == self.absent(),
    {
        self.first_name.is_none() && self.last_name.is_none() && self.display_name.is_none()
            && self.email.is_none() && self.phone_number.is_none() && self.birthday.is_none()
            && self.starred.is_none() && self.is_archived.is_none() && self.last_seen_at.is_none()
            && self.frequency.is_none() && self.last_reminder_at.is_none()
    }

    /// A copy of `self`.
    pub fn duplicate(&self) -> (r: Optional)
        ensures
            r == *self,
    {
        Optional {
            first_name: copy_text(&self.first_name),
            last_name: copy_text(&self.last_name),
            display_name: copy_text(&self.display_name),
            email: copy_text(&self.email),
            phone_number: copy_text(&self.phone_number),
            birthday: self.birthday,
            starred: self.starred,
            is_archived: self.is_archived,
            last_seen_at: self.last_seen_at,
            frequency: copy_text(&self.frequency),
            last_reminder_at: self.last_reminder_at,
        }
    }

    /// The value with no field present.
    pub fn template() -> (r: Optional)
        ensures
            r.absent(),
    {
        Optional {
            first_name: None,
            last_name: None,
            display_name: None,
            email: None,
            phone_number: None,
            birthday: None,
            starred: None,
            is_archived: None,
            last_seen_at: None,
            frequency: None,
            last_reminder_at: None,
        }
    }
}

/// The first rule that a partial update breaks, in this order: it names no contact, its email is
/// present and not well formed, its phone number is present and not well formed, it has no field
/// present. `None` when it breaks none.
pub open spec fn update_fault(id: Option<i64>, fields: Optional) -> Option<Fault> {
    if id is None {
        Some(Fault::EmptyUpdate)
    } else if fields.email is Some && !email_valid(fields.email->0@) {
        Some(Fault::InvalidEmail(fields.email->0@))
    } else if fields.phone_number is Some && !phone_valid(fields.phone_number->0@) {
        Some(Fault::InvalidPhoneNumber(fields.phone_number->0@))
    } else if fields.absent() {
        Some(Fault::EmptyUpdate)
    } else {
        None
    }
}

/// A validated partial update of the stored contact `id`.
#[derive(Debug, Clone, PartialEq, Eq)]
pub struct Construct {
    pub id: i64,
    pub optional_contact: Optional,
}

/// Gathers the identifier and the fields of a partial update one at a time; `build` checks
/// them.
#[derive(Debug)]
pub struct ConstructBuilder {
    id: Option<i64>,
    fields: Optional,
}

impl ConstructBuilder {
    /// The identifier given so far.
    pub closed spec fn pending_id(&self) -> Option<i64> {
        self.id
    }

    /// The fields given so far.
    pub closed spec fn pending(&self) -> Optional {
        self.fields
    }

    /// A builder with no identifier and no field given.
    pub fn new() -> (r: ConstructBuilder)
        ensures
            r.pending_id() is None,
            r.pending().absent(),
    {
        ConstructBuilder { id: None, fields: Optional::template() }
    }

    /// Sets the identifier of the contact to update.
    pub fn id(self, id: i64) -> (r: ConstructBuilder)
        ensures
            r.pending_id() == Some(id),
            r.pending() == self.pending(),
    {
        ConstructBuilder { id: Some(id), ..self }
    }

    /// Sets the first name.
    pub fn first_name(self, first_name: String) -> (r: ConstructBuilder)
        ensures
            r.pending_id() == self.pending_id(),
            r.pending() == (Optional { first_name: Some(first_name), ..self.pending() }),
    {
        ConstructBuilder { fields: Optional { first_name: Some(first_name), ..self.fields }, ..self }
    }

    /// Sets the last name.
    pub fn last_name(self, last_name: String) -> (r: ConstructBuilder)
        ensures
            r.pending_id() == self.pending_id(),
            r.pending() == (Optional { last_name: Some(last_name), ..self.pending() }),
    {
        ConstructBuilder { fields: Optional { last_name: Some(last_name), ..self.fields }, ..self }
    }

    /// Sets the email address.
    pub fn email(self, email: String) -> (r: ConstructBuilder)
        ensures
            r.pending_id() == self.pending_id(),
            r.pending() == (Optional { email: Some(email), ..self.pending() }),
    {
        ConstructBuilder { fields: Optional { email: Some(email), ..self.fields }, ..self }
    }

    /// Sets the phone number.
    pub fn phone_number(self, phone_number: String) -> (r: ConstructBuilder)
        ensures
            r.pending_id() == self.pending_id(),
            r.pending() == (Optional { phone_number: Some(phone_number), ..self.pending() }),
    {
        ConstructBuilder {
            fields: Optional { phone_number: Some(phone_number), ..self.fields },
            ..self
        }
    }

    /// Sets the display name.
    pub fn display_name(self, display_name: String) -> (r: ConstructBuilder)
        ensures
            r.pending_id() == self.pending_id(),
            r.pending() == (Optional { display_name: Some(display_name), ..self.pending() }),
    {
        ConstructBuilder {
            fields: Optional { display_name: Some(display_name), ..self.fields },
            ..self
        }
    }

    /// Sets the birthday.
    pub fn birthday(self, birthday: Date) -> (r: ConstructBuilder)
        requires
            birthday.valid(),
        ensures
            r.pending_id() == self.pending_id(),
            r.pending() == (Optional { birthday: Some(birthday), ..self.pending() }),
    {
        ConstructBuilder { fields: Optional { birthday: Some(birthday), ..self.fields }, ..self }
    }

    /// Sets whether the contact is starred.
    pub fn starred(self, starred: bool) -> (r: ConstructBuilder)
        ensures
            r.pending_id() == self.pending_id(),
            r.pending() == (Optional { starred: Some(starred), ..self.pending() }),
    {
        ConstructBuilder { fields: Optional { starred: Some(starred), ..self.fields }, ..self }
    }

    /// Sets whether the contact is archived.
    pub fn archived(self, is_archived: bool) -> (r: ConstructBuilder)
        ensures
            r.pending_id() == self.pending_id(),
            r.pending() == (Optional { is_archived: Some(is_archived), ..self.pending() }),
    {
        ConstructBuilder {
            fields: Optional { is_archived: Some(is_archived), ..self.fields },
            ..self
        }
    }

    /// Sets when the contact was last seen, in milliseconds since the Unix epoch.
    pub fn last_seen_at(self, last_seen_at: i64) -> (r: ConstructBuilder)
        ensures
            r.pending_id() == self.pending_id(),
            r.pending() == (Optional { last_seen_at: Some(last_seen_at), ..self.pending() }),
    {
        ConstructBuilder {
            fields: Optional { last_seen_at: Some(last_seen_at), ..self.fields },
            ..self
        }
    }

    /// Sets the reminder cadence.
    pub fn frequency(self, frequency: String) -> (r: ConstructBuilder)
        ensures
            r.pending_id() == self.pending_id(),
            r.pending() == (Optional { frequency: Some(frequency), ..self.pending() }),
    {
        ConstructBuilder { fields: Optional { frequency: Some(frequency), ..self.fields }, ..self }
    }

    /// Sets when the contact was last reminded of, in milliseconds since the Unix epoch.
    pub fn last_reminder_at(self, last_reminder_at: i64) -> (r: ConstructBuilder)
        ensures
            r.pending_id() == self.pending_id(),
            r.pending() == (Optional { last_reminder_at: Some(last_reminder_at), ..self.pending() }),
    {
        ConstructBuilder {
            fields: Optional { last_reminder_at: Some(last_reminder_at), ..self.fields },
            ..self
        }
    }

    /// The partial update of the fields given, or the first rule they break (see
    /// `update_fault`).
    pub fn build(self) -> (r: Result<Construct, AppError>)
        requires
            self.pending().birthday matches Some(d) ==> d.valid(),
        ensures
            r is Err <==> update_fault(self.pending_id(), self.pending()) is Some,
            r matches Err(e) ==> update_fault(self.pending_id(), self.pending()) == Some(e@),
            r matches Ok(c) ==> self.pending_id() == Some(c.id) && c.optional_contact
                == self.pending() && c.optional_contact.fields_valid(),
    {
        let id = match self.id {
            Some(id) => id,
            None => {
                return Err(AppError::EmptyUpdate);
            },
        };
        match &self.fields.email {
            Some(email) => {
                if !is_valid_email(email.as_str()) {
                    return Err(AppError::InvalidEmail(email.clone()));
                }
            },
            None => {},
        }
        match &self.fields.phone_number {
            Some(phone_number) => {
                if !is_valid_phone_number(phone_number.as_str()) {
                    return Err(AppError::InvalidPhoneNumber(phone_number.clone()));
                }
            },
            None => {},
        }
        if self.fields.is_empty() {
            return Err(AppError::EmptyUpdate);
        }
        Ok(Construct { id, optional_contact: self.fields })
    }
}

/// The fields that `Construct::new` takes, with every other field absent.
pub open spec fn edits_of(
    first_name: Option<String>,
    last_name: Option<String>,
    email: Option<String>,
    phone_number: Option<String>,
    display_name: Option<String>,
    birthday: Option<Date>,
) -> Optional {
    Optional {
        first_name,
        last_name,
        display_name,
        email,
        phone_number,
        birthday,
        starred: None,
        is_archived: None,
        last_seen_at: None,
        frequency: None,
        last_reminder_at: None,
    }
}

impl Construct {
    /// A builder with no identifier and no field given.
    pub fn builder() -> (r: ConstructBuilder)
        ensures
            r.pending_id() is None,
            r.pending().absent(),
    {
        ConstructBuilder::new()
    }

    /// A partial update of contact `id` with the fields given. Fails with `InvalidEmail` or
    /// `InvalidPhoneNumber` (in that order) on a present field that is not well formed, and with
    /// `EmptyUpdate` when every field is absent.
    pub fn new(
        id: i64,
        first_name: Option<String>,
        last_name: Option<String>,
        email: Option<String>,
        phone_number: Option<String>,
        display_name: Option<String>,
        birthday: Option<Date>,
    ) -> (r: Result<Construct, AppError>)
        requires
            birthday matches Some(d) ==> d.valid(),
        ensures
            r is Err <==> update_fault(
                Some(id),
                edits_of(first_name, last_name, email, phone_number, display_name, birthday),
            ) is Some,
            r matches Err(e) ==> update_fault(
                Some(id),
                edits_of(first_name, last_name, email, phone_number, display_name, birthday),
            ) == Some(e@),
            r matches Ok(c) ==> c.id == id && c.optional_contact == edits_of(
                first_name,
                last_name,
                email,
                phone_number,
                display_name,
                birthday,
            ) && c.optional_contact.fields_valid(),
    {
        let mut builder = ConstructBuilder::new().id(id);
        match first_name {
            Some(first_name) => {
                builder = builder.first_name(first_name);
            },
            None => {},
        }
        match last_name {
            Some(last_name) => {
                builder = builder.last_name(last_name);
            },
            None => {},
        }
        match email {
            Some(email) => {
                builder = builder.email(email);
            },
            None => {},
        }
        match phone_number {
            Some(phone_number) => {
                builder = builder.phone_number(phone_number);
            },
            None => {},
        }
        match display_name {
            Some(display_name) => {
                builder = builder.display_name(display_name);
            },
            None => {},
        }
        match birthday {
            Some(birthday) => {
                builder = builder.birthday(birthday);
            },
            None => {},
        }
        assert(builder.pending() == edits_of(
            first_name,
            last_name,
            email,
            phone_number,
            display_name,
            birthday,
        ));
        builder.build()
    }
}

/// The text of an optional string field.
pub open spec fn opt_text(field: Option<String>) -> Option<Seq<char>> {
    match field {
        Some(s) => Some(s@),
        None => None,
    }
}

/// The text of `given` where it is present, else the text of `kept`.
pub open spec fn pick_text(given: Option<String>, kept: String) -> Seq<char> {
    match given {
        Some(s) => s@,
        None => kept@,
    }
}

/// `given` where it is present, else `kept`.
pub open spec fn pick<T>(given: Option<T>, kept: T) -> T {
    match given {
        Some(v) => v,
        None => kept,
    }
}

/// `given` where it is present, else `kept`.
pub open spec fn or_else<T>(given: Option<T>, kept: Option<T>) -> Option<T> {
    match given {
        Some(v) => Some(v),
        None => kept,
    }
}

/// A copy of an optional string.
pub(crate) fn copy_text(field: &Option<String>) -> (r: Option<String>)
    ensures
        r == *field,
{
    match field {
        Some(s) => Some(s.clone()),
        None => None,
    }
}

/// A copy of the text of `given` where it is present, else of `kept`.
fn choose_text(given: &Option<String>, kept: &String) -> (r: String)
    ensures
        r@ == pick_text(*given, *kept),
{
    match given {
        Some(s) => s.clone(),
        None => kept.clone(),
    }
}

/// `given` where it is present, else `kept`.
fn choose_option<T: Copy>(given: Option<T>, kept: Option<T>) -> (r: Option<T>)
    ensures
        r == or_else(given, kept),
{
    match given {
        Some(v) => Some(v),
        None => kept,
    }
}

/// A copy of `given` where it is present, else `kept`.
fn choose_value<T: Copy>(given: Option<T>, kept: T) -> (r: T)
    ensures
        r == pick(given, kept),
{
    match given {
        Some(v) => v,
        None => kept,
    }
}

impl Contact {
    /// A copy of `self`.
    pub fn duplicate(&self) -> (r: Contact)
        ensures
            r == *self,
    {
        Contact {
            first_name: self.first_name.clone(),
            last_name: self.last_name.clone(),
            display_name: self.display_name.clone(),
            email: self.email.clone(),
            phone_number: self.phone_number.clone(),
            birthday: self.birthday,
            starred: self.starred,
            is_archived: self.is_archived,
            created_at: self.created_at,
            updated_at: self.updated_at,
            last_seen_at: self.last_seen_at,
            frequency: copy_text(&self.frequency),
            last_reminder_at: self.last_reminder_at,
        }
    }
}

impl Indexed {
    /// A copy of `self`.
    pub fn duplicate(&self) -> (r: Indexed)
        ensures
            r == *self,
    {
        Indexed { id: self.id, contact: self.contact.duplicate() }
    }
}

impl Optional {
    /// `after` is `before` with every field that `self` holds put in its place, and updated at
    /// `now`: a field absent from `self` keeps its stored value.
    pub open spec fn merged_into(self, before: Contact, now: i64, after: Contact) -> bool {
        &&& after.first_name@ == pick_text(self.first_name, before.first_name)
        &&& after.last_name@ == pick_text(self.last_name, before.last_name)
        &&& after.display_name@ == pick_text(self.display_name, before.display_name)
        &&& after.email@ == pick_text(self.email, before.email)
        &&& after.phone_number@ == pick_text(self.phone_number, before.phone_number)
        &&& after.birthday == pick(self.birthday, before.birthday)
        &&& after.starred == pick(self.starred, before.starred)
        &&& after.is_archived == pick(self.is_archived, before.is_archived)
        &&& after.created_at == before.created_at
        &&& after.updated_at == now
        &&& after.last_seen_at == or_else(self.last_seen_at, before.last_seen_at)
        &&& opt_text(after.frequency) == or_else(opt_text(self.frequency), opt_text(before.frequency))
        &&& after.last_reminder_at == or_else(self.last_reminder_at, before.last_reminder_at)
    }

    /// `c` is the full contact stored for `self`: an absent name, email or phone number becomes
    /// the empty text, an absent display name becomes the first and last name joined by a space,
    /// an absent birthday becomes 0001-01-01, an absent flag becomes false, and the contact is
    /// created and updated at one instant.
    pub open spec fn stored_as(self, c: Contact) -> bool {
        &&& c.first_name@ == text_or_empty(self.first_name)
        &&& c.last_name@ == text_or_empty(self.last_name)
        &&& c.display_name@ == match self.display_name {
            Some(d) => d@,
            None => display_name_of(text_or_empty(self.first_name), text_or_empty(self.last_name)),
        }
        &&& c.email@ == text_or_empty(self.email)
        &&& c.phone_number@ == text_or_empty(self.phone_number)
        &&& c.birthday.ymd() == match self.birthday {
            Some(d) => d.ymd(),
            None => unset_birthday(),
        }
        &&& c.starred == (self.starred == Some(true))
        &&& c.is_archived == (self.is_archived == Some(true))
        &&& c.created_at == c.updated_at
        &&& c.last_seen_at == self.last_seen_at
        &&& opt_text(c.frequency) == opt_text(self.frequency)
        &&& c.last_reminder_at == self.last_reminder_at
    }

    /// The full contact stored for these fields when it is created at `now` (see `stored_as`).
    pub fn to_contact(&self, now: i64) -> (c: Contact)
        ensures
            self.stored_as(c),
            c.created_at == now,
            self.fields_valid() ==> c.well_formed(),
    {
        let first_name = match &self.first_name {
            Some(s) => s.clone(),
            None => String::new(),
        };
        let last_name = match &self.last_name {
            Some(s) => s.clone(),
            None => String::new(),
        };
        let display_name = match &self.display_name {
            Some(s) => s.clone(),
            None => {
                let mut d = first_name.clone();
                d.append(" ");
                d.append(last_name.as_str());
                proof {
                    reveal_strlit(" ");
                }
                assert(d@ =~= display_name_of(first_name@, last_name@));
                d
            },
        };
        Contact {
            first_name,
            last_name,
            display_name,
            email: match &self.email {
                Some(s) => s.clone(),
                None => String::new(),
            },
            phone_number: match &self.phone_number {
                Some(s) => s.clone(),
                None => String::new(),
            },
            birthday: match self.birthday {
                Some(d) => d,
                None => default_date(),
            },
            starred: self.starred == Some(true),
            is_archived: self.is_archived == Some(true),
            created_at: now,
            updated_at: now,
            last_seen_at: self.last_seen_at,
            frequency: copy_text(&self.frequency),
            last_reminder_at: self.last_reminder_at,
        }
    }

    /// `before` with every field that `self` holds put in its place, updated at `now` (see
    /// `merged_into`).
    pub fn merge_into(&self, before: &Contact, now: i64) -> (after: Contact)
        ensures
            self.merged_into(*before, now, after),
            self.fields_valid() && before.well_formed() ==> after.well_formed(),
    {
        Contact {
            first_name: choose_text(&self.first_name, &before.first_name),
            last_name: choose_text(&self.last_name, &before.last_name),
            display_name: choose_text(&self.display_name, &before.display_name),
            email: choose_text(&self.email, &before.email),
            phone_number: choose_text(&self.phone_number, &before.phone_number),
            birthday: choose_value(self.birthday, before.birthday),
            starred: choose_value(self.starred, before.starred),
            is_archived: choose_value(self.is_archived, before.is_archived),
            created_at: before.created_at,
            updated_at: now,
            last_seen_at: choose_option(self.last_seen_at, before.last_seen_at),
            frequency: match &self.frequency {
                Some(f) => Some(f.clone()),
                None => copy_text(&before.frequency),
            },
            last_reminder_at: choose_option(self.last_reminder_at, before.last_reminder_at),
        }
    }
}

} // verus!
