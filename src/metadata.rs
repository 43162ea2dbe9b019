use crate::date::now_millis;
use vstd::prelude::*;

verus! {

/// Bookkeeping kept for one contact: its flags and reminder schedule. Timestamps are
/// milliseconds since the Unix epoch.
#[derive(Debug, Clone, PartialEq, Eq)]
pub struct Metadata {
    pub contact_id: i64,
    pub starred: bool,
    pub is_archived: bool,
    pub created_at: i64,
    pub updated_at: i64,
    pub last_seen_at: Option<i64>,
    pub next_reminder_at: Option<i64>,
    pub frequency: Option<String>,
    pub last_reminder_at: Option<i64>,
}

impl Metadata {
    /// `self` is the metadata of a contact that was just created: not starred, not archived,
    /// created and updated at one instant, with no reminder set.
    pub open spec fn fresh_for(&self, contact_id: i64) -> bool {
        &&& self.contact_id == contact_id
        &&& !self.starred
        &&& !self.is_archived
        &&& self.created_at == self.updated_at
        &&& self.last_seen_at is None
        &&& self.next_reminder_at is None
        &&& self.frequency is None
        &&& self.last_reminder_at is None
    }

    /// The metadata of contact `contact_id`, created now.
    pub fn new(contact_id: i64) -> (r: Metadata)
        ensures
            r.fresh_for(contact_id),
    {
        let now = now_millis();
        Metadata {
            contact_id,
            starred: false,
            is_archived: false,
            created_at: now,
            updated_at: now,
            last_seen_at: None,
            next_reminder_at: None,
            frequency: None,
            last_reminder_at: None,
        }
    }

    /// A copy of `self`.
    pub fn duplicate(&self) -> (r: Metadata)
        ensures
            r == *self,
    {
        Metadata {
            contact_id: self.contact_id,
            starred: self.starred,
            is_archived: self.is_archived,
            created_at: self.created_at,
            updated_at: self.updated_at,
            last_seen_at: self.last_seen_at,
            next_reminder_at: self.next_reminder_at,
            frequency: match &self.frequency {
                Some(f) => Some(f.clone()),
                None => None,
            },
            last_reminder_at: self.last_reminder_at,
        }
    }
}

} // verus!
