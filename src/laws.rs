use crate::contact::{contact_fault, email_acceptable, opt_text, update_fault, Contact, Indexed, Optional};
use crate::csv_import::{
    birthday_bad, csv_named, csv_records_of, data_rows, first_bad_birthday, first_bad_row,
    import_fault, phone_bad, row_bad, row_cell, PHONE_NUMBER_COLUMN,
};
use crate::date::birthday_of;
use crate::errors::Fault;
use crate::metadata::Metadata;
use crate::store::StoreView;
use crate::validation::phone_valid;
use vstd::prelude::*;

verus! {

/// With an acceptable email and birthday, the phone number alone decides `Contact::new`: a
/// non-empty phone number that is not well formed makes it fail with `InvalidPhoneNumber` of
/// that very number, and a well-formed one lets it succeed.
pub proof fn lemma_phone_number_decides(email: Seq<char>, phone: Seq<char>, birthday: Seq<char>)
    requires
        email_acceptable(email),
        birthday_of(birthday) is Some,
    ensures
        phone.len() > 0 && !phone_valid(phone) ==> contact_fault(email, phone, birthday) == Some(
            Fault::InvalidPhoneNumber(phone),
        ),
        phone_valid(phone) ==> contact_fault(email, phone, birthday) is None,
{
}

/// A partial update with every field absent fails with `EmptyUpdate`, whatever contact it
/// names.
pub proof fn lemma_empty_update_fails(id: Option<i64>, fields: Optional)
    requires
        fields.absent(),
    ensures
        update_fault(id, fields) == Some(Fault::EmptyUpdate),
{
}

/// Saving a contact and then looking up the identifier that the save gave returns that very
/// contact.
pub proof fn lemma_save_then_get(store: StoreView, contact: Contact, metadata: Metadata)
    requires
        store.wf(),
        store.next_id < i64::MAX,
    ensures
        store.inserted(contact, metadata).contact_with_id(store.next_id as i64) == Some(
            Indexed { id: store.next_id as i64, contact },
        ),
{
    let after = store.inserted(contact, metadata);
    let id = store.next_id as i64;
    let last = store.rows.len() as int;
    assert(after.rows[last].id == id);
    assert(after.has(id));
    let p = after.position(id);
    if p != last {
        assert(after.rows[p] == store.rows[p]);
        assert(store.rows[p].id < store.next_id);
    }
    assert(p == last);
}

/// Listing the contacts of a store twice, with no write between, gives identical lists in
/// identical order.
pub proof fn lemma_listing_is_stable(store: StoreView, first: Seq<Indexed>, second: Seq<Indexed>)
    requires
        first == store.rows,
        second == store.rows,
    ensures
        first == second,
{
}

/// The partial update whose only field is the email `email`.
pub open spec fn email_only(email: String) -> Optional {
    Optional {
        first_name: None,
        last_name: None,
        display_name: None,
        email: Some(email),
        phone_number: None,
        birthday: None,
        starred: None,
        is_archived: None,
        last_seen_at: None,
        frequency: None,
        last_reminder_at: None,
    }
}

/// An update that holds only an email changes the email and the update time of the stored
/// contact and nothing else.
pub proof fn lemma_email_update_changes_only_email(
    before: Contact,
    email: String,
    now: i64,
    after: Contact,
)
    requires
        email_only(email).merged_into(before, now, after),
    ensures
        after.email@ == email@,
        after.updated_at == now,
        after.first_name@ == before.first_name@,
        after.last_name@ == before.last_name@,
        after.display_name@ == before.display_name@,
        after.phone_number@ == before.phone_number@,
        after.birthday == before.birthday,
        after.starred == before.starred,
        after.is_archived == before.is_archived,
        after.created_at == before.created_at,
        after.last_seen_at == before.last_seen_at,
        opt_text(after.frequency) == opt_text(before.frequency),
        after.last_reminder_at == before.last_reminder_at,
{
}

/// After a contact is deleted, looking it up finds nothing, and neither does looking up its
/// metadata. Where there was no such contact the delete changes nothing, and both lookups find
/// nothing too.
pub proof fn lemma_delete_then_get(store: StoreView, id: i64)
    requires
        store.wf(),
    ensures
        store.has(id) ==> store.removed(id).contact_with_id(id) is None
            && store.removed(id).metadata_for(id) is None,
        !store.has(id) ==> store.contact_with_id(id) is None && store.metadata_for(id) is None,
{
    if store.has(id) {
        let p = store.position(id);
        let after = store.removed(id);
        store.rows.remove_ensures(p);
        store.metadata.remove_ensures(p);
        assert forall|k: int| 0 <= k < after.rows.len() implies #[trigger] after.rows[k].id != id by {
            let o = if k < p { k } else { k + 1 };
            assert(after.rows[k] == store.rows[o]);
            if o < p {
                assert(store.rows[o].id < store.rows[p].id);
            } else {
                assert(store.rows[p].id < store.rows[o].id);
            }
        }
        assert forall|k: int| 0 <= k < after.metadata.len() implies #[trigger] after.metadata[
            k].contact_id != id by {
            let o = if k < p { k } else { k + 1 };
            assert(after.metadata[k] == store.metadata[o]);
            assert(after.rows[k] == store.rows[o]);
            assert(store.metadata[o].contact_id == store.rows[o].id);
            assert(after.rows[k].id != id);
        }
    } else {
        assert forall|k: int| 0 <= k < store.metadata.len() implies #[trigger] store.metadata[
            k].contact_id != id by {
            assert(store.metadata[k].contact_id == store.rows[k].id);
        }
    }
}

/// An import file whose rows are all good but one, whose phone number is not well formed, fails
/// as a whole with `InvalidPhoneNumber` of that number. `import_contacts_by_csv` stores nothing
/// for a file that fails, so a listing taken afterwards is the listing taken before.
pub proof fn lemma_one_bad_phone_fails_import(filename: Seq<char>, contents: Seq<u8>, bad: int)
    requires
        csv_named(filename),
        contents.len() > 0,
        csv_records_of(contents) is Some,
        0 <= bad < data_rows(csv_records_of(contents)->0),
        phone_bad(csv_records_of(contents)->0, bad),
        forall|j: int|
            0 <= j < data_rows(csv_records_of(contents)->0) ==> !#[trigger] birthday_bad(
                csv_records_of(contents)->0,
                j,
            ),
        forall|j: int|
            0 <= j < data_rows(csv_records_of(contents)->0) && j != bad ==> !#[trigger] row_bad(
                csv_records_of(contents)->0,
                j,
            ),
    ensures
        import_fault(filename, Some(contents)) == Some(
            Fault::InvalidPhoneNumber(
                row_cell(csv_records_of(contents)->0, bad, PHONE_NUMBER_COLUMN@)->0,
            ),
        ),
{
    let records = csv_records_of(contents)->0;
    assert(first_bad_birthday(records) is None);
    assert(row_bad(records, bad));
    assert(0 <= bad < data_rows(records) && row_bad(records, bad) && forall|i: int|
        0 <= i < bad ==> !#[trigger] row_bad(records, i));
    let c = choose|c: int|
        0 <= c < data_rows(records) && row_bad(records, c) && forall|i: int|
            0 <= i < c ==> !#[trigger] row_bad(records, i);
    assert(c == bad);
    assert(first_bad_row(records) == Some(bad));
}

} // verus!
