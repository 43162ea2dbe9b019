use crate::contact::{Contact, Indexed, Optional};
use crate::csv_import::{contents_view, csv_records_of, data_rows, import_fault, process_csv_to_contacts};
use crate::date::now_millis;
use crate::errors::{AppError, Fault};
use crate::metadata::Metadata;
use vstd::prelude::*;

verus! {

/// What a contact store holds: its contacts in ascending order of identifier, the metadata of
/// each (at the same position), and the identifier that the next contact will get.
pub ghost struct StoreView {
    pub rows: Seq<Indexed>,
    pub metadata: Seq<Metadata>,
    pub next_id: int,
}

impl StoreView {
    /// Identifiers are positive, below the next one and strictly ascending, each contact has its
    /// metadata at its own position, and every stored contact is well formed.
    pub open spec fn wf(self) -> bool {
        &&& 1 <= self.next_id <= i64::MAX
        &&& forall|i: int| 0 <= i < self.rows.len() ==> (#[trigger] self.rows[i]).contact.well_formed()
        &&& self.rows.len() == self.metadata.len()
        &&& forall|i: int|
            0 <= i < self.rows.len() ==> self.metadata[i].contact_id == #[trigger] self.rows[i].id
        &&& forall|i: int| 0 <= i < self.rows.len() ==> 1 <= #[trigger] self.rows[i].id < self.next_id
        &&& forall|i: int, j: int|
            0 <= i < j < self.rows.len() ==> #[trigger] self.rows[i].id < #[trigger] self.rows[j].id
    }

    /// Some stored contact has identifier `id`.
    pub open spec fn has(self, id: i64) -> bool {
        exists|i: int| 0 <= i < self.rows.len() && #[trigger] self.rows[i].id == id
    }

    /// The position of the contact with identifier `id`, where there is one.
    pub open spec fn position(self, id: i64) -> int {
        choose|i: int| 0 <= i < self.rows.len() && #[trigger] self.rows[i].id == id
    }

    /// The stored contact with identifier `id`, if any.
    pub open spec fn contact_with_id(self, id: i64) -> Option<Indexed> {
        if self.has(id) {
            Some(self.rows[self.position(id)])
        } else {
            None
        }
    }

    /// The metadata stored for contact `id`, if any.
    pub open spec fn metadata_for(self, id: i64) -> Option<Metadata> {
        if exists|i: int| 0 <= i < self.metadata.len() && #[trigger] self.metadata[i].contact_id == id {
            Some(
                self.metadata[choose|i: int|
                    0 <= i < self.metadata.len() && #[trigger] self.metadata[i].contact_id == id],
            )
        } else {
            None
        }
    }

    /// The store after `contact` is added under the next identifier, with `metadata`.
    pub open spec fn inserted(self, contact: Contact, metadata: Metadata) -> StoreView {
        StoreView {
            rows: self.rows.push(Indexed { id: self.next_id as i64, contact }),
            metadata: self.metadata.push(metadata),
            next_id: self.next_id + 1,
        }
    }

    /// The store after the contact with identifier `id` is replaced by `contact`.
    pub open spec fn replaced(self, id: i64, contact: Contact) -> StoreView {
        StoreView { rows: self.rows.update(self.position(id), Indexed { id, contact }), ..self }
    }

    /// The store after the metadata of contact `id` is replaced by `metadata`.
    pub open spec fn metadata_replaced(self, id: i64, metadata: Metadata) -> StoreView {
        StoreView { metadata: self.metadata.update(self.position(id), metadata), ..self }
    }

    /// The store after the contact with identifier `id` and its metadata are removed.
    pub open spec fn removed(self, id: i64) -> StoreView {
        StoreView {
            rows: self.rows.remove(self.position(id)),
            metadata: self.metadata.remove(self.position(id)),
            next_id: self.next_id,
        }
    }
}

/// `after` is `before` with the rows of `records` stored in order, each as `Optional::stored_as`
/// makes it of the row that `Optional::read_from` reads, with fresh metadata; `r` is their
/// number, or a storage error when identifiers ran out (the rows stored before it are kept).
pub open spec fn imported(
    before: StoreView,
    after: StoreView,
    records: Seq<Seq<Seq<char>>>,
    r: Result<i64, AppError>,
) -> bool {
    let n = data_rows(records);
    let stored = after.rows.len() - before.rows.len();
    &&& r is Ok <==> before.next_id + n <= i64::MAX
    &&& r matches Ok(count) ==> count == n && stored == n
    &&& r matches Err(e) ==> e@ is StorageError
    &&& 0 <= stored <= n
    &&& after.rows.subrange(0, before.rows.len() as int) == before.rows
    &&& after.metadata.subrange(0, before.metadata.len() as int) == before.metadata
    &&& after.next_id == before.next_id + stored
    &&& forall|k: int|
        0 <= k < stored ==> {
            &&& (#[trigger] after.rows[before.rows.len() + k]).id == before.next_id + k
            &&& exists|row: Optional|
                #[trigger] row.read_from(records[0], records[k + 1]) && row.stored_as(
                    after.rows[before.rows.len() + k].contact,
                )
            &&& after.metadata[before.rows.len() + k].fresh_for(after.rows[before.rows.len() + k].id)
        }
}

/// The operations of a contact store on contacts. Identifiers are given in ascending order from
/// 1 and never reused; the only failure of a write that is not about its input is running out
/// of identifiers.
pub trait ContactRepo {
    /// What the store holds.
    spec fn stored(&self) -> StoreView;

    /// Stores `contact` under the next identifier, with fresh metadata, and returns the
    /// identifier.
    fn save_contact(&mut self, contact: Contact) -> (r: Result<i64, AppError>)
        requires
            old(self).stored().wf(),
            contact.well_formed(),
        ensures
            final(self).stored().wf(),
            r is Ok <==> old(self).stored().next_id < i64::MAX,
            r matches Ok(id) ==> {
                &&& id == old(self).stored().next_id
                &&& final(self).stored() == old(self).stored().inserted(
                    contact,
                    final(self).stored().metadata.last(),
                )
                &&& final(self).stored().metadata.last().fresh_for(id)
            },
            r matches Err(e) ==> e@ is StorageError && final(self).stored() == old(self).stored(),
    ;

    /// Stores the full contact made of `contact` (see `Optional::stored_as`) under the next
    /// identifier, with fresh metadata, and returns the identifier.
    fn save_optional_contact(&mut self, contact: Optional) -> (r: Result<i64, AppError>)
        requires
            old(self).stored().wf(),
            contact.fields_valid(),
        ensures
            final(self).stored().wf(),
            r is Ok <==> old(self).stored().next_id < i64::MAX,
            r matches Ok(id) ==> {
                &&& id == old(self).stored().next_id
                &&& contact.stored_as(final(self).stored().rows.last().contact)
                &&& final(self).stored() == old(self).stored().inserted(
                    final(self).stored().rows.last().contact,
                    final(self).stored().metadata.last(),
                )
                &&& final(self).stored().metadata.last().fresh_for(id)
            },
            r matches Err(e) ==> e@ is StorageError && final(self).stored() == old(self).stored(),
    ;

    /// Imports the file `filename`, whose contents are `contents` (`None` where it could not be
    /// opened): reads every row with `process_csv_to_contacts`, then stores each row in order as
    /// `save_optional_contact` does, and returns how many were stored. A fault of the file stores
    /// nothing; running out of identifiers part way keeps the rows stored before.
    fn import_contacts_by_csv(&mut self, filename: &str, contents: Option<&[u8]>) -> (r: Result<
        i64,
        AppError,
    >)
        requires
            old(self).stored().wf(),
        ensures
            final(self).stored().wf(),
            import_fault(filename@, contents_view(contents)) is Some ==> {
                &&& r matches Err(e) && import_fault(filename@, contents_view(contents)) == Some(e@)
                &&& final(self).stored() == old(self).stored()
            },
            import_fault(filename@, contents_view(contents)) is None ==> imported(
                old(self).stored(),
                final(self).stored(),
                csv_records_of(contents->0@)->0,
                r,
            ),
    ;

    /// Every stored contact, in ascending order of identifier.
    fn get_all_contacts(&self) -> (r: Result<Vec<Indexed>, AppError>)
        requires
            self.stored().wf(),
        ensures
            r matches Ok(all) && all@ == self.stored().rows,
    ;

    /// The stored contact with identifier `id`; `NotFound` when there is none.
    fn get_contact_by_id(&self, id: i64) -> (r: Result<Indexed, AppError>)
        requires
            self.stored().wf(),
        ensures
            r is Ok <==> self.stored().has(id),
            r matches Ok(found) ==> self.stored().contact_with_id(id) == Some(found),
            r matches Err(e) ==> e@ == Fault::NotFound(id as int),
    ;

    /// Applies a partial update to the stored contact `update.id`: each field present in the
    /// update replaces the stored one, the others are kept, and the contact is marked updated
    /// now. `NotFound` when no contact has that identifier.
    fn update_contact(&mut self, update: &crate::contact::Construct) -> (r: Result<(), AppError>)
        requires
            old(self).stored().wf(),
            update.optional_contact.fields_valid(),
        ensures
            final(self).stored().wf(),
            r is Ok <==> old(self).stored().has(update.id),
            r is Ok ==> exists|now: i64, after: Contact|
                {
                    &&& update.optional_contact.merged_into(
                        old(self).stored().contact_with_id(update.id)->0.contact,
                        now,
                        after,
                    )
                    &&& final(self).stored() == old(self).stored().replaced(update.id, after)
                },
            r matches Err(e) ==> e@ == Fault::NotFound(update.id as int) && final(self).stored()
                == old(self).stored(),
    ;

    /// Removes the contact with identifier `id` and its metadata, and returns `id`; `NotFound`
    /// when there is none.
    fn delete_contact_by_id(&mut self, id: i64) -> (r: Result<i64, AppError>)
        requires
            old(self).stored().wf(),
        ensures
            final(self).stored().wf(),
            r is Ok <==> old(self).stored().has(id),
            r matches Ok(deleted) ==> deleted == id && final(self).stored() == old(
                self,
            ).stored().removed(id),
            r matches Err(e) ==> e@ == Fault::NotFound(id as int) && final(self).stored() == old(
                self,
            ).stored(),
    ;
}

/// The operations of a contact store on the metadata of its contacts.
pub trait MetadataRepo: ContactRepo {
    /// Gives contact `contact_id` fresh metadata and returns it; `NotFound` when there is no
    /// such contact.
    fn create_metadata(&mut self, contact_id: i64) -> (r: Result<Metadata, AppError>)
        requires
            old(self).stored().wf(),
        ensures
            final(self).stored().wf(),
            r is Ok <==> old(self).stored().has(contact_id),
            r matches Ok(m) ==> m.fresh_for(contact_id) && final(self).stored() == old(
                self,
            ).stored().metadata_replaced(contact_id, m),
            r matches Err(e) ==> e@ == Fault::NotFound(contact_id as int) && final(self).stored()
                == old(self).stored(),
    ;

    /// The metadata of contact `contact_id`; `NotFound` when there is none.
    fn get_metadata_by_id(&self, contact_id: i64) -> (r: Result<Metadata, AppError>)
        requires
            self.stored().wf(),
        ensures
            r is Ok <==> self.stored().metadata_for(contact_id) is Some,
            r matches Ok(m) ==> self.stored().metadata_for(contact_id) == Some(m),
            r matches Err(e) ==> e@ == Fault::NotFound(contact_id as int),
    ;
}

/// A contact store held in memory.
#[derive(Debug)]
pub struct MemoryStore {
    rows: Vec<Indexed>,
    metadata: Vec<Metadata>,
    next_id: i64,
}

impl MemoryStore {
    /// An empty store, whose first contact will get identifier 1.
    pub fn new() -> (r: MemoryStore)
        ensures
            r.stored().wf(),
            r.stored().rows.len() == 0,
            r.stored().next_id == 1,
    {
        MemoryStore { rows: Vec::new(), metadata: Vec::new(), next_id: 1 }
    }

    /// The position of the contact with identifier `id`, if any.
    fn find(&self, id: i64) -> (r: Option<usize>)
        requires
            self.stored().wf(),
        ensures
            match r {
                Some(i) => i < self.stored().rows.len() && self.stored().has(id)
                    && self.stored().position(id) == i,
                None => !self.stored().has(id),
            },
    {
        let mut i: usize = 0;
        while i < self.rows.len()
            invariant
                self.stored().wf(),
                i <= self.rows@.len(),
                forall|k: int| 0 <= k < i ==> (#[trigger] self.rows@[k]).id != id,
            decreases self.rows@.len() - i,
        {
            if self.rows[i].id == id {
                proof {
                    let view = self.stored();
                    assert(view.rows[i as int].id == id);
                    assert(view.has(id));
                    let p = view.position(id);
                    assert(view.rows[p].id == id);
                    assert(p == i);
                }
                return Some(i);
            }
            i = i + 1;
        }
        None
    }

    /// Adds `contact` under the next identifier, with fresh metadata.
    fn insert(&mut self, contact: Contact) -> (r: Result<i64, AppError>)
        requires
            old(self).stored().wf(),
            contact.well_formed(),
        ensures
            final(self).stored().wf(),
            r is Ok <==> old(self).stored().next_id < i64::MAX,
            r matches Ok(id) ==> {
                &&& id == old(self).stored().next_id
                &&& final(self).stored() == old(self).stored().inserted(
                    contact,
                    final(self).stored().metadata.last(),
                )
                &&& final(self).stored().metadata.last().fresh_for(id)
            },
            r matches Err(e) ==> e@ is StorageError && final(self).stored() == old(self).stored(),
    {
        if self.next_id == i64::MAX {
            return Err(AppError::StorageError(String::from_str("no identifier is left for a new contact")));
        }
        let id = self.next_id;
        let metadata = Metadata::new(id);
        self.rows.push(Indexed { id, contact });
        self.metadata.push(metadata);
        self.next_id = id + 1;
        Ok(id)
    }
}

impl ContactRepo for MemoryStore {
    closed spec fn stored(&self) -> StoreView {
        StoreView { rows: self.rows@, metadata: self.metadata@, next_id: self.next_id as int }
    }

    fn save_contact(&mut self, contact: Contact) -> (r: Result<i64, AppError>) {
        self.insert(contact)
    }

    fn save_optional_contact(&mut self, contact: Optional) -> (r: Result<i64, AppError>) {
        let now = now_millis();
        let full = contact.to_contact(now);
        self.insert(full)
    }

    fn import_contacts_by_csv(&mut self, filename: &str, contents: Option<&[u8]>) -> (r: Result<
        i64,
        AppError,
    >) {
        let rows = match process_csv_to_contacts(filename, contents) {
            Ok(rows) => rows,
            Err(e) => {
                return Err(e);
            },
        };
        let ghost records = csv_records_of(contents->0@)->0;
        let ghost start = self.stored();
        let ghost base = start.rows.len();
        let mut count: i64 = 0;
        let mut k: usize = 0;
        while k < rows.len()
            invariant
                import_fault(filename@, contents_view(contents)) is None,
                records == csv_records_of(contents->0@)->0,
                start == old(self).stored(),
                self.stored().wf(),
                start.wf(),
                base == start.rows.len(),
                rows@.len() == data_rows(records),
                forall|j: int| 0 <= j < rows@.len() ==> (#[trigger] rows@[j]).fields_valid(),
                forall|j: int|
                    0 <= j < rows@.len() ==> (#[trigger] rows@[j]).read_from(records[0], records[j + 1]),
                k <= rows@.len(),
                count == k,
                self.stored().rows.len() == base + k,
                self.stored().rows.subrange(0, base as int) == start.rows,
                self.stored().metadata.subrange(0, base as int) == start.metadata,
                self.stored().next_id == start.next_id + k,
                forall|j: int|
                    0 <= j < k ==> {
                        &&& (#[trigger] self.stored().rows[base + j]).id == start.next_id + j
                        &&& exists|row: Optional|
                            #[trigger] row.read_from(records[0], records[j + 1]) && row.stored_as(
                                self.stored().rows[base + j].contact,
                            )
                        &&& self.stored().metadata[base + j].fresh_for(self.stored().rows[base + j].id)
                    },
            decreases rows@.len() - k,
        {
            let ghost prev = self.stored();
            let row = rows[k].duplicate();
            match self.save_optional_contact(row) {
                Ok(_) => {},
                Err(e) => {
                    proof {
                        assert(self.stored() == prev);
                        assert(prev.next_id == i64::MAX);
                        assert(start.next_id + data_rows(records) > i64::MAX);
                    }
                    return Err(e);
                },
            }
            proof {
                let now = self.stored();
                assert(now.rows.subrange(0, base as int) =~= start.rows) by {
                    assert(now.rows.subrange(0, base as int) =~= prev.rows.subrange(0, base as int));
                }
                assert(now.metadata.subrange(0, base as int) =~= start.metadata) by {
                    assert(now.metadata.subrange(0, base as int) =~= prev.metadata.subrange(
                        0,
                        base as int,
                    ));
                }
                assert forall|j: int| 0 <= j < k + 1 implies {
                    &&& (#[trigger] now.rows[base + j]).id == start.next_id + j
                    &&& exists|r: Optional|
                        #[trigger] r.read_from(records[0], records[j + 1]) && r.stored_as(
                            now.rows[base + j].contact,
                        )
                    &&& now.metadata[base + j].fresh_for(now.rows[base + j].id)
                } by {
                    if j < k {
                        assert(now.rows[base + j] == prev.rows[base + j]);
                        assert(now.metadata[base + j] == prev.metadata[base + j]);
                    } else {
                        assert(rows@[j].read_from(records[0], records[j + 1]));
                        assert(rows@[j].stored_as(now.rows[base + j].contact));
                    }
                }
            }
            count = count + 1;
            k = k + 1;
        }
        Ok(count)
    }

    fn get_all_contacts(&self) -> (r: Result<Vec<Indexed>, AppError>) {
        let mut all: Vec<Indexed> = Vec::new();
        let mut i: usize = 0;
        while i < self.rows.len()
            invariant
                i <= self.rows@.len(),
                all@ =~= self.rows@.subrange(0, i as int),
            decreases self.rows@.len() - i,
        {
            all.push(self.rows[i].duplicate());
            i = i + 1;
            assert(all@ =~= self.rows@.subrange(0, i as int));
        }
        assert(all@ =~= self.rows@);
        Ok(all)
    }

    fn get_contact_by_id(&self, id: i64) -> (r: Result<Indexed, AppError>) {
        match self.find(id) {
            Some(i) => Ok(self.rows[i].duplicate()),
            None => Err(AppError::NotFound(id)),
        }
    }

    fn update_contact(&mut self, update: &crate::contact::Construct) -> (r: Result<(), AppError>) {
        match self.find(update.id) {
            Some(i) => {
                let ghost before = self.stored();
                let now = now_millis();
                let after = update.optional_contact.merge_into(&self.rows[i].contact, now);
                let ghost kept = after;
                self.rows.set(i, Indexed { id: update.id, contact: after });
                proof {
                    assert(update.optional_contact.merged_into(
                        before.contact_with_id(update.id)->0.contact,
                        now,
                        kept,
                    ));
                    assert(self.stored() == before.replaced(update.id, kept));
                }
                Ok(())
            },
            None => Err(AppError::NotFound(update.id)),
        }
    }

    fn delete_contact_by_id(&mut self, id: i64) -> (r: Result<i64, AppError>) {
        match self.find(id) {
            Some(i) => {
                let ghost before = self.stored();
                proof {
                    before.rows.remove_ensures(i as int);
                    before.metadata.remove_ensures(i as int);
                }
                self.rows.remove(i);
                self.metadata.remove(i);
                proof {
                    let after = self.stored();
                    assert forall|a: int, b: int|
                        0 <= a < b < after.rows.len() implies #[trigger] after.rows[a].id
                        < #[trigger] after.rows[b].id by {
                        let oa = if a < i { a } else { a + 1 };
                        let ob = if b < i { b } else { b + 1 };
                        assert(after.rows[a] == before.rows[oa]);
                        assert(after.rows[b] == before.rows[ob]);
                        assert(before.rows[oa].id < before.rows[ob].id);
                    }
                    assert forall|a: int| 0 <= a < after.rows.len() implies after.metadata[a].contact_id
                        == #[trigger] after.rows[a].id by {
                        let oa = if a < i { a } else { a + 1 };
                        assert(after.rows[a] == before.rows[oa]);
                        assert(after.metadata[a] == before.metadata[oa]);
                    }
                    assert forall|a: int| 0 <= a < after.rows.len() implies 1 <= #[trigger] after.rows[a].id
                        < after.next_id by {
                        let oa = if a < i { a } else { a + 1 };
                        assert(after.rows[a] == before.rows[oa]);
                    }
                }
                Ok(id)
            },
            None => Err(AppError::NotFound(id)),
        }
    }
}

impl MetadataRepo for MemoryStore {
    fn create_metadata(&mut self, contact_id: i64) -> (r: Result<Metadata, AppError>) {
        match self.find(contact_id) {
            Some(i) => {
                let fresh = Metadata::new(contact_id);
                let copy = fresh.duplicate();
                self.metadata.set(i, fresh);
                Ok(copy)
            },
            None => Err(AppError::NotFound(contact_id)),
        }
    }

    fn get_metadata_by_id(&self, contact_id: i64) -> (r: Result<Metadata, AppError>) {
        match self.find(contact_id) {
            Some(i) => {
                proof {
                    let view = self.stored();
                    assert(view.metadata[i as int].contact_id == contact_id);
                    let p = choose|k: int|
                        0 <= k < view.metadata.len() && #[trigger] view.metadata[k].contact_id
                            == contact_id;
                    assert(view.rows[p].id == contact_id);
                    assert(p == i);
                }
                Ok(self.metadata[i].duplicate())
            },
            None => {
                proof {
                    let view = self.stored();
                    assert forall|k: int| 0 <= k < view.metadata.len() implies #[trigger] view.metadata[
                        k].contact_id != contact_id by {
                        assert(view.metadata[k].contact_id == view.rows[k].id);
                    }
                }
                Err(AppError::NotFound(contact_id))
            },
        }
    }
}

} // verus!
