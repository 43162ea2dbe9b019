use crate::contact::{opt_text, Optional};
use crate::date::{date_read, read_date, DATE_FORMAT};
use crate::errors::{AppError, Fault};
use crate::validation::{email_valid, is_valid_email, is_valid_phone_number, phone_valid};
use vstd::prelude::*;
use vstd::string::*;

verus! {

/// The records of a CSV text as the `csv` crate reads them, every record included (the header
/// too), each as its list of fields; `None` where the text is not well-formed CSV.
pub uninterp spec fn csv_records_of(bytes: Seq<u8>) -> Option<Seq<Seq<Seq<char>>>>;

/// The text of each field of a record.
pub open spec fn fields_view(record: Vec<String>) -> Seq<Seq<char>> {
    record@.map_values(|field: String| field@)
}

/// The text of each field of each record.
pub open spec fn records_view(records: Seq<Vec<String>>) -> Seq<Seq<Seq<char>>> {
    records.map_values(|record: Vec<String>| fields_view(record))
}

/// Relies on csv::ReaderBuilder (has_headers(false), every other setting at its default) and
/// Reader::records: the records of the text in order, each as its list of fields, or an error
/// where the text is not UTF-8 or a record has another number of fields than the first one.
/// The result depends on the bytes alone.
#[verifier::external_body]
fn read_csv_records(bytes: &[u8]) -> (r: Option<Vec<Vec<String>>>)
    ensures
        match r {
            Some(records) => csv_records_of(bytes@) == Some(records_view(records@)),
            None => csv_records_of(bytes@) is None,
        },
{
    let mut reader = csv::ReaderBuilder::new().has_headers(false).from_reader(bytes);
    reader.records().map(
        |record| record.map(|fields| fields.iter().map(|field| field.to_string()).collect()),
    ).collect::<Result<Vec<Vec<String>>, csv::Error>>().ok()
}

/// The header of the column that holds the first name.
pub const FIRST_NAME_COLUMN: &'static str = "first_name";

/// The header of the column that holds the last name.
pub const LAST_NAME_COLUMN: &'static str = "last_name";

/// The header of the column that holds the display name.
pub const DISPLAY_NAME_COLUMN: &'static str = "display_name";

/// The header of the column that holds the email address.
pub const EMAIL_COLUMN: &'static str = "email";

/// The header of the column that holds the phone number.
pub const PHONE_NUMBER_COLUMN: &'static str = "phone_number";

/// The header of the column that holds the birthday, as `YYYY-MM-DD`.
pub const BIRTHDAY_COLUMN: &'static str = "birthday";

/// The name of an import file ends in `.csv`, after at least one other character of the file
/// name.
pub open spec fn csv_named(name: Seq<char>) -> bool {
    let n = name.len();
    &&& n >= 5
    &&& name[n - 4] == '.'
    &&& name[n - 3] == 'c'
    &&& name[n - 2] == 's'
    &&& name[n - 1] == 'v'
    &&& name[n - 5] != '/'
}

/// The position of the first header equal to `name`, if any.
pub open spec fn column(header: Seq<Seq<char>>, name: Seq<char>) -> Option<int> {
    if exists|i: int|
        0 <= i < header.len() && header[i] == name && forall|k: int|
            0 <= k < i ==> #[trigger] header[k] != name {
        Some(
            choose|i: int|
                0 <= i < header.len() && header[i] == name && forall|k: int|
                    0 <= k < i ==> #[trigger] header[k] != name,
        )
    } else {
        None
    }
}

/// The text of a record under the column `name`; `None` where there is no such column, or the
/// record has no such field, or the field is empty.
pub open spec fn cell(header: Seq<Seq<char>>, record: Seq<Seq<char>>, name: Seq<char>) -> Option<
    Seq<char>,
> {
    match column(header, name) {
        Some(i) => if i < record.len() && record[i].len() > 0 {
            Some(record[i])
        } else {
            None
        },
        None => None,
    }
}

/// The number of rows of contacts: every record but the header.
pub open spec fn data_rows(records: Seq<Seq<Seq<char>>>) -> int {
    if records.len() == 0 {
        0
    } else {
        records.len() - 1
    }
}

/// The text under `name` in row `j` (record `j + 1`).
pub open spec fn row_cell(records: Seq<Seq<Seq<char>>>, j: int, name: Seq<char>) -> Option<
    Seq<char>,
> {
    cell(records[0], records[j + 1], name)
}

/// Row `j` holds a birthday that is not a `YYYY-MM-DD` date.
pub open spec fn birthday_bad(records: Seq<Seq<Seq<char>>>, j: int) -> bool {
    row_cell(records, j, BIRTHDAY_COLUMN@) is Some && date_read(
        row_cell(records, j, BIRTHDAY_COLUMN@)->0,
        DATE_FORMAT@,
    ) is None
}

/// Row `j` holds a phone number that is not well formed.
pub open spec fn phone_bad(records: Seq<Seq<Seq<char>>>, j: int) -> bool {
    row_cell(records, j, PHONE_NUMBER_COLUMN@) is Some && !phone_valid(
        row_cell(records, j, PHONE_NUMBER_COLUMN@)->0,
    )
}

/// Row `j` holds an email address that is not well formed.
pub open spec fn email_bad(records: Seq<Seq<Seq<char>>>, j: int) -> bool {
    row_cell(records, j, EMAIL_COLUMN@) is Some && !email_valid(
        row_cell(records, j, EMAIL_COLUMN@)->0,
    )
}

/// The first row with a bad birthday, if any.
pub open spec fn first_bad_birthday(records: Seq<Seq<Seq<char>>>) -> Option<int> {
    if exists|j: int|
        0 <= j < data_rows(records) && birthday_bad(records, j) && forall|i: int|
            0 <= i < j ==> !#[trigger] birthday_bad(records, i) {
        Some(
            choose|j: int|
                0 <= j < data_rows(records) && birthday_bad(records, j) && forall|i: int|
                    0 <= i < j ==> !#[trigger] birthday_bad(records, i),
        )
    } else {
        None
    }
}

/// Row `j` holds a phone number or an email address that is not well formed.
pub open spec fn row_bad(records: Seq<Seq<Seq<char>>>, j: int) -> bool {
    phone_bad(records, j) || email_bad(records, j)
}

/// The first row with a bad phone number or email address, if any.
pub open spec fn first_bad_row(records: Seq<Seq<Seq<char>>>) -> Option<int> {
    if exists|j: int|
        0 <= j < data_rows(records) && row_bad(records, j) && forall|i: int|
            0 <= i < j ==> !#[trigger] row_bad(records, i) {
        Some(
            choose|j: int|
                0 <= j < data_rows(records) && row_bad(records, j) && forall|i: int|
                    0 <= i < j ==> !#[trigger] row_bad(records, i),
        )
    } else {
        None
    }
}

/// Why the records of a CSV file give no contacts: first a birthday that is not a date, in
/// the first row that has one; then, in the first row with a bad phone number or email, the
/// phone number if it is bad, else the email. `None` when every row is good.
pub open spec fn records_fault(records: Seq<Seq<Seq<char>>>) -> Option<Fault> {
    match first_bad_birthday(records) {
        Some(j) => Some(Fault::InvalidBirthday(row_cell(records, j, BIRTHDAY_COLUMN@)->0)),
        None => match first_bad_row(records) {
            Some(j) => if phone_bad(records, j) {
                Some(Fault::InvalidPhoneNumber(row_cell(records, j, PHONE_NUMBER_COLUMN@)->0))
            } else {
                Some(Fault::InvalidEmail(row_cell(records, j, EMAIL_COLUMN@)->0))
            },
            None => None,
        },
    }
}

/// Why an import file gives no contacts, checked in this order: its name does not end in
/// `.csv`, it could not be opened (`contents` is `None`), it is empty, it is not well-formed
/// CSV, or one of its rows is bad (see `records_fault`). `None` when it gives contacts.
pub open spec fn import_fault(filename: Seq<char>, contents: Option<Seq<u8>>) -> Option<Fault> {
    if !csv_named(filename) {
        Some(Fault::InvalidExtension)
    } else if contents is None {
        Some(Fault::FileNotFound(filename))
    } else if contents->0.len() == 0 {
        Some(Fault::EmptyFile)
    } else if csv_records_of(contents->0) is None {
        Some(Fault::MalformedCsv)
    } else {
        records_fault(csv_records_of(contents->0)->0)
    }
}

impl Optional {
    /// `self` holds what a record gives under the header: each name, the email and the phone
    /// number are the text under their column, the birthday is the date under its column, and
    /// every other field is absent.
    pub open spec fn read_from(self, header: Seq<Seq<char>>, record: Seq<Seq<char>>) -> bool {
        &&& opt_text(self.first_name) == cell(header, record, FIRST_NAME_COLUMN@)
        &&& opt_text(self.last_name) == cell(header, record, LAST_NAME_COLUMN@)
        &&& opt_text(self.display_name) == cell(header, record, DISPLAY_NAME_COLUMN@)
        &&& opt_text(self.email) == cell(header, record, EMAIL_COLUMN@)
        &&& opt_text(self.phone_number) == cell(header, record, PHONE_NUMBER_COLUMN@)
        &&& match cell(header, record, BIRTHDAY_COLUMN@) {
            Some(text) => self.birthday is Some && date_read(text, DATE_FORMAT@) == Some(
                self.birthday->0.ymd(),
            ) && self.birthday->0.valid(),
            None => self.birthday is None,
        }
        &&& self.starred is None
        &&& self.is_archived is None
        &&& self.last_seen_at is None
        &&& self.frequency is None
        &&& self.last_reminder_at is None
    }
}

/// `rows` are the contacts that the records give, one for each record after the header.
pub open spec fn rows_read(rows: Seq<Optional>, records: Seq<Seq<Seq<char>>>) -> bool {
    &&& rows.len() == data_rows(records)
    &&& forall|j: int| 0 <= j < rows.len() ==> (#[trigger] rows[j]).read_from(records[0], records[j + 1])
}

/// Whether two texts are equal.
fn same_text(a: &str, b: &str) -> (r: bool)
    ensures
        r == (a@ == b@),
{
    let n = a.unicode_len();
    if n != b.unicode_len() {
        return false;
    }
    let mut i: usize = 0;
    while i < n
        invariant
            n == a@.len(),
            n == b@.len(),
            i <= n,
            forall|k: int| 0 <= k < i ==> a@[k] == b@[k],
        decreases n - i,
    {
        if a.get_char(i) != b.get_char(i) {
            return false;
        }
        i = i + 1;
    }
    assert(a@ =~= b@);
    true
}

/// `Ok` when the name of an import file ends in `.csv` (see `csv_named`), else
/// `InvalidExtension`.
pub fn validate_csv_extension(filename: &str) -> (r: Result<(), AppError>)
    ensures
        r is Ok <==> csv_named(filename@),
        r matches Err(e) ==> e@ == Fault::InvalidExtension,
{
    let n = filename.unicode_len();
    if n >= 5 && filename.get_char(n - 4) == '.' && filename.get_char(n - 3) == 'c'
        && filename.get_char(n - 2) == 's' && filename.get_char(n - 1) == 'v'
        && filename.get_char(n - 5) != '/' {
        Ok(())
    } else {
        Err(AppError::InvalidExtension)
    }
}

/// The position of the first header equal to `name`, if any.
fn column_index(header: &Vec<String>, name: &str) -> (r: Option<usize>)
    ensures
        match r {
            Some(i) => column(fields_view(*header), name@) == Some(i as int),
            None => column(fields_view(*header), name@) is None,
        },
{
    let ghost h = fields_view(*header);
    let mut i: usize = 0;
    while i < header.len()
        invariant
            h == fields_view(*header),
            i <= header@.len(),
            forall|k: int| 0 <= k < i ==> #[trigger] h[k] != name@,
        decreases header@.len() - i,
    {
        if same_text(header[i].as_str(), name) {
            proof {
                assert(h[i as int] == name@);
                let c = choose|c: int|
                    0 <= c < h.len() && h[c] == name@ && forall|k: int|
                        0 <= k < c ==> #[trigger] h[k] != name@;
                assert(c == i);
            }
            return Some(i);
        }
        i = i + 1;
    }
    None
}

/// A copy of the field of `record` at column `col`, where there is one and it is not empty.
fn cell_text(col: Option<usize>, record: &Vec<String>) -> (r: Option<String>)
    ensures
        opt_text(r) == match col {
            Some(i) => if i < record@.len() && record@[i as int]@.len() > 0 {
                Some(record@[i as int]@)
            } else {
                None
            },
            None => None,
        },
{
    match col {
        Some(i) => {
            if i < record.len() && !record[i].as_str().is_empty() {
                Some(record[i].clone())
            } else {
                None
            }
        },
        None => None,
    }
}

/// The position as a mathematical integer.
pub open spec fn opt_position(col: Option<usize>) -> Option<int> {
    match col {
        Some(i) => Some(i as int),
        None => None,
    }
}

/// The positions of the columns that bind to fields of a contact.
struct Columns {
    first_name: Option<usize>,
    last_name: Option<usize>,
    display_name: Option<usize>,
    email: Option<usize>,
    phone_number: Option<usize>,
    birthday: Option<usize>,
}

impl Columns {
    /// Each position is that of its column in `header`.
    spec fn of(self, header: Seq<Seq<char>>) -> bool {
        &&& opt_position(self.first_name) == column(header, FIRST_NAME_COLUMN@)
        &&& opt_position(self.last_name) == column(header, LAST_NAME_COLUMN@)
        &&& opt_position(self.display_name) == column(header, DISPLAY_NAME_COLUMN@)
        &&& opt_position(self.email) == column(header, EMAIL_COLUMN@)
        &&& opt_position(self.phone_number) == column(header, PHONE_NUMBER_COLUMN@)
        &&& opt_position(self.birthday) == column(header, BIRTHDAY_COLUMN@)
    }

    /// The positions of the columns of `header`.
    fn find(header: &Vec<String>) -> (r: Columns)
        ensures
            r.of(fields_view(*header)),
    {
        Columns {
            first_name: column_index(header, FIRST_NAME_COLUMN),
            last_name: column_index(header, LAST_NAME_COLUMN),
            display_name: column_index(header, DISPLAY_NAME_COLUMN),
            email: column_index(header, EMAIL_COLUMN),
            phone_number: column_index(header, PHONE_NUMBER_COLUMN),
            birthday: column_index(header, BIRTHDAY_COLUMN),
        }
    }
}

/// A copy of the text of `record` under column `col` (see `cell`).
fn cell_of(col: Option<usize>, record: &Vec<String>, Ghost(header): Ghost<Seq<Seq<char>>>, Ghost(
    name,
): Ghost<Seq<char>>) -> (r: Option<String>)
    requires
        opt_position(col) == column(header, name),
    ensures
        opt_text(r) == cell(header, fields_view(*record), name),
{
    let r = cell_text(col, record);
    proof {
        let fields = fields_view(*record);
        match col {
            Some(i) => {
                if i < record@.len() {
                    assert(fields[i as int] == record@[i as int]@);
                }
            },
            None => {},
        }
    }
    r
}

/// The contact that `record` gives under the columns `cols`; `InvalidBirthday` where its
/// birthday is not a date.
fn read_row(cols: &Columns, record: &Vec<String>, Ghost(header): Ghost<Seq<Seq<char>>>) -> (r:
    Result<Optional, AppError>)
    requires
        cols.of(header),
    ensures
        r is Err <==> (cell(header, fields_view(*record), BIRTHDAY_COLUMN@) is Some && date_read(
            cell(header, fields_view(*record), BIRTHDAY_COLUMN@)->0,
            DATE_FORMAT@,
        ) is None),
        r matches Ok(o) ==> o.read_from(header, fields_view(*record)),
        r matches Err(e) ==> e@ == Fault::InvalidBirthday(
            cell(header, fields_view(*record), BIRTHDAY_COLUMN@)->0,
        ),
{
    let birthday = match cell_of(cols.birthday, record, Ghost(header), Ghost(BIRTHDAY_COLUMN@)) {
        Some(text) => match read_date(text.as_str(), DATE_FORMAT) {
            Some(date) => Some(date),
            None => {
                return Err(AppError::InvalidBirthday(text));
            },
        },
        None => None,
    };
    Ok(Optional {
        first_name: cell_of(cols.first_name, record, Ghost(header), Ghost(FIRST_NAME_COLUMN@)),
        last_name: cell_of(cols.last_name, record, Ghost(header), Ghost(LAST_NAME_COLUMN@)),
        display_name: cell_of(
            cols.display_name,
            record,
            Ghost(header),
            Ghost(DISPLAY_NAME_COLUMN@),
        ),
        email: cell_of(cols.email, record, Ghost(header), Ghost(EMAIL_COLUMN@)),
        phone_number: cell_of(
            cols.phone_number,
            record,
            Ghost(header),
            Ghost(PHONE_NUMBER_COLUMN@),
        ),
        birthday,
        starred: None,
        is_archived: None,
        last_seen_at: None,
        frequency: None,
        last_reminder_at: None,
    })
}

/// The contacts that the records of a CSV file give, one for each record after the header
/// (see `Optional::read_from`), or the first fault of a row (see `records_fault`). Every
/// birthday is read before any phone number or email is checked.
pub fn csv_to_contacts(records: &Vec<Vec<String>>) -> (r: Result<Vec<Optional>, AppError>)
    ensures
        r is Err <==> records_fault(records_view(records@)) is Some,
        r matches Err(e) ==> records_fault(records_view(records@)) == Some(e@),
        r matches Ok(rows) ==> rows_read(rows@, records_view(records@)) && forall|j: int|
            0 <= j < rows@.len() ==> (#[trigger] rows@[j]).fields_valid(),
{
    let ghost rv = records_view(records@);
    if records.len() == 0 {
        return Ok(Vec::new());
    }
    assert(rv[0] == fields_view(records@[0]));
    let cols = Columns::find(&records[0]);
    let mut rows: Vec<Optional> = Vec::new();
    let mut j: usize = 1;
    while j < records.len()
        invariant
            rv == records_view(records@),
            1 <= j <= records@.len(),
            cols.of(rv[0]),
            rows@.len() == j - 1,
            forall|k: int| 0 <= k < j - 1 ==> (#[trigger] rows@[k]).read_from(rv[0], rv[k + 1]),
            forall|k: int| 0 <= k < j - 1 ==> !#[trigger] birthday_bad(rv, k),
        decreases records@.len() - j,
    {
        assert(rv[j as int] == fields_view(records@[j as int]));
        match read_row(&cols, &records[j], Ghost(rv[0])) {
            Ok(row) => {
                rows.push(row);
            },
            Err(e) => {
                proof {
                    let w = j - 1;
                    assert(birthday_bad(rv, w));
                    assert(0 <= w < data_rows(rv) && birthday_bad(rv, w) && forall|i: int|
                        0 <= i < w ==> !#[trigger] birthday_bad(rv, i));
                    let c = choose|c: int|
                        0 <= c < data_rows(rv) && birthday_bad(rv, c) && forall|i: int|
                            0 <= i < c ==> !#[trigger] birthday_bad(rv, i);
                    assert(c == w);
                }
                return Err(e);
            },
        }
        j = j + 1;
    }
    assert(first_bad_birthday(rv) is None);
    let mut k: usize = 0;
    while k < rows.len()
        invariant
            rv == records_view(records@),
            rows_read(rows@, rv),
            first_bad_birthday(rv) is None,
            k <= rows@.len(),
            forall|i: int| 0 <= i < k ==> !#[trigger] row_bad(rv, i),
        decreases rows@.len() - k,
    {
        let row = &rows[k];
        assert(row.read_from(rv[0], rv[k + 1]));
        match &row.phone_number {
            Some(phone_number) => {
                if !is_valid_phone_number(phone_number.as_str()) {
                    proof {
                        let w = k as int;
                        assert(phone_bad(rv, w));
                        assert(0 <= w < data_rows(rv) && row_bad(rv, w) && forall|i: int|
                            0 <= i < w ==> !#[trigger] row_bad(rv, i));
                        let c = choose|c: int|
                            0 <= c < data_rows(rv) && row_bad(rv, c) && forall|i: int|
                                0 <= i < c ==> !#[trigger] row_bad(rv, i);
                        assert(c == w);
                    }
                    return Err(AppError::InvalidPhoneNumber(phone_number.clone()));
                }
            },
            None => {},
        }
        match &row.email {
            Some(email) => {
                if !is_valid_email(email.as_str()) {
                    proof {
                        let w = k as int;
                        assert(!phone_bad(rv, w));
                        assert(email_bad(rv, w));
                        assert(0 <= w < data_rows(rv) && row_bad(rv, w) && forall|i: int|
                            0 <= i < w ==> !#[trigger] row_bad(rv, i));
                        let c = choose|c: int|
                            0 <= c < data_rows(rv) && row_bad(rv, c) && forall|i: int|
                                0 <= i < c ==> !#[trigger] row_bad(rv, i);
                        assert(c == w);
                    }
                    return Err(AppError::InvalidEmail(email.clone()));
                }
            },
            None => {},
        }
        assert(!row_bad(rv, k as int));
        k = k + 1;
    }
    assert(first_bad_row(rv) is None);
    assert forall|j: int| 0 <= j < rows@.len() implies (#[trigger] rows@[j]).fields_valid() by {
        assert(rows@[j].read_from(rv[0], rv[j + 1]));
        assert(!row_bad(rv, j));
    }
    Ok(rows)
}

/// The text of an import file's contents, where it could be opened.
pub open spec fn contents_view(contents: Option<&[u8]>) -> Option<Seq<u8>> {
    match contents {
        Some(bytes) => Some(bytes@),
        None => None,
    }
}

/// The contents of the import file `filename`: `FileNotFound` where it could not be opened
/// (`contents` is `None`), `EmptyFile` where it has no bytes.
pub fn validate_csv_file<'a>(filename: &str, contents: Option<&'a [u8]>) -> (r: Result<
    &'a [u8],
    AppError,
>)
    ensures
        match contents {
            None => r matches Err(e) && e@ == Fault::FileNotFound(filename@),
            Some(bytes) => if bytes@.len() == 0 {
                r matches Err(e) && e@ == Fault::EmptyFile
            } else {
                r == Ok::<&[u8], AppError>(bytes)
            },
        },
{
    match contents {
        None => Err(AppError::FileNotFound(filename.to_owned())),
        Some(bytes) => {
            if bytes.len() == 0 {
                Err(AppError::EmptyFile)
            } else {
                Ok(bytes)
            }
        },
    }
}

/// The records of a CSV text, every record included (the header too); `MalformedCsv` where it
/// is not well-formed CSV.
pub fn validate_csv_format(bytes: &[u8]) -> (r: Result<Vec<Vec<String>>, AppError>)
    ensures
        r is Err <==> csv_records_of(bytes@) is None,
        r matches Ok(records) ==> csv_records_of(bytes@) == Some(records_view(records@)),
        r matches Err(e) ==> e@ == Fault::MalformedCsv,
{
    match read_csv_records(bytes) {
        Some(records) => Ok(records),
        None => Err(AppError::MalformedCsv),
    }
}

/// The contacts of the import file `filename`, whose contents are `contents` (`None` where it
/// could not be opened): one for each record after the header, with the fields bound by column
/// name (see `Optional::read_from`). Fails with the first fault of `import_fault`; one bad row
/// fails the whole file.
pub fn process_csv_to_contacts(filename: &str, contents: Option<&[u8]>) -> (r: Result<
    Vec<Optional>,
    AppError,
>)
    ensures
        r is Err <==> import_fault(filename@, contents_view(contents)) is Some,
        r matches Err(e) ==> import_fault(filename@, contents_view(contents)) == Some(e@),
        r matches Ok(rows) ==> rows_read(rows@, csv_records_of(contents->0@)->0) && forall|j: int|
            0 <= j < rows@.len() ==> (#[trigger] rows@[j]).fields_valid(),
{
    match validate_csv_extension(filename) {
        Ok(()) => {},
        Err(e) => {
            return Err(e);
        },
    }
    let bytes = match validate_csv_file(filename, contents) {
        Ok(bytes) => bytes,
        Err(e) => {
            return Err(e);
        },
    };
    let records = match validate_csv_format(bytes) {
        Ok(records) => records,
        Err(e) => {
            return Err(e);
        },
    };
    csv_to_contacts(&records)
}

} // verus!
