use vstd::prelude::*;

verus! {

/// Every way an operation of the contact book can fail.
#[derive(Debug, Clone, PartialEq, Eq)]
pub enum AppError {
    /// An email address that is present but not well formed.
    InvalidEmail(String),
    /// A phone number that is present but not well formed.
    InvalidPhoneNumber(String),
    /// A birthday that is neither blank nor a `YYYY-MM-DD` date.
    InvalidBirthday(String),
    /// An update that names no field to change.
    EmptyUpdate,
    /// No stored contact has this identifier.
    NotFound(i64),
    /// An import file whose name does not end in `.csv`.
    InvalidExtension,
    /// An import file that could not be opened.
    FileNotFound(String),
    /// An import file of zero bytes.
    EmptyFile,
    /// An import file that is not well-formed CSV.
    MalformedCsv,
    /// A failure of the underlying store, with its description.
    StorageError(String),
}

/// What an `AppError` says, with its text as a sequence of characters.
pub ghost enum Fault {
    InvalidEmail(Seq<char>),
    InvalidPhoneNumber(Seq<char>),
    InvalidBirthday(Seq<char>),
    EmptyUpdate,
    NotFound(int),
    InvalidExtension,
    FileNotFound(Seq<char>),
    EmptyFile,
    MalformedCsv,
    StorageError(Seq<char>),
}

impl View for AppError {
    type V = Fault;

    open spec fn view(&self) -> Fault {
        match self {
            AppError::InvalidEmail(s) => Fault::InvalidEmail(s@),
            AppError::InvalidPhoneNumber(s) => Fault::InvalidPhoneNumber(s@),
            AppError::InvalidBirthday(s) => Fault::InvalidBirthday(s@),
            AppError::EmptyUpdate => Fault::EmptyUpdate,
            AppError::NotFound(id) => Fault::NotFound(*id as int),
            AppError::InvalidExtension => Fault::InvalidExtension,
            AppError::FileNotFound(s) => Fault::FileNotFound(s@),
            AppError::EmptyFile => Fault::EmptyFile,
            AppError::MalformedCsv => Fault::MalformedCsv,
            AppError::StorageError(s) => Fault::StorageError(s@),
        }
    }
}

/// The message shown to a user for a failure.
pub open spec fn fault_message(f: Fault) -> Seq<char> {
    match f {
        Fault::InvalidEmail(s) => s + " is invalid."@,
        Fault::InvalidPhoneNumber(s) => s + " is invalid."@,
        Fault::InvalidBirthday(s) => s + " is not a valid birthday."@,
        Fault::EmptyUpdate => "Empty update"@,
        Fault::NotFound(_) => "Contact not found"@,
        Fault::InvalidExtension => "File must have .csv extension"@,
        Fault::FileNotFound(s) => "Failed to open file: "@ + s,
        Fault::EmptyFile => "CSV file is empty"@,
        Fault::MalformedCsv => "Invalid CSV format"@,
        Fault::StorageError(s) => "Database error: "@ + s,
    }
}

/// `value` followed by `suffix`, as a new string.
fn joined(value: &str, suffix: &str) -> (r: String)
    ensures
        r@ == value@ + suffix@,
{
    let mut r = String::from_str(value);
    r.append(suffix);
    r
}

impl AppError {
    /// The message shown to a user for this failure.
    pub fn to_string(&self) -> (r: String)
        ensures
            r@ == fault_message(self@),
    {
        match self {
            AppError::InvalidEmail(s) => joined(s.as_str(), " is invalid."),
            AppError::InvalidPhoneNumber(s) => joined(s.as_str(), " is invalid."),
            AppError::InvalidBirthday(s) => joined(s.as_str(), " is not a valid birthday."),
            AppError::EmptyUpdate => String::from_str("Empty update"),
            AppError::NotFound(_) => String::from_str("Contact not found"),
            AppError::InvalidExtension => String::from_str("File must have .csv extension"),
            AppError::FileNotFound(s) => joined("Failed to open file: ", s.as_str()),
            AppError::EmptyFile => String::from_str("CSV file is empty"),
            AppError::MalformedCsv => String::from_str("Invalid CSV format"),
            AppError::StorageError(s) => joined("Database error: ", s.as_str()),
        }
    }
}

} // verus!
