use crate::validation::{email_valid, is_valid_email};
use vstd::prelude::*;

verus! {

/// An email address that is known to be well formed.
#[derive(Debug, PartialEq, Eq)]
pub struct Email(String);

impl View for Email {
    type V = Seq<char>;

    closed spec fn view(&self) -> Seq<char> {
        self.0@
    }
}

impl Email {
    /// The address is well formed.
    #[verifier::type_invariant]
    spec fn inv(&self) -> bool {
        email_valid(self.0@)
    }

    /// `email` as an `Email`; the message "Invalid email format" where it is not well formed.
    pub fn new(email: String) -> (r: Result<Email, String>)
        ensures
            r is Ok <==> email_valid(email@),
            r matches Ok(e) ==> e@ == email@,
            r matches Err(message) ==> message@ == "Invalid email format"@,
    {
        if is_valid_email(email.as_str()) {
            Ok(Email(email))
        } else {
            Err(String::from_str("Invalid email format"))
        }
    }

    /// The address.
    pub fn to_string(&self) -> (r: String)
        ensures
            r@ == self@,
            email_valid(r@),
    {
        proof {
            use_type_invariant(self);
        }
        self.0.clone()
    }
}

} // verus!
