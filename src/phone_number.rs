use crate::validation::{is_valid_phone_number, phone_valid};
use vstd::prelude::*;

verus! {

/// A phone number that is known to be well formed.
#[derive(Debug, PartialEq, Eq)]
pub struct PhoneNumber(String);

impl View for PhoneNumber {
    type V = Seq<char>;

    closed spec fn view(&self) -> Seq<char> {
        self.0@
    }
}

impl PhoneNumber {
    /// The number is well formed.
    #[verifier::type_invariant]
    spec fn inv(&self) -> bool {
        phone_valid(self.0@)
    }

    /// `phone_number` as a `PhoneNumber`; the message "Invalid phone number format" where it is
    /// not well formed.
    pub fn new(phone_number: String) -> (r: Result<PhoneNumber, String>)
        ensures
            r is Ok <==> phone_valid(phone_number@),
            r matches Ok(p) ==> p@ == phone_number@,
            r matches Err(message) ==> message@ == "Invalid phone number format"@,
    {
        if is_valid_phone_number(phone_number.as_str()) {
            Ok(PhoneNumber(phone_number))
        } else {
            Err(String::from_str("Invalid phone number format"))
        }
    }

    /// The number.
    pub fn to_string(&self) -> (r: String)
        ensures
            r@ == self@,
            phone_valid(r@),
    {
        proof {
            use_type_invariant(self);
        }
        self.0.clone()
    }
}

} // verus!
