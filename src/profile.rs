use vstd::prelude::*;

verus! {

/// A profile, known by first name.
#[derive(Debug)]
pub struct Profile {
    pub first_name: String,
}

/// Gathers the fields of a profile; `build` makes it.
#[derive(Debug, Default)]
pub struct ProfileBuilder {
    pub first_name: Option<String>,
}

impl Profile {
    /// A builder with no field given.
    pub fn builder() -> (r: ProfileBuilder)
        ensures
            r.first_name is None,
    {
        ProfileBuilder { first_name: None }
    }

    /// The profile's name as shown: the first name.
    pub fn to_string(&self) -> (r: String)
        ensures
            r@ == self.first_name@,
    {
        self.first_name.clone()
    }
}

impl ProfileBuilder {
    /// Sets the first name.
    pub fn first_name(self, first_name: &str) -> (r: ProfileBuilder)
        ensures
            r.first_name matches Some(name) && name@ == first_name@,
    {
        ProfileBuilder { first_name: Some(first_name.to_owned()) }
    }

    /// The profile with the first name given; the message "_" where none was given.
    pub fn build(self) -> (r: Result<Profile, &'static str>)
        ensures
            r is Ok <==> self.first_name is Some,
            r matches Ok(profile) ==> Some(profile.first_name) == self.first_name,
            r matches Err(message) ==> message@ == "_"@,
    {
        match self.first_name {
            Some(first_name) => Ok(Profile { first_name }),
            None => Err("_"),
        }
    }
}

} // verus!
