use std::sync::Arc;
use vstd::prelude::*;

verus! {

/// A handle on a store of type `D`, which the holders of the repository share.
pub struct Repo<D> {
    pub database: Arc<D>,
}

impl<D> Repo<D> {
    /// A repository over `database`.
    pub fn new(database: D) -> (r: Repo<D>)
        ensures
            *r.database == database,
    {
        Repo { database: Arc::new(database) }
    }
}

} // verus!
