use vstd::prelude::*;

verus! {

/// A company as found by the Credinform search: its internal id and name.
#[derive(Debug, Clone)]
pub struct SearchCompany {
    pub id: String,
    pub name: String,
}

impl SearchCompany {
    /// Copies the id and the name.
    pub fn new(id: &str, name: &str) -> (r: Self)
        ensures
            r.id@ == id@,
            r.name@ == name@,
    {
        SearchCompany { id: id.to_owned(), name: name.to_owned() }
    }
}

} // verus!
