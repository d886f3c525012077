use vstd::prelude::*;

verus! {

/// A persisted user record. The store assigns `id` on creation; `name`
/// and `email` come from the creating request and are kept verbatim.
pub struct User {
    pub id: i64,
    pub name: String,
    pub email: String,
}

impl Clone for User {
    fn clone(&self) -> (res: Self)
        ensures
            res == *self,
    {
        User { id: self.id, name: self.name.clone(), email: self.email.clone() }
    }
}

/// The transient input shape of a create request: the two fields a new
/// user is built from. Never persisted as its own record.
pub struct CreateUser {
    pub name: String,
    pub email: String,
}

impl Clone for CreateUser {
    fn clone(&self) -> (res: Self)
        ensures
            res == *self,
    {
        CreateUser { name: self.name.clone(), email: self.email.clone() }
    }
}

} // verus!
