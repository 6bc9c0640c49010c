use vstd::prelude::*;

verus! {

/// A stored user, as it is read back from the users table.
pub struct User {
    pub id: i32,
    pub name: String,
    pub email: String,
}

/// The fields of a user that a client submits for creation; the table
/// assigns the identifier.
pub struct CreateUser {
    pub name: String,
    pub email: String,
}

/// Any failure of the storage layer; its cause is deliberately not told apart.
#[derive(PartialEq, Eq, Structural, Debug, Clone, Copy)]
pub struct StorageFault;

/// What a user is, mathematically.
pub struct UserView {
    pub id: int,
    pub name: Seq<char>,
    pub email: Seq<char>,
}

impl View for User {
    type V = UserView;

    open spec fn view(&self) -> UserView {
        UserView { id: self.id as int, name: self.name@, email: self.email@ }
    }
}

impl Clone for User {
    fn clone(&self) -> (r: Self)
        ensures
            r@ == self@,
    {
        User { id: self.id, name: self.name.clone(), email: self.email.clone() }
    }
}

impl CreateUser {
    /// The user that a row built from this request with identifier `id` is.
    pub open spec fn with_id(&self, id: int) -> UserView {
        UserView { id, name: self.name@, email: self.email@ }
    }
}

} // verus!
