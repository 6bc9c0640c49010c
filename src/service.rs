use vstd::prelude::*;

use crate::model::{CreateUser, StorageFault, User, UserView};
use crate::table::{lookup, UserTable};

verus! {

pub const OK: u16 = 200;
pub const CREATED: u16 = 201;
pub const NOT_FOUND: u16 = 404;
pub const INTERNAL_SERVER_ERROR: u16 = 500;

/// The statement that creates a user and reads back the stored row.
pub const INSERT_USER_SQL: &'static str = "INSERT INTO users (name, email) VALUES ($1, $2) RETURNING id, name, email";

/// The statement that reads every user.
pub const SELECT_USERS_SQL: &'static str = "SELECT id, name, email FROM users";

/// The statement that reads the user with a given identifier.
pub const SELECT_USER_SQL: &'static str = "SELECT id, name, email FROM users WHERE id = $1";

/// The body of a response: nothing, plain text, one user or a list of users
/// (the last two are sent as JSON).
pub enum Body {
    Empty,
    Text(String),
    One(User),
    Many(Vec<User>),
}

/// An HTTP response as the service decides it.
pub struct Response {
    pub status: u16,
    pub body: Body,
}

impl Response {
    /// The body is exactly the user `u`.
    pub open spec fn has_user(&self, u: UserView) -> bool {
        match self.body {
            Body::One(v) => v@ == u,
            _ => false,
        }
    }

    /// The body is exactly the list `us`.
    pub open spec fn has_users(&self, us: Seq<UserView>) -> bool {
        match self.body {
            Body::Many(v) => v@.map_values(|u: User| u@) == us,
            _ => false,
        }
    }
}

/// The response to a creation: 201 with the stored user, or 500 with no body
/// when the storage layer failed.
pub fn create_user(outcome: Result<User, StorageFault>) -> (r: Response)
    ensures
        outcome matches Ok(u) ==> r.status == CREATED && r.has_user(u@),
        outcome is Err ==> r.status == INTERNAL_SERVER_ERROR && r.body is Empty,
{
    match outcome {
        Ok(u) => Response { status: CREATED, body: Body::One(u) },
        Err(_) => Response { status: INTERNAL_SERVER_ERROR, body: Body::Empty },
    }
}

/// The response to a listing: 200 with every user read, or 500 with no body
/// when the storage layer failed.
pub fn get_users(outcome: Result<Vec<User>, StorageFault>) -> (r: Response)
    ensures
        outcome matches Ok(us) ==> r.status == OK && r.has_users(us@.map_values(|u: User| u@)),
        outcome is Err ==> r.status == INTERNAL_SERVER_ERROR && r.body is Empty,
{
    match outcome {
        Ok(us) => Response { status: OK, body: Body::Many(us) },
        Err(_) => Response { status: INTERNAL_SERVER_ERROR, body: Body::Empty },
    }
}

/// The response to a lookup by identifier: 200 with the user, or 404 with no
/// body. A storage failure is answered as if no row had matched.
pub fn get_user(outcome: Result<User, StorageFault>) -> (r: Response)
    ensures
        outcome matches Ok(u) ==> r.status == OK && r.has_user(u@),
        outcome is Err ==> r.status == NOT_FOUND && r.body is Empty,
{
    match outcome {
        Ok(u) => Response { status: OK, body: Body::One(u) },
        Err(_) => Response { status: NOT_FOUND, body: Body::Empty },
    }
}

/// The response when the static file layer fails for a reason other than a
/// missing file.
pub fn static_error() -> (r: Response)
    ensures
        r.status == INTERNAL_SERVER_ERROR,
        r.body matches Body::Text(t) && t@ == "Static file error"@,
{
    Response { status: INTERNAL_SERVER_ERROR, body: Body::Text(String::from_str("Static file error")) }
}

/// Creates a user in `table` and answers as `create_user` does.
pub fn handle_create(table: &mut UserTable, req: CreateUser) -> (r: Response)
    requires
        old(table).wf(),
    ensures
        final(table).wf(),
        old(table).next_id_spec() <= crate::table::MAX_ID ==> r.status == CREATED
            && UserTable::created(*old(table), req, *final(table), req.with_id(old(table).next_id_spec()))
            && r.has_user(req.with_id(old(table).next_id_spec())),
        old(table).next_id_spec() > crate::table::MAX_ID ==> r.status == INTERNAL_SERVER_ERROR
            && r.body is Empty && *final(table) == *old(table),
{
    let outcome = table.insert(req);
    create_user(outcome)
}

/// Lists `table` and answers as `get_users` does.
pub fn handle_list(table: &UserTable) -> (r: Response)
    ensures
        r.status == OK,
        r.has_users(table@),
{
    get_users(Ok(table.all()))
}

/// Looks up `id` in `table` and answers as `get_user` does.
pub fn handle_get(table: &UserTable, id: i32) -> (r: Response)
    requires
        table.wf(),
    ensures
        lookup(table@, id as int) matches Some(u) ==> r.status == OK && r.has_user(u),
        lookup(table@, id as int) is None ==> r.status == NOT_FOUND && r.body is Empty,
{
    match table.find(id) {
        Some(u) => get_user(Ok(u)),
        None => get_user(Err(StorageFault)),
    }
}

} // verus!
