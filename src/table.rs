use vstd::prelude::*;

use crate::model::{CreateUser, StorageFault, User, UserView};

verus! {

/// The largest identifier that the serial counter of the table hands out.
pub const MAX_ID: i64 = 2147483647;

/// The row with identifier `id` in `rows`, if there is one.
pub open spec fn lookup(rows: Seq<UserView>, id: int) -> Option<UserView> {
    if exists|k: int| 0 <= k < rows.len() && (#[trigger] rows[k]).id == id {
        let k = choose|k: int| 0 <= k < rows.len() && (#[trigger] rows[k]).id == id;
        Some(rows[k])
    } else {
        None
    }
}

/// An in-memory users table. Rows are only ever appended; each new row gets
/// the next value of a serial counter that starts at 1, as a database serial
/// column does, and creation fails once the counter has passed `MAX_ID`.
pub struct UserTable {
    rows: Vec<User>,
    next_id: i64,
}

impl View for UserTable {
    type V = Seq<UserView>;

    closed spec fn view(&self) -> Seq<UserView> {
        self.rows@.map_values(|u: User| u@)
    }
}

impl UserTable {
    /// The identifier that the next successful creation assigns.
    pub closed spec fn next_id_spec(&self) -> int {
        self.next_id as int
    }

    /// Identifiers are positive, strictly increasing in insertion order
    /// (hence unique), and all below the counter.
    pub open spec fn wf(&self) -> bool {
        &&& 1 <= self.next_id_spec() <= MAX_ID + 1
        &&& forall|k: int| 0 <= k < self@.len() ==> 1 <= #[trigger] self@[k].id < self.next_id_spec()
        &&& forall|j: int, k: int| 0 <= j < k < self@.len() ==> #[trigger] self@[j].id < #[trigger] self@[k].id
    }

    /// Whether `id` has ever been handed out by this table.
    pub open spec fn issued(&self, id: int) -> bool {
        1 <= id < self.next_id_spec()
    }

    /// `after` is `before` with one row created from `req`, and `u` is that row.
    pub open spec fn created(before: Self, req: CreateUser, after: Self, u: UserView) -> bool {
        &&& before.next_id_spec() <= MAX_ID
        &&& u == req.with_id(before.next_id_spec())
        &&& after@ == before@.push(u)
        &&& after.next_id_spec() == before.next_id_spec() + 1
    }

    /// An empty table whose counter starts at 1.
    pub fn new() -> (r: Self)
        ensures
            r.wf(),
            r@ == Seq::<UserView>::empty(),
            r.next_id_spec() == 1,
    {
        let r = UserTable { rows: Vec::new(), next_id: 1 };
        assert(r@ =~= Seq::<UserView>::empty());
        r
    }

    /// Appends a row built from `req` with the next identifier and returns it;
    /// fails, leaving the table as it was, once the identifiers are used up.
    pub fn insert(&mut self, req: CreateUser) -> (r: Result<User, StorageFault>)
        requires
            old(self).wf(),
        ensures
            final(self).wf(),
            r is Ok <==> old(self).next_id_spec() <= MAX_ID,
            r matches Ok(u) ==> Self::created(*old(self), req, *final(self), u@),
            r is Err ==> *final(self) == *old(self),
    {
        if self.next_id > MAX_ID {
            return Err(StorageFault);
        }
        let id = self.next_id as i32;
        let u = User { id, name: req.name, email: req.email };
        let out = u.clone();
        let ghost before = self@;
        self.rows.push(u);
        self.next_id = self.next_id + 1;
        assert(self@ =~= before.push(out@));
        Ok(out)
    }

    /// Every row, in insertion order.
    pub fn all(&self) -> (r: Vec<User>)
        ensures
            r@.map_values(|u: User| u@) == self@,
    {
        let mut out: Vec<User> = Vec::new();
        let mut i: usize = 0;
        while i < self.rows.len()
            invariant
                i <= self.rows@.len(),
                out@.len() == i,
                forall|k: int| 0 <= k < i ==> (#[trigger] out@[k])@ == self.rows@[k]@,
            decreases self.rows@.len() - i,
        {
            out.push(self.rows[i].clone());
            i = i + 1;
        }
        assert(out@.map_values(|u: User| u@) =~= self@);
        out
    }

    /// The row with identifier `id`, if any.
    pub fn find(&self, id: i32) -> (r: Option<User>)
        requires
            self.wf(),
        ensures
            r matches Some(u) ==> lookup(self@, id as int) == Some(u@),
            r is None ==> lookup(self@, id as int) is None,
    {
        let mut i: usize = 0;
        while i < self.rows.len()
            invariant
                i <= self.rows@.len(),
                self.wf(),
                forall|k: int| 0 <= k < i ==> (#[trigger] self@[k]).id != id,
            decreases self.rows@.len() - i,
        {
            if self.rows[i].id == id {
                let u = self.rows[i].clone();
                proof {
                    assert(self@[i as int].id == id);
                    lemma_lookup_unique(*self, i as int);
                }
                return Some(u);
            }
            i = i + 1;
        }
        None
    }
}

/// In a well-formed table, looking up the identifier of a row finds that row.
pub proof fn lemma_lookup_unique(t: UserTable, k: int)
    requires
        t.wf(),
        0 <= k < t@.len(),
    ensures
        lookup(t@, t@[k].id) == Some(t@[k]),
{
    let rows = t@;
    let id = rows[k].id;
    assert(0 <= k < rows.len() && rows[k].id == id);
    let j = choose|j: int| 0 <= j < rows.len() && (#[trigger] rows[j]).id == id;
    if j < k {
        assert(rows[j].id < rows[k].id);
    } else if k < j {
        assert(rows[k].id < rows[j].id);
    }
}

/// `ts[0]`, `ts[1]`, ... are the states of a table through creations of the
/// users `us[0]`, `us[1]`, ... from the requests `reqs[0]`, `reqs[1]`, ...
pub open spec fn created_in_sequence(ts: Seq<UserTable>, reqs: Seq<CreateUser>, us: Seq<UserView>) -> bool {
    &&& ts.len() == us.len() + 1
    &&& reqs.len() == us.len()
    &&& forall|k: int| 0 <= k < us.len() ==> UserTable::created(#[trigger] ts[k], reqs[k], ts[k + 1], us[k])
}

/// A created user carries the submitted name and email, and a positive
/// identifier that the table had not handed out before and has now.
pub proof fn lemma_create_round_trip(before: UserTable, req: CreateUser, after: UserTable, u: UserView)
    requires
        before.wf(),
        UserTable::created(before, req, after, u),
    ensures
        after.wf(),
        u.name == req.name@,
        u.email == req.email@,
        u.id >= 1,
        !before.issued(u.id),
        after.issued(u.id),
        forall|k: int| 0 <= k < before@.len() ==> (#[trigger] before@[k]).id != u.id,
{
    assert forall|k: int| 0 <= k < after@.len() implies 1 <= #[trigger] after@[k].id < after.next_id_spec() by {
        if k < before@.len() {
            assert(after@[k] == before@[k]);
        }
    }
    assert forall|j: int, k: int| 0 <= j < k < after@.len() implies #[trigger] after@[j].id < #[trigger] after@[k].id by {
        assert(after@[j] == before@[j]);
        if k < before@.len() {
            assert(after@[k] == before@[k]);
        }
    }
}

/// Listing a table that started empty, after a sequence of creations,
/// gives exactly the created users, in order of creation.
pub proof fn lemma_list_completeness(ts: Seq<UserTable>, reqs: Seq<CreateUser>, us: Seq<UserView>)
    requires
        created_in_sequence(ts, reqs, us),
        ts[0].wf(),
        ts[0]@ == Seq::<UserView>::empty(),
    ensures
        ts[us.len() as int].wf(),
        ts[us.len() as int]@ == us,
    decreases us.len(),
{
    if us.len() > 0 {
        let n = us.len() - 1;
        let ts2 = ts.subrange(0, n + 1);
        let reqs2 = reqs.subrange(0, n);
        let us2 = us.subrange(0, n);
        assert forall|k: int| 0 <= k < us2.len() implies UserTable::created(#[trigger] ts2[k], reqs2[k], ts2[k + 1], us2[k]) by {
            assert(UserTable::created(ts[k], reqs[k], ts[k + 1], us[k]));
        }
        lemma_list_completeness(ts2, reqs2, us2);
        assert(ts2[n] == ts[n]);
        assert(UserTable::created(ts[n], reqs[n], ts[n + 1], us[n]));
        lemma_create_round_trip(ts[n], reqs[n], ts[n + 1], us[n]);
        assert(ts[n + 1]@ =~= us);
    }
}

/// The users created one after another from an empty table, however many,
/// all have distinct identifiers.
pub proof fn lemma_created_ids_distinct(ts: Seq<UserTable>, reqs: Seq<CreateUser>, us: Seq<UserView>)
    requires
        created_in_sequence(ts, reqs, us),
        ts[0].wf(),
        ts[0]@ == Seq::<UserView>::empty(),
    ensures
        forall|i: int, j: int| 0 <= i < j < us.len() ==> #[trigger] us[i].id != #[trigger] us[j].id,
{
    lemma_list_completeness(ts, reqs, us);
    let t = ts[us.len() as int];
    assert forall|i: int, j: int| 0 <= i < j < us.len() implies #[trigger] us[i].id != #[trigger] us[j].id by {
        assert(t@[i].id < t@[j].id);
    }
}

/// Every user created in a sequence of creations from an empty table is
/// found, with exactly its stored fields, by looking up its identifier.
pub proof fn lemma_lookup_consistency(ts: Seq<UserTable>, reqs: Seq<CreateUser>, us: Seq<UserView>, k: int)
    requires
        created_in_sequence(ts, reqs, us),
        ts[0].wf(),
        ts[0]@ == Seq::<UserView>::empty(),
        0 <= k < us.len(),
    ensures
        lookup(ts[us.len() as int]@, us[k].id) == Some(us[k]),
{
    lemma_list_completeness(ts, reqs, us);
    lemma_lookup_unique(ts[us.len() as int], k);
}

/// Looking up an identifier that the table never handed out finds nothing.
pub proof fn lemma_never_issued_not_found(t: UserTable, id: int)
    requires
        t.wf(),
        !t.issued(id),
    ensures
        lookup(t@, id) is None,
{
    if exists|k: int| 0 <= k < t@.len() && (#[trigger] t@[k]).id == id {
        let k = choose|k: int| 0 <= k < t@.len() && (#[trigger] t@[k]).id == id;
        assert(1 <= t@[k].id < t.next_id_spec());
    }
}

} // verus!
