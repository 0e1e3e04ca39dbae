//! The user store: create/read/update/delete over an in-memory table of user
//! rows, with identifiers assigned by the store.

use vstd::prelude::*;

verus! {

/// A user row. `user_id` is assigned by the store on creation; `status` is the
/// active/inactive flag, which defaults to active on creation.
pub struct User {
    pub user_id: i32,
    pub username: String,
    pub password: String,
    pub status: bool,
}

/// The fields of a user row before the store has assigned it an identifier.
pub struct NewUser {
    pub username: String,
    pub password: String,
    pub status: bool,
}

/// A change to apply to an existing user row.
pub struct UpdateUser {
    pub status: bool,
}

impl Clone for User {
    fn clone(&self) -> (r: Self)
        ensures
            r == *self,
    {
        User {
            user_id: self.user_id,
            username: self.username.clone(),
            password: self.password.clone(),
            status: self.status,
        }
    }
}

/// No two rows of `rows` carry the same identifier.
pub open spec fn ids_unique(rows: Seq<User>) -> bool {
    forall|i: int, j: int|
        #![trigger rows[i].user_id, rows[j].user_id]
        0 <= i < j < rows.len() ==> rows[i].user_id != rows[j].user_id
}

/// Whether some row of `rows` carries the identifier `user_id`.
pub open spec fn has_user(rows: Seq<User>, user_id: i32) -> bool {
    exists|i: int| 0 <= i < rows.len() && rows[i].user_id == user_id
}

/// An index of a row of `rows` carrying the identifier `user_id`.
pub open spec fn user_index(rows: Seq<User>, user_id: i32) -> int {
    choose|i: int| 0 <= i < rows.len() && rows[i].user_id == user_id
}

/// The row returned for `user_id`: the matching row, or nothing.
pub open spec fn spec_get_by_id(rows: Seq<User>, user_id: i32) -> Option<User> {
    if has_user(rows, user_id) {
        Some(rows[user_index(rows, user_id)])
    } else {
        None
    }
}

/// `u` with its status replaced when its identifier matches, unchanged otherwise.
pub open spec fn apply_status(u: User, user_id: i32, status: bool) -> User {
    if u.user_id == user_id {
        User { user_id: u.user_id, username: u.username, password: u.password, status }
    } else {
        u
    }
}

/// The table after setting the status of every row carrying `user_id`.
pub open spec fn spec_update_status(rows: Seq<User>, user_id: i32, status: bool) -> Seq<User> {
    rows.map_values(|u: User| apply_status(u, user_id, status))
}

/// The table after removing every row carrying `user_id`.
pub open spec fn spec_delete(rows: Seq<User>, user_id: i32) -> Seq<User>
    decreases rows.len(),
{
    if rows.len() == 0 {
        Seq::empty()
    } else {
        let rest = spec_delete(rows.drop_last(), user_id);
        if rows.last().user_id == user_id {
            rest
        } else {
            rest.push(rows.last())
        }
    }
}

/// The in-memory table of user rows. Identifiers are handed out in increasing
/// order starting at 1, so no two rows ever share one.
pub struct UserStore {
    rows: Vec<User>,
    next_id: i32,
}

impl View for UserStore {
    type V = Seq<User>;

    closed spec fn view(&self) -> Seq<User> {
        self.rows@
    }
}

impl UserStore {
    /// The identifier the next created row will receive.
    pub closed spec fn fresh_id(&self) -> int {
        self.next_id as int
    }

    /// Well-formedness: identifiers are positive, below the next fresh one,
    /// and pairwise distinct.
    pub closed spec fn wf(&self) -> bool {
        &&& 1 <= self.next_id
        &&& forall|i: int|
            0 <= i < self.rows@.len() ==> 1 <= #[trigger] self.rows@[i].user_id < self.next_id
        &&& ids_unique(self.rows@)
    }

    /// An empty table.
    pub fn new() -> (r: UserStore)
        ensures
            r.wf(),
            r@ == Seq::<User>::empty(),
            r.fresh_id() == 1,
    {
        UserStore { rows: Vec::new(), next_id: 1 }
    }

    /// Appends `new_user` as a fresh row, assigning it the next identifier,
    /// and returns the stored row.
    pub fn insert(&mut self, new_user: NewUser) -> (r: User)
        requires
            old(self).wf(),
            old(self).fresh_id() < i32::MAX as int,
        ensures
            final(self).wf(),
            r.user_id as int == old(self).fresh_id(),
            forall|i: int| 0 <= i < old(self)@.len() ==> #[trigger] old(self)@[i].user_id
                != r.user_id,
            r.username == new_user.username,
            r.password == new_user.password,
            r.status == new_user.status,
            final(self)@ == old(self)@.push(r),
            final(self).fresh_id() == old(self).fresh_id() + 1,
    {
        let row = User {
            user_id: self.next_id,
            username: new_user.username,
            password: new_user.password,
            status: new_user.status,
        };
        let r = row.clone();
        self.rows.push(row);
        self.next_id = self.next_id + 1;
        r
    }
}

impl User {
    /// Returns every row of the table, in the table's order.
    pub fn get_all(store: &UserStore) -> (r: Vec<User>)
        ensures
            r@ == store@,
    {
        let mut out: Vec<User> = Vec::new();
        let mut i: usize = 0;
        while i < store.rows.len()
            invariant
                i <= store.rows@.len(),
                out@ == store@.subrange(0, i as int),
            decreases store.rows@.len() - i,
        {
            out.push(store.rows[i].clone());
            i = i + 1;
            proof {
                assert(out@ =~= store@.subrange(0, i as int));
            }
        }
        proof {
            assert(store@.subrange(0, store@.len() as int) =~= store@);
        }
        out
    }

    /// Returns the row carrying `user_id`, or nothing when no row does.
    pub fn get_by_id(store: &UserStore, user_id: i32) -> (r: Option<User>)
        requires
            store.wf(),
        ensures
            r == spec_get_by_id(store@, user_id),
    {
        let mut i: usize = 0;
        while i < store.rows.len()
            invariant
                store.wf(),
                i <= store.rows@.len(),
                forall|k: int| 0 <= k < i ==> #[trigger] store@[k].user_id != user_id,
            decreases store.rows@.len() - i,
        {
            if store.rows[i].user_id == user_id {
                proof {
                    assert(has_user(store@, user_id));
                    let j = user_index(store@, user_id);
                    assert(store@[j].user_id == user_id);
                    assert(j == i as int);
                }
                return Some(store.rows[i].clone());
            }
            i = i + 1;
        }
        proof {
            if has_user(store@, user_id) {
                let j = user_index(store@, user_id);
                assert(store@[j].user_id == user_id);
                assert(false);
            }
        }
        None
    }

    /// Creates a user with the given credentials; the status defaults to
    /// active. Returns the stored row, identifier included.
    pub fn create(store: &mut UserStore, username: &str, password: &str) -> (r: User)
        requires
            old(store).wf(),
            old(store).fresh_id() < i32::MAX as int,
        ensures
            final(store).wf(),
            r.username@ == username@,
            r.password@ == password@,
            r.status == true,
            r.user_id as int == old(store).fresh_id(),
            forall|i: int| 0 <= i < old(store)@.len() ==> #[trigger] old(store)@[i].user_id
                != r.user_id,
            final(store)@ == old(store)@.push(r),
            final(store).fresh_id() == old(store).fresh_id() + 1,
    {
        let new_user = NewUser {
            username: username.to_owned(),
            password: password.to_owned(),
            status: true,
        };
        store.insert(new_user)
    }

    /// Sets the status of the row carrying `user_id`; returns whether a row
    /// was affected.
    pub fn update_status(store: &mut UserStore, user_id: i32, status: bool) -> (r: bool)
        requires
            old(store).wf(),
        ensures
            final(store).wf(),
            final(store)@ == spec_update_status(old(store)@, user_id, status),
            r == has_user(old(store)@, user_id),
            final(store).fresh_id() == old(store).fresh_id(),
    {
        let update = UpdateUser { status };
        let ghost target = spec_update_status(old(store)@, user_id, status);
        let mut out: Vec<User> = Vec::new();
        let mut found = false;
        let mut i: usize = 0;
        while i < store.rows.len()
            invariant
                *store == *old(store),
                i <= store.rows@.len(),
                target == spec_update_status(store@, user_id, update.status),
                out@ == target.subrange(0, i as int),
                found <==> exists|k: int|
                    0 <= k < i && #[trigger] store@[k].user_id == user_id,
            decreases store.rows@.len() - i,
        {
            let row = &store.rows[i];
            if row.user_id == user_id {
                out.push(
                    User {
                        user_id: row.user_id,
                        username: row.username.clone(),
                        password: row.password.clone(),
                        status: update.status,
                    },
                );
                found = true;
                proof {
                    assert(store@[i as int].user_id == user_id);
                }
            } else {
                out.push(row.clone());
            }
            i = i + 1;
            proof {
                assert(out@ =~= target.subrange(0, i as int));
            }
        }
        proof {
            assert(target.subrange(0, target.len() as int) =~= target);
            if found {
                let k = choose|k: int|
                    0 <= k < store@.len() && #[trigger] store@[k].user_id == user_id;
                assert(store@[k].user_id == user_id);
                assert(has_user(store@, user_id));
            }
            if has_user(store@, user_id) {
                let j = user_index(store@, user_id);
                assert(store@[j].user_id == user_id);
            }
        }
        store.rows = out;
        proof {
            assert forall|k: int|
                0 <= k < store.rows@.len() implies 1 <= #[trigger] store.rows@[k].user_id
                    < store.next_id by {
                assert(store.rows@[k] == apply_status(old(store)@[k], user_id, status));
            }
            assert forall|k: int, l: int|
                #![trigger store.rows@[k].user_id, store.rows@[l].user_id]
                0 <= k < l < store.rows@.len() implies store.rows@[k].user_id
                    != store.rows@[l].user_id by {
                assert(store.rows@[k] == apply_status(old(store)@[k], user_id, status));
                assert(store.rows@[l] == apply_status(old(store)@[l], user_id, status));
                assert(old(store).rows@[k].user_id != old(store).rows@[l].user_id);
            }
            assert(ids_unique(store.rows@));
        }
        found
    }

    /// Removes the row carrying `user_id`; returns whether a row was affected.
    pub fn delete(store: &mut UserStore, user_id: i32) -> (r: bool)
        requires
            old(store).wf(),
        ensures
            final(store).wf(),
            final(store)@ == spec_delete(old(store)@, user_id),
            r == has_user(old(store)@, user_id),
            final(store).fresh_id() == old(store).fresh_id(),
    {
        let mut out: Vec<User> = Vec::new();
        let mut found = false;
        let mut i: usize = 0;
        while i < store.rows.len()
            invariant
                *store == *old(store),
                i <= store.rows@.len(),
                out@ == spec_delete(store@.subrange(0, i as int), user_id),
                found <==> exists|k: int|
                    0 <= k < i && #[trigger] store@[k].user_id == user_id,
            decreases store.rows@.len() - i,
        {
            let row = &store.rows[i];
            if row.user_id == user_id {
                found = true;
                proof {
                    assert(store@[i as int].user_id == user_id);
                }
            } else {
                out.push(row.clone());
            }
            i = i + 1;
            proof {
                assert(store@.subrange(0, i as int).drop_last() =~= store@.subrange(
                    0,
                    (i - 1) as int,
                ));
                assert(store@.subrange(0, i as int).last() == store@[(i - 1) as int]);
            }
        }
        proof {
            assert(store@.subrange(0, store@.len() as int) =~= store@);
            if found {
                let k = choose|k: int|
                    0 <= k < store@.len() && #[trigger] store@[k].user_id == user_id;
                assert(store@[k].user_id == user_id);
                assert(has_user(store@, user_id));
            }
            if has_user(store@, user_id) {
                let j = user_index(store@, user_id);
                assert(store@[j].user_id == user_id);
            }
        }
        store.rows = out;
        proof {
            lemma_delete_shape(old(store)@, user_id);
            lemma_delete_unique(old(store)@, user_id);
            assert forall|k: int|
                0 <= k < store.rows@.len() implies 1 <= #[trigger] store.rows@[k].user_id
                    < store.next_id by {
                assert(spec_delete(old(store)@, user_id)[k] == store.rows@[k]);
                assert(old(store)@.contains(store.rows@[k]));
                let j = choose|j: int|
                    0 <= j < old(store)@.len() && old(store)@[j] == store.rows@[k];
                assert(old(store).rows@[j] == store.rows@[k]);
            }
        }
        found
    }
}

/// Every row kept by a deletion stood in the table before it and does not
/// carry the deleted identifier.
pub proof fn lemma_delete_shape(rows: Seq<User>, user_id: i32)
    ensures
        forall|k: int|
            0 <= k < spec_delete(rows, user_id).len() ==> (#[trigger] spec_delete(
                rows,
                user_id,
            )[k]).user_id != user_id && rows.contains(spec_delete(rows, user_id)[k]),
    decreases rows.len(),
{
    if rows.len() > 0 {
        lemma_delete_shape(rows.drop_last(), user_id);
        let rest = spec_delete(rows.drop_last(), user_id);
        let result = spec_delete(rows, user_id);
        assert forall|k: int|
            0 <= k < result.len() implies #[trigger] result[k].user_id != user_id
                && rows.contains(result[k]) by {
            if k < rest.len() {
                assert(result[k] == rest[k]);
                assert(spec_delete(rows.drop_last(), user_id)[k] == rest[k]);
                assert(rows.drop_last().contains(rest[k]));
                let j = choose|j: int|
                    0 <= j < rows.drop_last().len() && rows.drop_last()[j] == rest[k];
                assert(rows[j] == rest[k]);
            } else {
                assert(result[k] == rows.last());
                assert(rows[rows.len() - 1] == rows.last());
            }
        }
    }
}

/// Deletion keeps identifiers pairwise distinct.
pub proof fn lemma_delete_unique(rows: Seq<User>, user_id: i32)
    requires
        ids_unique(rows),
    ensures
        ids_unique(spec_delete(rows, user_id)),
    decreases rows.len(),
{
    if rows.len() > 0 {
        assert forall|i: int, j: int|
            #![trigger rows.drop_last()[i].user_id, rows.drop_last()[j].user_id]
            0 <= i < j < rows.drop_last().len() implies rows.drop_last()[i].user_id
                != rows.drop_last()[j].user_id by {
            assert(rows[i] == rows.drop_last()[i]);
            assert(rows[j] == rows.drop_last()[j]);
        }
        lemma_delete_unique(rows.drop_last(), user_id);
        lemma_delete_shape(rows.drop_last(), user_id);
        let rest = spec_delete(rows.drop_last(), user_id);
        let result = spec_delete(rows, user_id);
        if rows.last().user_id != user_id {
            assert forall|k: int|
                0 <= k < rest.len() implies #[trigger] rest[k].user_id
                    != rows.last().user_id by {
                assert(spec_delete(rows.drop_last(), user_id)[k] == rest[k]);
                assert(rows.drop_last().contains(rest[k]));
                let j = choose|j: int|
                    0 <= j < rows.drop_last().len() && rows.drop_last()[j] == rest[k];
                assert(rows[j] == rest[k]);
                assert(rows[j].user_id != rows[rows.len() - 1].user_id);
            }
            assert forall|i: int, j: int|
                #![trigger result[i].user_id, result[j].user_id]
                0 <= i < j < result.len() implies result[i].user_id != result[j].user_id by {
                if j < rest.len() {
                    assert(result[i] == rest[i]);
                    assert(result[j] == rest[j]);
                } else {
                    assert(result[i] == rest[i]);
                    assert(result[j] == rows.last());
                }
            }
        }
    }
}

/// After a status update, a lookup of the same identifier sees the new status;
/// a row is found after the update exactly when one was found before.
pub proof fn lemma_update_then_get(rows: Seq<User>, user_id: i32, status: bool)
    ensures
        spec_get_by_id(spec_update_status(rows, user_id, status), user_id) matches Some(u) ==> (
        u.status == status && u.user_id == user_id),
        has_user(spec_update_status(rows, user_id, status), user_id) == has_user(rows, user_id),
{
    let updated = spec_update_status(rows, user_id, status);
    assert(updated.len() == rows.len());
    assert forall|i: int| 0 <= i < rows.len() implies #[trigger] updated[i] == apply_status(
        rows[i],
        user_id,
        status,
    ) by {}
    if has_user(rows, user_id) {
        let i = user_index(rows, user_id);
        assert(rows[i].user_id == user_id);
        assert(updated[i].user_id == user_id);
        assert(has_user(updated, user_id));
    }
    if has_user(updated, user_id) {
        let i = user_index(updated, user_id);
        assert(updated[i].user_id == user_id);
        assert(rows[i].user_id == user_id);
        assert(has_user(rows, user_id));
    }
}

/// After a deletion, a lookup of the same identifier finds nothing.
pub proof fn lemma_delete_then_get(rows: Seq<User>, user_id: i32)
    ensures
        spec_get_by_id(spec_delete(rows, user_id), user_id) is None,
{
    lemma_delete_shape(rows, user_id);
    let deleted = spec_delete(rows, user_id);
    if has_user(deleted, user_id) {
        let i = user_index(deleted, user_id);
        assert(deleted[i].user_id == user_id);
        assert(false);
    }
}

} // verus!
