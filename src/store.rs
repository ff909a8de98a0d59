use vstd::prelude::*;
use crate::runtime::{now_micros, random_user_id};
use crate::role::{code_of_role, role_or_guest};
use crate::user::{CreateUser, Users, user_from_payload};

verus! {

/// The message of a creation whose identifier is already taken.
pub open spec fn duplicate_id_message() -> Seq<char> {
    "duplicate key value violates unique constraint on users.id"@
}

/// The message of an update whose identifier matches no row.
pub open spec fn missing_row_message() -> Seq<char> {
    "no rows returned by a query that expected to return at least one row"@
}

/// What a lookup finds in a table.
pub open spec fn find_in(table: Map<u128, Users>, id: u128) -> Option<Users> {
    if table.contains_key(id) {
        Some(table[id])
    } else {
        None
    }
}

/// The stored user `stored` after an update with the values of `user` at time
/// `now`: the identifier and every mutable field are taken from `user`, the
/// creation time stays.
pub open spec fn updated_user(stored: Users, user: Users, now: i64) -> Users {
    Users {
        id: user.id,
        nom: user.nom,
        prenom: user.prenom,
        email: user.email,
        password: user.password,
        telephone: user.telephone,
        role: user.role,
        created_at: stored.created_at,
        updated_at: now,
    }
}

/// A repository that holds the users table in memory.
pub struct InMemoryUserRepository {
    rows: Vec<Users>,
    table: Ghost<Map<u128, Users>>,
}

impl View for InMemoryUserRepository {
    type V = Map<u128, Users>;

    closed spec fn view(&self) -> Map<u128, Users> {
        self.table@
    }
}

impl InMemoryUserRepository {
    /// The rows hold exactly the table: one row per key, under its own identifier.
    pub closed spec fn wf(&self) -> bool {
        &&& forall|i: int|
            0 <= i < self.rows@.len() ==> #[trigger] self.table@.contains_key(self.rows@[i].id)
                && self.table@[self.rows@[i].id] == self.rows@[i]
        &&& forall|id: u128|
            #[trigger] self.table@.contains_key(id) ==> exists|i: int|
                0 <= i < self.rows@.len() && #[trigger] self.rows@[i].id == id
        &&& forall|i: int, j: int|
            0 <= i < self.rows@.len() && 0 <= j < self.rows@.len() && #[trigger] self.rows@[i].id
                == #[trigger] self.rows@[j].id ==> i == j
    }

    /// An empty table.
    pub fn new() -> (r: InMemoryUserRepository)
        ensures
            r.wf(),
            r@ == Map::<u128, Users>::empty(),
    {
        InMemoryUserRepository { rows: Vec::new(), table: Ghost(Map::empty()) }
    }

    /// Each user is stored under its own identifier.
    pub proof fn lemma_stored_under_own_id(&self)
        requires
            self.wf(),
        ensures
            forall|k: u128| #[trigger] self@.contains_key(k) ==> self@[k].id == k,
    {
        assert forall|k: u128| #[trigger] self@.contains_key(k) implies self@[k].id == k by {
            let i = choose|i: int| 0 <= i < self.rows@.len() && #[trigger] self.rows@[i].id == k;
            assert(self.table@.contains_key(self.rows@[i].id));
        }
    }

    /// The number of stored users.
    pub fn len(&self) -> (r: usize)
        requires
            self.wf(),
        ensures
            r as nat == self@.len(),
    {
        proof {
            self.lemma_len();
        }
        self.rows.len()
    }

    proof fn lemma_len(&self)
        requires
            self.wf(),
        ensures
            self.rows@.len() == self@.len(),
    {
        let ids = Seq::new(self.rows@.len(), |i: int| self.rows@[i].id);
        assert(ids.no_duplicates());
        assert(ids.to_set() =~= self@.dom()) by {
            assert forall|id: u128| ids.to_set().contains(id) <==> self@.dom().contains(id) by {
                if self@.contains_key(id) {
                    let i = choose|i: int| 0 <= i < self.rows@.len() && self.rows@[i].id == id;
                    assert(ids[i] == id);
                }
                if ids.to_set().contains(id) {
                    let i = choose|i: int| 0 <= i < ids.len() && ids[i] == id;
                    assert(self.table@.contains_key(self.rows@[i].id));
                }
            }
        }
        ids.unique_seq_to_set();
    }

    fn index_of(&self, id: u128) -> (r: Option<usize>)
        requires
            self.wf(),
        ensures
            match r {
                Some(i) => i < self.rows@.len() && self.rows@[i as int].id == id
                    && self@.contains_key(id) && self@[id] == self.rows@[i as int],
                None => !self@.contains_key(id),
            },
    {
        let mut i: usize = 0;
        while i < self.rows.len()
            invariant
                self.wf(),
                i <= self.rows@.len(),
                forall|k: int| 0 <= k < i ==> self.rows@[k].id != id,
            decreases self.rows@.len() - i,
        {
            if self.rows[i].id == id {
                return Some(i);
            }
            i = i + 1;
        }
        proof {
            if self@.contains_key(id) {
                let k = choose|k: int| 0 <= k < self.rows@.len() && self.rows@[k].id == id;
                assert(self.rows@[k].id == id);
            }
        }
        None
    }

    /// The user stored under `id`, or `None` where there is none. Never fails.
    pub fn find_by_id(&self, id: u128) -> (r: Result<Option<Users>, String>)
        requires
            self.wf(),
        ensures
            r == Ok::<Option<Users>, String>(find_in(self@, id)),
            self@.contains_key(id) ==> self@[id].id == id,
    {
        proof {
            self.lemma_stored_under_own_id();
        }
        match self.index_of(id) {
            Some(i) => Ok(Some(self.rows[i].duplicate())),
            None => Ok(None),
        }
    }

    /// Stores the user that `create_user` becomes under identifier `id` at time
    /// `now`, and returns it; fails, changing nothing, where `id` is taken.
    pub fn create_at(&mut self, id: u128, create_user: CreateUser, now: i64) -> (r: Result<
        Users,
        String,
    >)
        requires
            old(self).wf(),
        ensures
            final(self).wf(),
            old(self)@.contains_key(id) ==> r is Err && r->Err_0@ == duplicate_id_message()
                && final(self)@ == old(self)@,
            !old(self)@.contains_key(id) ==> r == Ok::<Users, String>(
                user_from_payload(id, create_user, now),
            ) && final(self)@ == old(self)@.insert(id, user_from_payload(id, create_user, now)),
    {
        match self.index_of(id) {
            Some(_) => Err("duplicate key value violates unique constraint on users.id".to_owned()),
            None => {
                let user = Users::new_at(id, create_user, now);
                let stored = user.duplicate();
                let ghost old_rows = self.rows@;
                self.rows.push(stored);
                self.table = Ghost(self.table@.insert(id, user));
                proof {
                    assert forall|i: int| 0 <= i < old_rows.len() implies #[trigger] old_rows[i].id
                        != id by {
                        assert(old(self).table@.contains_key(old_rows[i].id));
                    }
                    assert(self.rows@[old_rows.len() as int].id == id);
                    assert forall|k: u128| #[trigger] self.table@.contains_key(k) implies exists|
                        i: int,
                    | 0 <= i < self.rows@.len() && #[trigger] self.rows@[i].id == k by {
                        if k != id {
                            let i = choose|i: int|
                                0 <= i < old_rows.len() && #[trigger] old_rows[i].id == k;
                            assert(self.rows@[i].id == k);
                        }
                    }
                    assert forall|i: int|
                        0 <= i < self.rows@.len() implies #[trigger] self.table@.contains_key(
                        self.rows@[i].id,
                    ) && self.table@[self.rows@[i].id] == self.rows@[i] by {
                        if i < old_rows.len() {
                            assert(self.rows@[i] == old_rows[i]);
                        }
                    }
                }
                Ok(user)
            },
        }
    }

    /// Stores a new user made from `create_user` under a fresh random identifier,
    /// stamped with the current time. Fails, changing nothing, where the drawn
    /// identifier is already taken.
    pub fn create(&mut self, create_user: CreateUser) -> (r: Result<Users, String>)
        requires
            old(self).wf(),
        ensures
            final(self).wf(),
            exists|id: u128, now: i64|
                now >= 0 && (old(self)@.contains_key(id) ==> r is Err && r->Err_0@
                    == duplicate_id_message() && final(self)@ == old(self)@) && (!old(
                    self,
                )@.contains_key(id) ==> r == Ok::<Users, String>(
                    user_from_payload(id, create_user, now),
                ) && final(self)@ == old(self)@.insert(
                    id,
                    user_from_payload(id, create_user, now),
                )),
    {
        let id = random_user_id();
        let now = now_micros();
        self.create_at(id, create_user, now)
    }

    /// Writes every mutable field of `user` into the row stored under `user.id`,
    /// with the update time `now`, and returns the stored user; fails, changing
    /// nothing, where no user is stored under that identifier.
    pub fn update_at(&mut self, user: Users, now: i64) -> (r: Result<Users, String>)
        requires
            old(self).wf(),
        ensures
            final(self).wf(),
            !old(self)@.contains_key(user.id) ==> r is Err && r->Err_0@ == missing_row_message()
                && final(self)@ == old(self)@,
            old(self)@.contains_key(user.id) ==> r == Ok::<Users, String>(
                updated_user(old(self)@[user.id], user, now),
            ) && final(self)@ == old(self)@.insert(
                user.id,
                updated_user(old(self)@[user.id], user, now),
            ),
    {
        match self.index_of(user.id) {
            None => Err(
                "no rows returned by a query that expected to return at least one row".to_owned(),
            ),
            Some(i) => {
                let ghost id = user.id;
                let created_at = self.rows[i].created_at;
                let stored = Users {
                    id: user.id,
                    nom: user.nom,
                    prenom: user.prenom,
                    email: user.email,
                    password: user.password,
                    telephone: user.telephone,
                    role: user.role,
                    created_at,
                    updated_at: now,
                };
                let result = stored.duplicate();
                let ghost old_rows = self.rows@;
                self.rows[i] = stored;
                self.table = Ghost(self.table@.insert(id, result));
                proof {
                    assert(self.rows@ == old_rows.update(i as int, result));
                    assert forall|k: u128| #[trigger] self.table@.contains_key(k) implies exists|
                        j: int,
                    | 0 <= j < self.rows@.len() && #[trigger] self.rows@[j].id == k by {
                        let j = choose|j: int|
                            0 <= j < old_rows.len() && #[trigger] old_rows[j].id == k;
                        assert(self.rows@[j].id == k);
                    }
                    assert forall|j: int|
                        0 <= j < self.rows@.len() implies #[trigger] self.table@.contains_key(
                        self.rows@[j].id,
                    ) && self.table@[self.rows@[j].id] == self.rows@[j] by {
                        if j != i {
                            assert(self.rows@[j] == old_rows[j]);
                            assert(old(self).table@.contains_key(old_rows[j].id));
                        }
                    }
                }
                Ok(result)
            },
        }
    }

    /// Writes every mutable field of `user` into the row stored under `user.id`,
    /// stamped with the current time; fails, changing nothing, where no user is
    /// stored under that identifier.
    pub fn update(&mut self, user: Users) -> (r: Result<Users, String>)
        requires
            old(self).wf(),
        ensures
            final(self).wf(),
            !old(self)@.contains_key(user.id) ==> r is Err && r->Err_0@ == missing_row_message()
                && final(self)@ == old(self)@,
            exists|now: i64|
                now >= 0 && (old(self)@.contains_key(user.id) ==> r == Ok::<Users, String>(
                    updated_user(old(self)@[user.id], user, now),
                ) && final(self)@ == old(self)@.insert(
                    user.id,
                    updated_user(old(self)@[user.id], user, now),
                )),
    {
        let now = now_micros();
        self.update_at(user, now)
    }

    /// Removes the user stored under `id`, if any. Succeeds whether or not one was
    /// stored.
    pub fn delete(&mut self, id: u128) -> (r: Result<(), String>)
        requires
            old(self).wf(),
        ensures
            final(self).wf(),
            r is Ok,
            final(self)@ == old(self)@.remove(id),
    {
        match self.index_of(id) {
            None => {
                proof {
                    assert(self.table@.remove(id) =~= self.table@);
                }
            },
            Some(i) => {
                let ghost old_rows = self.rows@;
                let _ = self.rows.remove(i);
                self.table = Ghost(self.table@.remove(id));
                proof {
                    assert(self.rows@ == old_rows.remove(i as int));
                    assert forall|j: int| 0 <= j < self.rows@.len() implies #[trigger] self.rows@[j]
                        == old_rows[if j < i { j } else { j + 1 }] by {}
                    assert forall|k: u128| #[trigger] self.table@.contains_key(k) implies exists|
                        j: int,
                    | 0 <= j < self.rows@.len() && #[trigger] self.rows@[j].id == k by {
                        let m = choose|m: int|
                            0 <= m < old_rows.len() && #[trigger] old_rows[m].id == k;
                        assert(m != i);
                        let j = if m < i { m } else { m - 1 };
                        assert(self.rows@[j] == old_rows[m]);
                    }
                    assert forall|j: int|
                        0 <= j < self.rows@.len() implies #[trigger] self.table@.contains_key(
                        self.rows@[j].id,
                    ) && self.table@[self.rows@[j].id] == self.rows@[j] by {
                        let m = if j < i { j } else { j + 1 };
                        assert(self.rows@[j] == old_rows[m]);
                        assert(old_rows[m].id != id);
                        assert(old(self).table@.contains_key(old_rows[m].id));
                    }
                    assert forall|a: int, b: int|
                        0 <= a < self.rows@.len() && 0 <= b < self.rows@.len()
                            && #[trigger] self.rows@[a].id == #[trigger] self.rows@[b].id implies a
                        == b by {
                        let ma = if a < i { a } else { a + 1 };
                        let mb = if b < i { b } else { b + 1 };
                        assert(self.rows@[a] == old_rows[ma]);
                        assert(self.rows@[b] == old_rows[mb]);
                    }
                }
            },
        }
        Ok(())
    }
}

/// A user created from a payload and then looked up under the identifier it was
/// given is found with the payload's names, email, password and telephone
/// unchanged, with the role that the payload's code stands for, and with equal
/// creation and update times.
pub proof fn lemma_create_then_find(
    table: Map<u128, Users>,
    id: u128,
    payload: CreateUser,
    now: i64,
)
    requires
        !table.contains_key(id),
    ensures
        ({
            let found = find_in(table.insert(id, user_from_payload(id, payload, now)), id);
            &&& found is Some
            &&& found->Some_0.id == id
            &&& found->Some_0.nom@ == payload.nom@
            &&& found->Some_0.prenom@ == payload.prenom@
            &&& found->Some_0.email@ == payload.email@
            &&& found->Some_0.password@ == payload.password@
            &&& found->Some_0.telephone@ == payload.telephone@
            &&& found->Some_0.role == role_or_guest(payload.role as int)
            &&& 1 <= payload.role <= 3 ==> code_of_role(found->Some_0.role) == payload.role
            &&& found->Some_0.created_at == found->Some_0.updated_at
        }),
{
}

/// Deleting an identifier under which nothing is stored leaves the table as it
/// is, and deleting twice leaves it as deleting once does.
pub proof fn lemma_delete_idempotent(table: Map<u128, Users>, id: u128)
    ensures
        !table.contains_key(id) ==> table.remove(id) == table,
        table.remove(id).remove(id) == table.remove(id),
{
    assert(table.remove(id).remove(id) =~= table.remove(id));
    if !table.contains_key(id) {
        assert(table.remove(id) =~= table);
    }
}

/// An update at a time later than the stored update time moves the update time
/// strictly forward and keeps the creation time.
pub proof fn lemma_update_advances_updated_at(table: Map<u128, Users>, user: Users, now: i64)
    requires
        table.contains_key(user.id),
        now > table[user.id].updated_at,
    ensures
        ({
            let before = find_in(table, user.id);
            let after = find_in(
                table.insert(user.id, updated_user(table[user.id], user, now)),
                user.id,
            );
            &&& before is Some && after is Some
            &&& after->Some_0.updated_at > before->Some_0.updated_at
            &&& after->Some_0.created_at == before->Some_0.created_at
        }),
{
}

/// A lookup of an identifier under which nothing is stored finds nothing.
pub proof fn lemma_find_absent(table: Map<u128, Users>, id: u128)
    requires
        !table.contains_key(id),
    ensures
        find_in(table, id) is None,
{
}

} // verus!
