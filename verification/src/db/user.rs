use vstd::prelude::*;

verus! {

/// A row of the user table, as handlers see it.
#[derive(Debug)]
pub struct User {
    pub id: i32,
    pub name: String,
    pub email: String,
    pub phone_number: Option<String>,
}

/// Mathematical value of a [`User`].
pub struct UserView {
    pub id: int,
    pub name: Seq<char>,
    pub email: Seq<char>,
    pub phone_number: Option<Seq<char>>,
}

impl View for User {
    type V = UserView;

    open spec fn view(&self) -> UserView {
        UserView {
            id: self.id as int,
            name: self.name@,
            email: self.email@,
            phone_number: self.phone_number.deep_view(),
        }
    }
}

impl Clone for User {
    fn clone(&self) -> (copy: Self)
        ensures
            copy@ == self@,
    {
        User {
            id: self.id,
            name: self.name.clone(),
            email: self.email.clone(),
            phone_number: self.phone_number.clone(),
        }
    }
}

/// What one successful authentication writes: keyed by the external identity.
#[derive(Debug)]
pub struct UpsertUser {
    pub microsoft_id: String,
    pub name: String,
    pub email: String,
}

/// Mathematical value of an [`UpsertUser`].
pub struct UpsertUserView {
    pub microsoft_id: Seq<char>,
    pub name: Seq<char>,
    pub email: Seq<char>,
}

impl View for UpsertUser {
    type V = UpsertUserView;

    open spec fn view(&self) -> UpsertUserView {
        UpsertUserView { microsoft_id: self.microsoft_id@, name: self.name@, email: self.email@ }
    }
}

/// A partial update of one row; a `None` field keeps the stored value.
#[derive(Debug)]
pub struct PatchUser {
    pub id: i32,
    pub email: Option<String>,
    pub phone_number: Option<String>,
}

/// Mathematical value of a [`PatchUser`].
pub struct PatchUserView {
    pub id: int,
    pub email: Option<Seq<char>>,
    pub phone_number: Option<Seq<char>>,
}

impl View for PatchUser {
    type V = PatchUserView;

    open spec fn view(&self) -> PatchUserView {
        PatchUserView {
            id: self.id as int,
            email: self.email.deep_view(),
            phone_number: self.phone_number.deep_view(),
        }
    }
}

/// A row of the user table as the store keeps it: the user, and the external
/// identity that the user signs in with.
#[derive(Debug)]
pub struct UserRow {
    pub user: User,
    pub microsoft_id: String,
}

/// Mathematical value of a [`UserRow`].
pub struct UserRowView {
    pub user: UserView,
    pub microsoft_id: Seq<char>,
}

impl View for UserRow {
    type V = UserRowView;

    open spec fn view(&self) -> UserRowView {
        UserRowView { user: self.user@, microsoft_id: self.microsoft_id@ }
    }
}

/// Why the store could not answer.
#[derive(Debug, Clone, Copy, PartialEq, Eq, Structural)]
pub enum StoreError {
    /// No row is the one asked for.
    RowNotFound,
    /// The store has run out of ids for new rows.
    OutOfIds,
}

/// Mathematical value of a [`UserTable`]: its rows, oldest first, and the id
/// that the next new row gets.
pub struct UserTableView {
    pub rows: Seq<UserRowView>,
    pub next_id: int,
}

impl UserTableView {
    /// No two rows share an external identity or an id, and every id in use
    /// lies below the next one to be given out.
    pub open spec fn wf(self) -> bool {
        &&& forall|i: int, j: int|
            0 <= i < j < self.rows.len() ==> (#[trigger] self.rows[i]).microsoft_id != (
            #[trigger] self.rows[j]).microsoft_id
        &&& forall|i: int, j: int|
            0 <= i < j < self.rows.len() ==> (#[trigger] self.rows[i]).user.id < (
            #[trigger] self.rows[j]).user.id
        &&& forall|i: int| 0 <= i < self.rows.len() ==> (#[trigger] self.rows[i]).user.id < self.next_id
    }

    /// Some row belongs to the external identity `microsoft_id`.
    pub open spec fn knows(self, microsoft_id: Seq<char>) -> bool {
        exists|i: int| 0 <= i < self.rows.len() && (#[trigger] self.rows[i]).microsoft_id == microsoft_id
    }

    /// The place of the row that belongs to `microsoft_id`.
    pub open spec fn index_of(self, microsoft_id: Seq<char>) -> int
        recommends
            self.knows(microsoft_id),
    {
        choose|i: int| 0 <= i < self.rows.len() && (#[trigger] self.rows[i]).microsoft_id == microsoft_id
    }

    /// How many rows belong to `microsoft_id`.
    pub open spec fn count(self, microsoft_id: Seq<char>) -> nat
        decreases self.rows.len(),
    {
        if self.rows.len() == 0 {
            0
        } else {
            let earlier = UserTableView { rows: self.rows.drop_last(), next_id: self.next_id };
            if self.rows.last().microsoft_id == microsoft_id {
                earlier.count(microsoft_id) + 1
            } else {
                earlier.count(microsoft_id)
            }
        }
    }

    /// Some row has the id `id`.
    pub open spec fn has_id(self, id: int) -> bool {
        exists|i: int| 0 <= i < self.rows.len() && (#[trigger] self.rows[i]).user.id == id
    }

    /// The place of the row whose id is `id`.
    pub open spec fn index_of_id(self, id: int) -> int
        recommends
            self.has_id(id),
    {
        choose|i: int| 0 <= i < self.rows.len() && (#[trigger] self.rows[i]).user.id == id
    }

    /// The table after `patch` was applied: the row with the patch's id takes
    /// each field that the patch names and keeps the others; where there is no
    /// such row, nothing changes.
    pub open spec fn patched(self, patch: PatchUserView) -> UserTableView {
        if self.has_id(patch.id) {
            let i = self.index_of_id(patch.id);
            let row = self.rows[i];
            UserTableView {
                rows: self.rows.update(
                    i,
                    UserRowView {
                        user: UserView {
                            email: match patch.email {
                                Some(email) => email,
                                None => row.user.email,
                            },
                            phone_number: match patch.phone_number {
                                Some(phone_number) => Some(phone_number),
                                None => row.user.phone_number,
                            },
                            ..row.user
                        },
                        ..row
                    },
                ),
                next_id: self.next_id,
            }
        } else {
            self
        }
    }

    /// The table after `record` was written: the row of the record's
    /// identity takes the record's name and email and keeps its id and phone
    /// number; where there is no such row, a new one follows the others, with
    /// the next id and no phone number.
    pub open spec fn upserted(self, record: UpsertUserView) -> UserTableView {
        if self.knows(record.microsoft_id) {
            let i = self.index_of(record.microsoft_id);
            UserTableView {
                rows: self.rows.update(
                    i,
                    UserRowView {
                        user: UserView {
                            name: record.name,
                            email: record.email,
                            ..self.rows[i].user
                        },
                        microsoft_id: record.microsoft_id,
                    },
                ),
                next_id: self.next_id,
            }
        } else {
            UserTableView {
                rows: self.rows.push(
                    UserRowView {
                        user: UserView {
                            id: self.next_id,
                            name: record.name,
                            email: record.email,
                            phone_number: None,
                        },
                        microsoft_id: record.microsoft_id,
                    },
                ),
                next_id: self.next_id + 1,
            }
        }
    }

    /// The row that a write of `record` leaves for the record's identity.
    pub open spec fn upserted_user(self, record: UpsertUserView) -> UserView {
        let after = self.upserted(record);
        after.rows[after.index_of(record.microsoft_id)].user
    }
}

/// The user table, in memory: the rules that the relational store keeps,
/// without the store.
#[derive(Debug)]
pub struct UserTable {
    rows: Vec<UserRow>,
    next_id: i32,
}

impl View for UserTable {
    type V = UserTableView;

    closed spec fn view(&self) -> UserTableView {
        UserTableView {
            rows: self.rows@.map_values(|row: UserRow| row@),
            next_id: self.next_id as int,
        }
    }
}

impl UserTable {
    /// What every table upholds.
    pub open spec fn wf(&self) -> bool {
        &&& self@.wf()
        &&& 1 <= self@.next_id <= i32::MAX
    }

    /// An empty table, whose first row will get id 1.
    pub fn new() -> (table: UserTable)
        ensures
            table.wf(),
            table@ == (UserTableView { rows: Seq::empty(), next_id: 1 }),
    {
        let table = UserTable { rows: Vec::new(), next_id: 1 };
        assert(table@.rows =~= Seq::empty());
        table
    }

    /// How many rows there are.
    pub fn len(&self) -> (n: usize)
        ensures
            n == self@.rows.len(),
    {
        self.rows.len()
    }

    /// The place of the row that belongs to `microsoft_id`, if there is one.
    fn find(&self, microsoft_id: &String) -> (found: Option<usize>)
        requires
            self.wf(),
        ensures
            found is Some <==> self@.knows(microsoft_id@),
            found matches Some(i) ==> i < self@.rows.len() && i == self@.index_of(microsoft_id@),
    {
        let mut i: usize = 0;
        while i < self.rows.len()
            invariant
                i <= self.rows.len(),
                self.wf(),
                forall|k: int| 0 <= k < i ==> (#[trigger] self@.rows[k]).microsoft_id != microsoft_id@,
            decreases self.rows.len() - i,
        {
            if self.rows[i].microsoft_id == *microsoft_id {
                assert(self@.rows[i as int].microsoft_id == microsoft_id@);
                let ghost chosen = self@.index_of(microsoft_id@);
                assert(chosen == i) by {
                    if chosen < i {
                        assert(self@.rows[chosen].microsoft_id != self@.rows[i as int].microsoft_id);
                    }
                    if chosen > i {
                        assert(self@.rows[i as int].microsoft_id != self@.rows[chosen].microsoft_id);
                    }
                }
                return Some(i);
            }
            i += 1;
        }
        None
    }
}

/// All users, oldest first.
pub fn get_users(table: &UserTable) -> (users: Vec<User>)
    ensures
        users@.map_values(|user: User| user@) == table@.rows.map_values(
            |row: UserRowView| row.user,
        ),
{
    let mut users: Vec<User> = Vec::new();
    let mut i: usize = 0;
    while i < table.rows.len()
        invariant
            i <= table.rows.len(),
            users@.len() == i,
            forall|k: int| 0 <= k < i ==> (#[trigger] users@[k])@ == table@.rows[k].user,
        decreases table.rows.len() - i,
    {
        users.push(table.rows[i].user.clone());
        i += 1;
    }
    assert(users@.map_values(|user: User| user@) =~= table@.rows.map_values(
        |row: UserRowView| row.user,
    ));
    users
}

/// The oldest user whose email is `email`; [`StoreError::RowNotFound`] where
/// no user has it.
pub fn get_user_by_email(table: &UserTable, email: &str) -> (user: Result<User, StoreError>)
    ensures
        match user {
            Ok(user) => exists|i: int|
                {
                    &&& 0 <= i < table@.rows.len()
                    &&& (#[trigger] table@.rows[i]).user == user@
                    &&& user@.email == email@
                    &&& forall|k: int| 0 <= k < i ==> (#[trigger] table@.rows[k]).user.email != email@
                },
            Err(e) => {
                &&& e == StoreError::RowNotFound
                &&& forall|k: int|
                    0 <= k < table@.rows.len() ==> (#[trigger] table@.rows[k]).user.email != email@
            },
        },
{
    let wanted = email.to_owned();
    let mut i: usize = 0;
    while i < table.rows.len()
        invariant
            i <= table.rows.len(),
            wanted@ == email@,
            forall|k: int| 0 <= k < i ==> (#[trigger] table@.rows[k]).user.email != email@,
        decreases table.rows.len() - i,
    {
        if table.rows[i].user.email == wanted {
            let user = table.rows[i].user.clone();
            assert(table@.rows[i as int].user == user@);
            return Ok(user);
        }
        i += 1;
    }
    Err(StoreError::RowNotFound)
}

/// Writes `user` to the table, keyed by its external identity, and returns
/// the row as it then stands. An identity that the table knows keeps its id
/// and phone number and takes the new name and email; one that it does not
/// know gets a new row. Only a new row can fail, where no id is left: then the
/// table is as it was.
pub fn upsert_user(table: &mut UserTable, user: UpsertUser) -> (written: Result<User, StoreError>)
    requires
        old(table).wf(),
    ensures
        final(table).wf(),
        match written {
            Ok(row) => {
                &&& final(table)@ == old(table)@.upserted(user@)
                &&& row@ == old(table)@.upserted_user(user@)
                &&& row@.name == user@.name
                &&& row@.email == user@.email
            },
            Err(e) => {
                &&& e == StoreError::OutOfIds
                &&& !old(table)@.knows(user@.microsoft_id)
                &&& old(table)@.next_id == i32::MAX
                &&& final(table)@ == old(table)@
            },
        },
{
    let UpsertUser { microsoft_id, name, email } = user;
    let ghost before = table@;
    let ghost record = UpsertUserView { microsoft_id: microsoft_id@, name: name@, email: email@ };
    match table.find(&microsoft_id) {
        Some(i) => {
            let id = table.rows[i].user.id;
            let phone_number = table.rows[i].user.phone_number.clone();
            let row = UserRow { user: User { id, name, email, phone_number }, microsoft_id };
            let copy = row.user.clone();
            table.rows.set(i, row);
            proof {
                assert(table@.rows =~= before.upserted(record).rows);
                lemma_upserted_wf(before, record);
                lemma_upserted_knows(before, record);
                assert(table@.index_of(record.microsoft_id) == i) by {
                    let chosen = table@.index_of(record.microsoft_id);
                    assert(table@.rows[i as int].microsoft_id == record.microsoft_id);
                    if chosen < i {
                        assert(table@.rows[chosen].microsoft_id != table@.rows[i as int].microsoft_id);
                    }
                    if chosen > i {
                        assert(table@.rows[i as int].microsoft_id != table@.rows[chosen].microsoft_id);
                    }
                }
            }
            Ok(copy)
        },
        None => {
            if table.next_id == i32::MAX {
                return Err(StoreError::OutOfIds);
            }
            let id = table.next_id;
            let row = UserRow {
                user: User { id, name, email, phone_number: None },
                microsoft_id,
            };
            let copy = row.user.clone();
            table.rows.push(row);
            table.next_id = id + 1;
            proof {
                assert(table@.rows =~= before.upserted(record).rows);
                lemma_upserted_wf(before, record);
                lemma_upserted_knows(before, record);
                let last = table@.rows.len() - 1;
                assert(table@.index_of(record.microsoft_id) == last) by {
                    let chosen = table@.index_of(record.microsoft_id);
                    assert(table@.rows[last].microsoft_id == record.microsoft_id);
                    if chosen < last {
                        assert(table@.rows[chosen].microsoft_id != table@.rows[last].microsoft_id);
                    }
                }
            }
            Ok(copy)
        },
    }
}

/// A write keeps the table well-formed.
pub proof fn lemma_upserted_wf(table: UserTableView, record: UpsertUserView)
    requires
        table.wf(),
    ensures
        table.upserted(record).wf(),
{
    let after = table.upserted(record);
    if table.knows(record.microsoft_id) {
        let at = table.index_of(record.microsoft_id);
        assert forall|i: int, j: int| 0 <= i < j < after.rows.len() implies (
        #[trigger] after.rows[i]).microsoft_id != (#[trigger] after.rows[j]).microsoft_id by {
            assert(table.rows[i].microsoft_id != table.rows[j].microsoft_id);
        }
        assert forall|i: int, j: int| 0 <= i < j < after.rows.len() implies (
        #[trigger] after.rows[i]).user.id < (#[trigger] after.rows[j]).user.id by {
            assert(table.rows[i].user.id < table.rows[j].user.id);
        }
        assert forall|i: int| 0 <= i < after.rows.len() implies (
        #[trigger] after.rows[i]).user.id < after.next_id by {
            assert(table.rows[i].user.id < table.next_id);
        }
    } else {
        let last = table.rows.len() as int;
        assert forall|i: int, j: int| 0 <= i < j < after.rows.len() implies (
        #[trigger] after.rows[i]).microsoft_id != (#[trigger] after.rows[j]).microsoft_id by {
            if j < last {
                assert(table.rows[i].microsoft_id != table.rows[j].microsoft_id);
            } else {
                assert(table.rows[i].microsoft_id != record.microsoft_id);
            }
        }
        assert forall|i: int, j: int| 0 <= i < j < after.rows.len() implies (
        #[trigger] after.rows[i]).user.id < (#[trigger] after.rows[j]).user.id by {
            if j < last {
                assert(table.rows[i].user.id < table.rows[j].user.id);
            } else {
                assert(table.rows[i].user.id < table.next_id);
            }
        }
        assert forall|i: int| 0 <= i < after.rows.len() implies (
        #[trigger] after.rows[i]).user.id < after.next_id by {
            if i < last {
                assert(table.rows[i].user.id < table.next_id);
            }
        }
    }
}

/// After a write, the table knows the identity written.
pub proof fn lemma_upserted_knows(table: UserTableView, record: UpsertUserView)
    ensures
        table.upserted(record).knows(record.microsoft_id),
{
    let after = table.upserted(record);
    if table.knows(record.microsoft_id) {
        let at = table.index_of(record.microsoft_id);
        assert(after.rows[at].microsoft_id == record.microsoft_id);
    } else {
        let last = table.rows.len() as int;
        assert(after.rows[last].microsoft_id == record.microsoft_id);
    }
}

/// Applies `user` to the row whose id it names, and returns the row as it
/// then stands: each field that the patch names is replaced, the others stay.
/// [`StoreError::RowNotFound`] where no row has that id: then the table is as
/// it was.
pub fn patch_user(table: &mut UserTable, user: PatchUser) -> (patched: Result<User, StoreError>)
    requires
        old(table).wf(),
    ensures
        final(table).wf(),
        final(table)@ == old(table)@.patched(user@),
        match patched {
            Ok(row) => {
                &&& old(table)@.has_id(user@.id)
                &&& row@ == final(table)@.rows[old(table)@.index_of_id(user@.id)].user
                &&& row@.id == user@.id
            },
            Err(e) => e == StoreError::RowNotFound && !old(table)@.has_id(user@.id),
        },
{
    let ghost patch = user@;
    let PatchUser { id, email, phone_number } = user;
    let ghost before = table@;
    let mut i: usize = 0;
    while i < table.rows.len()
        invariant
            i <= table.rows.len(),
            table.wf(),
            table@ == before,
            before == old(table)@,
            patch == user@,
            patch.id == id,
            patch.email == email.deep_view(),
            patch.phone_number == phone_number.deep_view(),
            forall|k: int| 0 <= k < i ==> (#[trigger] table@.rows[k]).user.id != id,
        decreases table.rows.len() - i,
    {
        if table.rows[i].user.id == id {
            proof {
                assert(before.rows[i as int].user.id == id);
                assert(before.has_id(id as int));
                let chosen = before.index_of_id(id as int);
                if chosen < i {
                    assert(before.rows[chosen].user.id < before.rows[i as int].user.id);
                }
                if chosen > i {
                    assert(before.rows[i as int].user.id < before.rows[chosen].user.id);
                }
                assert(chosen == i);
            }
            let old_row = &table.rows[i];
            let email = match email {
                Some(email) => email,
                None => old_row.user.email.clone(),
            };
            let phone_number = match phone_number {
                Some(phone_number) => Some(phone_number),
                None => old_row.user.phone_number.clone(),
            };
            let row = UserRow {
                user: User { id, name: old_row.user.name.clone(), email, phone_number },
                microsoft_id: old_row.microsoft_id.clone(),
            };
            let copy = row.user.clone();
            table.rows.set(i, row);
            proof {
                let after = table@;
                assert(after.rows =~= before.patched(patch).rows);
                assert forall|a: int, b: int| 0 <= a < b < after.rows.len() implies (
                #[trigger] after.rows[a]).microsoft_id != (#[trigger] after.rows[b]).microsoft_id by {
                    assert(before.rows[a].microsoft_id != before.rows[b].microsoft_id);
                }
                assert forall|a: int, b: int| 0 <= a < b < after.rows.len() implies (
                #[trigger] after.rows[a]).user.id < (#[trigger] after.rows[b]).user.id by {
                    assert(before.rows[a].user.id < before.rows[b].user.id);
                }
                assert forall|a: int| 0 <= a < after.rows.len() implies (
                #[trigger] after.rows[a]).user.id < after.next_id by {
                    assert(before.rows[a].user.id < before.next_id);
                }
            }
            return Ok(copy);
        }
        i += 1;
    }
    Err(StoreError::RowNotFound)
}

/// A well-formed table holds one row for an identity that it knows, and none
/// for one that it does not.
pub proof fn lemma_count_is_one_or_none(table: UserTableView, microsoft_id: Seq<char>)
    requires
        table.wf(),
    ensures
        table.count(microsoft_id) == if table.knows(microsoft_id) {
            1nat
        } else {
            0nat
        },
    decreases table.rows.len(),
{
    if table.rows.len() > 0 {
        let earlier = UserTableView { rows: table.rows.drop_last(), next_id: table.next_id };
        let last = table.rows.len() - 1;
        assert forall|i: int| 0 <= i < earlier.rows.len() implies #[trigger] earlier.rows[i]
            == table.rows[i] by {}
        assert(earlier.wf()) by {
            assert forall|i: int, j: int| 0 <= i < j < earlier.rows.len() implies (
            #[trigger] earlier.rows[i]).microsoft_id != (#[trigger] earlier.rows[j]).microsoft_id by {
                assert(table.rows[i].microsoft_id != table.rows[j].microsoft_id);
            }
            assert forall|i: int, j: int| 0 <= i < j < earlier.rows.len() implies (
            #[trigger] earlier.rows[i]).user.id < (#[trigger] earlier.rows[j]).user.id by {
                assert(table.rows[i].user.id < table.rows[j].user.id);
            }
            assert forall|i: int| 0 <= i < earlier.rows.len() implies (
            #[trigger] earlier.rows[i]).user.id < earlier.next_id by {
                assert(table.rows[i].user.id < table.next_id);
            }
        }
        lemma_count_is_one_or_none(earlier, microsoft_id);
        if table.rows.last().microsoft_id == microsoft_id {
            assert(table.rows[last].microsoft_id == microsoft_id);
            if earlier.knows(microsoft_id) {
                let i = earlier.index_of(microsoft_id);
                assert(table.rows[i].microsoft_id != table.rows[last].microsoft_id);
            }
        } else {
            if table.knows(microsoft_id) {
                let i = table.index_of(microsoft_id);
                assert(earlier.rows[i].microsoft_id == microsoft_id);
            }
            if earlier.knows(microsoft_id) {
                let i = earlier.index_of(microsoft_id);
                assert(table.rows[i].microsoft_id == microsoft_id);
            }
        }
    }
}

/// Writing one external identity twice, with whatever names and emails,
/// leaves one row for it: the second write adds none, the row carries the
/// name and email of the second write, and its id and phone number are what
/// the first write left.
pub proof fn law_upsert_twice_leaves_one_row(
    table: UserTableView,
    first: UpsertUserView,
    second: UpsertUserView,
)
    requires
        table.wf(),
        first.microsoft_id == second.microsoft_id,
    ensures
        ({
            let identity = first.microsoft_id;
            let once = table.upserted(first);
            let twice = once.upserted(second);
            let before = once.rows[once.index_of(identity)];
            let after = twice.rows[twice.index_of(identity)];
            &&& twice.wf()
            &&& twice.count(identity) == 1
            &&& twice.rows.len() == once.rows.len()
            &&& twice.next_id == once.next_id
            &&& twice.index_of(identity) == once.index_of(identity)
            &&& after.user.name == second.name
            &&& after.user.email == second.email
            &&& after.user.id == before.user.id
            &&& after.user.phone_number == before.user.phone_number
            &&& before.user == table.upserted_user(first)
            &&& after.user == once.upserted_user(second)
        }),
{
    let identity = first.microsoft_id;
    let once = table.upserted(first);
    let twice = once.upserted(second);
    lemma_upserted_wf(table, first);
    lemma_upserted_knows(table, first);
    lemma_upserted_wf(once, second);
    lemma_upserted_knows(once, second);
    lemma_count_is_one_or_none(twice, identity);
    let at = once.index_of(identity);
    assert(twice.rows[at].microsoft_id == identity);
    let chosen = twice.index_of(identity);
    if chosen < at {
        assert(twice.rows[chosen].microsoft_id != twice.rows[at].microsoft_id);
    }
    if chosen > at {
        assert(twice.rows[at].microsoft_id != twice.rows[chosen].microsoft_id);
    }
}

/// A write changes no row but the one of the identity written.
pub proof fn law_upsert_leaves_other_rows(table: UserTableView, record: UpsertUserView, i: int)
    requires
        table.wf(),
        0 <= i < table.rows.len(),
        table.rows[i].microsoft_id != record.microsoft_id,
    ensures
        table.upserted(record).rows[i] == table.rows[i],
{
}

} // verus!
