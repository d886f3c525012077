use vstd::prelude::*;

use crate::user::User;

verus! {

/// The first row whose id matches, if any: the row a point query on
/// the id column returns.
pub open spec fn lookup(rows: Seq<User>, id: int) -> Option<User>
    decreases rows.len(),
{
    if rows.len() == 0 {
        None
    } else if rows[0].id == id {
        Some(rows[0])
    } else {
        lookup(rows.drop_first(), id)
    }
}

/// The rows left after deleting the first row whose id matches; the
/// rows unchanged when none does.
pub open spec fn remove_id(rows: Seq<User>, id: int) -> Seq<User>
    decreases rows.len(),
{
    if rows.len() == 0 {
        Seq::empty()
    } else if rows[0].id == id {
        rows.drop_first()
    } else {
        seq![rows[0]] + remove_id(rows.drop_first(), id)
    }
}

/// When every row before index `i` misses the id and row `i` carries
/// it, the point query returns row `i`.
pub(crate) proof fn lemma_lookup_at_first_match(rows: Seq<User>, id: int, i: int)
    requires
        0 <= i < rows.len(),
        forall|j: int| 0 <= j < i ==> #[trigger] rows[j].id != id,
        rows[i].id == id,
    ensures
        lookup(rows, id) == Some(rows[i]),
    decreases i,
{
    if i > 0 {
        let rest = rows.drop_first();
        assert forall|j: int| 0 <= j < i - 1 implies #[trigger] rest[j].id != id by {
            assert(rest[j] == rows[j + 1]);
        }
        lemma_lookup_at_first_match(rest, id, i - 1);
    }
}

/// When no row carries the id, the point query reports absence.
pub(crate) proof fn lemma_lookup_no_match(rows: Seq<User>, id: int)
    requires
        forall|j: int| 0 <= j < rows.len() ==> #[trigger] rows[j].id != id,
    ensures
        lookup(rows, id) is None,
    decreases rows.len(),
{
    if rows.len() > 0 {
        let rest = rows.drop_first();
        assert forall|j: int| 0 <= j < rest.len() implies #[trigger] rest[j].id != id by {
            assert(rest[j] == rows[j + 1]);
        }
        lemma_lookup_no_match(rest, id);
    }
}

/// When every row before index `i` misses the id and row `i` carries
/// it, deleting by the id removes exactly row `i`.
pub(crate) proof fn lemma_remove_id_at_first_match(rows: Seq<User>, id: int, i: int)
    requires
        0 <= i < rows.len(),
        forall|j: int| 0 <= j < i ==> #[trigger] rows[j].id != id,
        rows[i].id == id,
    ensures
        remove_id(rows, id) == rows.remove(i),
    decreases i,
{
    if i == 0 {
        assert(rows.remove(0) =~= rows.drop_first());
    } else {
        let rest = rows.drop_first();
        assert forall|j: int| 0 <= j < i - 1 implies #[trigger] rest[j].id != id by {
            assert(rest[j] == rows[j + 1]);
        }
        lemma_remove_id_at_first_match(rest, id, i - 1);
        assert(seq![rows[0]] + rest.remove(i - 1) =~= rows.remove(i));
    }
}

/// When no row carries the id, deleting by the id changes nothing.
pub(crate) proof fn lemma_remove_id_no_match(rows: Seq<User>, id: int)
    requires
        forall|j: int| 0 <= j < rows.len() ==> #[trigger] rows[j].id != id,
    ensures
        remove_id(rows, id) == rows,
    decreases rows.len(),
{
    if rows.len() > 0 {
        let rest = rows.drop_first();
        assert forall|j: int| 0 <= j < rest.len() implies #[trigger] rest[j].id != id by {
            assert(rest[j] == rows[j + 1]);
        }
        lemma_remove_id_no_match(rest, id);
        assert(seq![rows[0]] + rest =~= rows);
    }
}

/// The users table: rows in insertion order, and the id the next
/// insert will assign, with auto-increment semantics.
pub struct UserStore {
    users: Vec<User>,
    next_id: i64,
}

impl UserStore {
    /// The rows, oldest first.
    pub closed spec fn rows(self) -> Seq<User> {
        self.users@
    }

    /// The id the next successful insert will assign.
    pub closed spec fn next_id(self) -> int {
        self.next_id as int
    }

    /// Every row's id is at least 1 and below the next id to assign,
    /// and no two rows share an id.
    pub closed spec fn wf(self) -> bool {
        &&& 1 <= self.next_id as int
        &&& forall|i: int|
            0 <= i < self.users@.len() ==> 1 <= #[trigger] self.users@[i].id < self.next_id as int
        &&& forall|i: int, j: int|
            #![trigger self.users@[i].id, self.users@[j].id]
            0 <= i < j < self.users@.len() ==> self.users@[i].id != self.users@[j].id
    }

    /// An empty table; the first created user will take id 1.
    pub fn new() -> (s: UserStore)
        ensures
            s.wf(),
            s.rows() == Seq::<User>::empty(),
            s.next_id() == 1,
    {
        UserStore { users: Vec::new(), next_id: 1 }
    }

    /// Selects all rows, in store order; an empty table yields an
    /// empty listing, not a failure.
    pub fn list_users(&self) -> (r: Vec<User>)
        ensures
            r@ == self.rows(),
    {
        let mut r: Vec<User> = Vec::new();
        let mut i: usize = 0;
        while i < self.users.len()
            invariant
                0 <= i <= self.users@.len(),
                r@ == self.users@.subrange(0, i as int),
            decreases self.users@.len() - i,
        {
            r.push(self.users[i].clone());
            proof {
                assert(r@ =~= self.users@.subrange(0, i as int + 1));
            }
            i = i + 1;
        }
        proof {
            assert(self.users@.subrange(0, self.users@.len() as int) =~= self.users@);
        }
        r
    }

    /// Selects the single row with this id; absence is a normal
    /// outcome, not a failure.
    pub fn get_user_by_id(&self, id: i64) -> (r: Option<User>)
        ensures
            r == lookup(self.rows(), id as int),
    {
        let mut i: usize = 0;
        while i < self.users.len()
            invariant
                0 <= i <= self.users@.len(),
                forall|j: int| 0 <= j < i ==> #[trigger] self.users@[j].id != id,
            decreases self.users@.len() - i,
        {
            if self.users[i].id == id {
                proof {
                    lemma_lookup_at_first_match(self.users@, id as int, i as int);
                }
                return Some(self.users[i].clone());
            }
            i = i + 1;
        }
        proof {
            lemma_lookup_no_match(self.users@, id as int);
        }
        None
    }

    /// Inserts a row, assigns it the next id, and returns the fully
    /// populated entity. The assigned id repeats no existing row's id.
    pub fn create_user(&mut self, name: String, email: String) -> (u: User)
        requires
            old(self).wf(),
            old(self).next_id() < i64::MAX,
        ensures
            final(self).wf(),
            u.id as int == old(self).next_id(),
            u.name == name,
            u.email == email,
            final(self).rows() == old(self).rows().push(u),
            final(self).next_id() == old(self).next_id() + 1,
            forall|j: int|
                0 <= j < old(self).rows().len() ==> #[trigger] old(self).rows()[j].id != u.id,
    {
        let id = self.next_id;
        let u = User { id, name, email };
        let created = u.clone();
        self.users.push(u);
        self.next_id = id + 1;
        created
    }

    /// Deletes the row with this id and returns the number of rows
    /// affected: 1 when a row matched, 0 when none did.
    pub fn delete_user(&mut self, id: i64) -> (n: u64)
        requires
            old(self).wf(),
        ensures
            final(self).wf(),
            final(self).next_id() == old(self).next_id(),
            final(self).rows() == remove_id(old(self).rows(), id as int),
            n == 1 <==> lookup(old(self).rows(), id as int) is Some,
            n == 0 <==> lookup(old(self).rows(), id as int) is None,
    {
        let ghost rows0 = self.users@;
        let mut i: usize = 0;
        while i < self.users.len()
            invariant
                self.users@ == rows0,
                rows0 == old(self).rows(),
                self.next_id == old(self).next_id,
                self.wf(),
                0 <= i <= rows0.len(),
                forall|j: int| 0 <= j < i ==> #[trigger] rows0[j].id != id,
            decreases rows0.len() - i,
        {
            if self.users[i].id == id {
                self.users.remove(i);
                proof {
                    lemma_lookup_at_first_match(rows0, id as int, i as int);
                    lemma_remove_id_at_first_match(rows0, id as int, i as int);
                    assert forall|k: int| 0 <= k < self.users@.len() implies 1 <= #[trigger] self.users@[k].id
                        < self.next_id as int by {
                        if k < i {
                            assert(self.users@[k] == rows0[k]);
                        } else {
                            assert(self.users@[k] == rows0[k + 1]);
                        }
                    }
                    assert forall|k: int, l: int|
                        #![trigger self.users@[k].id, self.users@[l].id]
                        0 <= k < l < self.users@.len() implies self.users@[k].id
                        != self.users@[l].id by {
                        let k0: int = if k < i { k } else { k + 1 };
                        let l0: int = if l < i { l } else { l + 1 };
                        assert(self.users@[k] == rows0[k0]);
                        assert(self.users@[l] == rows0[l0]);
                    }
                }
                return 1;
            }
            i = i + 1;
        }
        proof {
            lemma_lookup_no_match(rows0, id as int);
            lemma_remove_id_no_match(rows0, id as int);
        }
        0
    }
}

} // verus!
