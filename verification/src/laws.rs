use vstd::prelude::*;

use crate::store::{
    lemma_lookup_at_first_match, lemma_lookup_no_match, lemma_remove_id_at_first_match,
    lemma_remove_id_no_match, lookup, remove_id,
};
use crate::user::User;

verus! {

/// Round trip: a user appended under an id no existing row carries —
/// as every create appends its row under a fresh id — is found again
/// by a point query on that id, with the same id, name and email.
pub proof fn lemma_create_round_trip(rows: Seq<User>, u: User)
    requires
        forall|j: int| 0 <= j < rows.len() ==> #[trigger] rows[j].id != u.id,
    ensures
        lookup(rows.push(u), u.id as int) == Some(u),
{
    lemma_lookup_at_first_match(rows.push(u), u.id as int, rows.len() as int);
}

/// Idempotent absence: a point query on an id that no row carries — as
/// for an id never created — reports absence; and since the query is a
/// function of the rows and the id alone and leaves the table
/// untouched, repeating it gives the same answer.
pub proof fn lemma_absent_id(rows: Seq<User>, id: int)
    requires
        forall|j: int| 0 <= j < rows.len() ==> #[trigger] rows[j].id != id,
    ensures
        lookup(rows, id) is None,
{
    lemma_lookup_no_match(rows, id);
}

/// Delete removes exactly one: after a create under a fresh id, a
/// delete by that id matches a row — so it reports one row affected —
/// and leaves exactly the prior rows; a point query then reports
/// absence, and a second delete matches nothing and changes nothing.
pub proof fn lemma_delete_exactly_one(rows: Seq<User>, u: User)
    requires
        forall|j: int| 0 <= j < rows.len() ==> #[trigger] rows[j].id != u.id,
    ensures
        lookup(rows.push(u), u.id as int) is Some,
        remove_id(rows.push(u), u.id as int) == rows,
        lookup(remove_id(rows.push(u), u.id as int), u.id as int) is None,
        remove_id(remove_id(rows.push(u), u.id as int), u.id as int) == rows,
{
    let whole = rows.push(u);
    lemma_lookup_at_first_match(whole, u.id as int, rows.len() as int);
    lemma_remove_id_at_first_match(whole, u.id as int, rows.len() as int);
    assert(whole.remove(rows.len() as int) =~= rows);
    lemma_lookup_no_match(rows, u.id as int);
    lemma_remove_id_no_match(rows, u.id as int);
}

/// The rows reached from `rows` by creating each user of `created` in
/// turn, each create appending its row, as `create_user` ensures.
pub open spec fn rows_after_creates(rows: Seq<User>, created: Seq<User>) -> Seq<User>
    decreases created.len(),
{
    if created.len() == 0 {
        rows
    } else {
        rows_after_creates(rows.push(created[0]), created.drop_first())
    }
}

/// Creating in turn appends exactly the created rows after the
/// existing ones.
proof fn lemma_rows_after_creates(rows: Seq<User>, created: Seq<User>)
    ensures
        rows_after_creates(rows, created) == rows + created,
    decreases created.len(),
{
    if created.len() == 0 {
        assert(rows + created =~= rows);
    } else {
        lemma_rows_after_creates(rows.push(created[0]), created.drop_first());
        assert(rows.push(created[0]) + created.drop_first() =~= rows + created);
    }
}

/// List reflects creates: creating N users starting from an empty
/// table leaves a listing of length N that contains every created
/// entity.
pub proof fn lemma_list_reflects_creates(created: Seq<User>)
    ensures
        rows_after_creates(Seq::<User>::empty(), created).len() == created.len(),
        forall|j: int|
            0 <= j < created.len() ==> rows_after_creates(Seq::<User>::empty(), created).contains(
                #[trigger] created[j],
            ),
{
    lemma_rows_after_creates(Seq::<User>::empty(), created);
    let rows = rows_after_creates(Seq::<User>::empty(), created);
    assert(rows =~= created);
    assert forall|j: int| 0 <= j < created.len() implies rows.contains(#[trigger] created[j]) by {
        assert(rows[j] == created[j]);
    }
}

} // verus!
