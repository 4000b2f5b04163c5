use crate::domain::entity::todo::TodoView;
use vstd::prelude::*;

verus! {

/// One row of the table `todos(id INTEGER PRIMARY KEY AUTOINCREMENT, title
/// TEXT NOT NULL)`.
pub struct Row {
    pub id: i64,
    pub title: Seq<char>,
}

impl Row {
    /// The entity that a read hands out for this row.
    pub open spec fn todo(self) -> TodoView {
        TodoView { id: self.id, title: Some(self.title) }
    }
}

/// A table is a sequence of rows in strictly ascending order of id, each
/// id at least 1; so no id occurs twice, and none is 0, which stands for
/// "not yet persisted".
pub open spec fn is_table(rows: Seq<Row>) -> bool {
    &&& forall|i: int| 0 <= i < rows.len() ==> (#[trigger] rows[i]).id >= 1
    &&& forall|i: int, j: int| 0 <= i < j < rows.len() ==> rows[i].id < rows[j].id
}

/// Whether some row has this id.
pub open spec fn holds(rows: Seq<Row>, id: i64) -> bool {
    exists|i: int| 0 <= i < rows.len() && #[trigger] rows[i].id == id
}

/// The title that is stored for an entity: its own, or the empty string
/// where it has none.
pub open spec fn stored_title(title: Option<Seq<char>>) -> Seq<char> {
    match title {
        Some(text) => text,
        None => Seq::empty(),
    }
}

/// `SELECT id, title FROM todos ORDER BY id`: every row, as an entity.
pub open spec fn listing(rows: Seq<Row>) -> Seq<TodoView> {
    rows.map_values(|row: Row| row.todo())
}

/// `SELECT id, title FROM todos WHERE id = ?`, first row if any.
pub open spec fn lookup(rows: Seq<Row>, id: i64) -> Option<TodoView> {
    let found = rows.filter(|row: Row| row.id == id);
    if found.len() == 0 {
        None
    } else {
        Some(found[0].todo())
    }
}

/// `INSERT INTO todos (title) VALUES (?)`, where the store assigned `id`.
pub open spec fn inserted(rows: Seq<Row>, id: i64, title: Seq<char>) -> Seq<Row> {
    rows.push(Row { id, title })
}

/// `UPDATE todos SET title = ? WHERE id = ?`.
pub open spec fn updated(rows: Seq<Row>, id: i64, title: Seq<char>) -> Seq<Row> {
    rows.map_values(
        |row: Row|
            if row.id == id {
                Row { id, title }
            } else {
                row
            },
    )
}

/// `DELETE FROM todos WHERE id = ?`.
pub open spec fn deleted(rows: Seq<Row>, id: i64) -> Seq<Row> {
    rows.filter(|row: Row| row.id != id)
}

/// Whether `after` is `before` with one row more, at the end, that holds
/// `title` under an id that is at least 1 and greater than every id of
/// `before`.
pub open spec fn is_insertion(before: Seq<Row>, after: Seq<Row>, title: Seq<char>) -> bool {
    &&& after.len() == before.len() + 1
    &&& after == inserted(before, after.last().id, title)
    &&& after.last().id >= 1
    &&& forall|i: int| 0 <= i < before.len() ==> (#[trigger] before[i]).id < after.last().id
}

/// A search finds the first row with the id, whatever follows it.
pub proof fn lemma_lookup_first(rows: Seq<Row>, id: i64, k: int)
    requires
        0 <= k < rows.len(),
        rows[k].id == id,
        forall|j: int| 0 <= j < k ==> (#[trigger] rows[j]).id != id,
    ensures
        lookup(rows, id) == Some(rows[k].todo()),
    decreases rows.len(),
{
    let pred = |row: Row| row.id == id;
    let front = rows.drop_last();
    reveal(Seq::filter);
    if k == rows.len() - 1 {
        front.lemma_all_neg_filter_empty(pred);
        assert(rows.filter(pred) =~= seq![rows[k]]);
    } else {
        assert(front[k] == rows[k]);
        assert forall|j: int| 0 <= j < k implies (#[trigger] front[j]).id != id by {
            assert(front[j] == rows[j]);
        }
        lemma_lookup_first(front, id, k);
        assert(front.filter(pred)[0] == rows[k]);
        assert(rows.filter(pred)[0] == rows[k]);
    }
}

/// In a table a search finds the row with the id, wherever it stands: no
/// other row has that id.
pub proof fn lemma_lookup_in_table(rows: Seq<Row>, k: int)
    requires
        is_table(rows),
        0 <= k < rows.len(),
    ensures
        lookup(rows, rows[k].id) == Some(rows[k].todo()),
        forall|j: int| 0 <= j < rows.len() && j != k ==> (#[trigger] rows[j]).id != rows[k].id,
{
    assert forall|j: int| 0 <= j < rows.len() && j != k implies (#[trigger] rows[j]).id
        != rows[k].id by {
        if j < k {
            assert(rows[j].id < rows[k].id);
        } else {
            assert(rows[k].id < rows[j].id);
        }
    }
    lemma_lookup_first(rows, rows[k].id, k);
}

/// A search for an id that no row has finds nothing.
pub proof fn lemma_lookup_absent(rows: Seq<Row>, id: i64)
    requires
        !holds(rows, id),
    ensures
        lookup(rows, id) is None,
{
    let pred = |row: Row| row.id == id;
    assert forall|i: int| 0 <= i < rows.len() implies !pred(#[trigger] rows[i]) by {
        assert(rows[i].id != id);
    }
    rows.lemma_all_neg_filter_empty(pred);
}

/// Creating, then listing: the listing holds every earlier row in its
/// place and exactly one more, at the end, with the title that was given
/// and the id that the creation hands back, which is at least 1 and which
/// no earlier row had; a search for that id finds the new row. The table
/// stays a table.
pub proof fn lemma_insert_then_list(before: Seq<Row>, after: Seq<Row>, title: Seq<char>)
    requires
        is_insertion(before, after, title),
    ensures
        listing(after).len() == listing(before).len() + 1,
        listing(after).drop_last() == listing(before),
        listing(after).last() == (TodoView { id: after.last().id, title: Some(title) }),
        after.last().id >= 1,
        !holds(before, after.last().id),
        lookup(after, after.last().id) == Some(
            TodoView { id: after.last().id, title: Some(title) },
        ),
        is_table(before) ==> is_table(after),
{
    let id = after.last().id;
    assert(listing(after).drop_last() =~= listing(before));
    assert forall|j: int| 0 <= j < before.len() implies (#[trigger] after[j]).id != id by {
        assert(after[j] == before[j]);
    }
    lemma_lookup_first(after, id, after.len() - 1);
}

/// Updating a row that exists, then searching for it: the search yields
/// the new title, and the table has as many rows as before. The table
/// stays a table.
pub proof fn lemma_update_then_find(rows: Seq<Row>, id: i64, title: Seq<char>)
    requires
        holds(rows, id),
    ensures
        lookup(updated(rows, id, title), id) == Some(TodoView { id, title: Some(title) }),
        updated(rows, id, title).len() == rows.len(),
        forall|i: int|
            0 <= i < rows.len() && rows[i].id != id ==> #[trigger] updated(rows, id, title)[i]
                == rows[i],
        is_table(rows) ==> is_table(updated(rows, id, title)),
{
    let after = updated(rows, id, title);
    let k = first_with(rows, id, rows.len() as int);
    lemma_first_with(rows, id, rows.len() as int);
    assert forall|j: int| 0 <= j < k implies (#[trigger] after[j]).id != id by {
        assert(rows[j].id != id);
    }
    lemma_lookup_first(after, id, k);
    assert forall|i: int, j: int| 0 <= i < j < after.len() && is_table(rows) implies after[i].id
        < after[j].id by {
        assert(after[i].id == rows[i].id);
        assert(after[j].id == rows[j].id);
    }
}

/// Updating where no row has the id changes nothing.
pub proof fn lemma_update_absent(rows: Seq<Row>, id: i64, title: Seq<char>)
    requires
        !holds(rows, id),
    ensures
        updated(rows, id, title) == rows,
{
    assert forall|i: int| 0 <= i < rows.len() implies #[trigger] updated(rows, id, title)[i]
        == rows[i] by {
        assert(rows[i].id != id);
    }
    assert(updated(rows, id, title) =~= rows);
}

/// Deleting a row that exists: exactly that row leaves, so the table has
/// one row less, every other row stays in its place in the order, and a
/// search for the id then finds nothing. The table stays a table.
pub proof fn lemma_delete_existing(rows: Seq<Row>, id: i64) -> (k: int)
    requires
        is_table(rows),
        holds(rows, id),
    ensures
        0 <= k < rows.len(),
        rows[k].id == id,
        deleted(rows, id) == rows.remove(k),
        deleted(rows, id).len() == rows.len() - 1,
        !holds(deleted(rows, id), id),
        lookup(deleted(rows, id), id) is None,
        listing(deleted(rows, id)) == listing(rows).remove(k),
        is_table(deleted(rows, id)),
{
    let k = first_with(rows, id, rows.len() as int);
    lemma_first_with(rows, id, rows.len() as int);
    assert forall|j: int| 0 <= j < rows.len() && j != k implies (#[trigger] rows[j]).id != id by {
        if j < k {
            assert(rows[j].id < rows[k].id);
        } else {
            assert(rows[k].id < rows[j].id);
        }
    }
    lemma_delete_at(rows, id, k);
    let after = rows.remove(k);
    assert forall|j: int| 0 <= j < after.len() implies (#[trigger] after[j]).id != id by {
        if j < k {
            assert(after[j] == rows[j]);
        } else {
            assert(after[j] == rows[j + 1]);
        }
    }
    lemma_lookup_absent(after, id);
    assert(listing(after) =~= listing(rows).remove(k));
    assert forall|i: int, j: int| 0 <= i < j < after.len() implies after[i].id < after[j].id by {
        let a = if i < k { i } else { i + 1 };
        let b = if j < k { j } else { j + 1 };
        assert(after[i] == rows[a]);
        assert(after[j] == rows[b]);
    }
    k
}

/// Deleting where no row has the id changes nothing: neither the rows nor
/// their number.
pub proof fn lemma_delete_absent(rows: Seq<Row>, id: i64)
    requires
        !holds(rows, id),
    ensures
        deleted(rows, id) == rows,
    decreases rows.len(),
{
    let pred = |row: Row| row.id != id;
    reveal(Seq::filter);
    if rows.len() > 0 {
        let front = rows.drop_last();
        assert(!holds(front, id)) by {
            assert forall|j: int| 0 <= j < front.len() implies (#[trigger] front[j]).id != id by {
                assert(front[j] == rows[j]);
                assert(rows[j].id != id);
            }
        }
        lemma_delete_absent(front, id);
        assert(rows.last().id != id);
        assert(front.push(rows.last()) =~= rows);
    } else {
        assert(deleted(rows, id) =~= rows);
    }
}

/// Deleting twice is deleting once.
pub proof fn lemma_delete_twice(rows: Seq<Row>, id: i64)
    ensures
        deleted(deleted(rows, id), id) == deleted(rows, id),
{
    let once = deleted(rows, id);
    let pred = |row: Row| row.id != id;
    assert(!holds(once, id)) by {
        assert forall|j: int| 0 <= j < once.len() implies (#[trigger] once[j]).id != id by {
            rows.lemma_filter_pred(pred, j);
        }
    }
    lemma_delete_absent(once, id);
}

/// Nothing can be listed from, found in or deleted from an empty table.
pub proof fn lemma_empty_table(id: i64)
    ensures
        is_table(Seq::<Row>::empty()),
        listing(Seq::<Row>::empty()) == Seq::<TodoView>::empty(),
        lookup(Seq::<Row>::empty(), id) is None,
        deleted(Seq::<Row>::empty(), id) == Seq::<Row>::empty(),
{
    let empty = Seq::<Row>::empty();
    assert(listing(empty) =~= Seq::<TodoView>::empty());
    lemma_lookup_absent(empty, id);
    lemma_delete_absent(empty, id);
}

/// The first index below `end` whose row has the id, or `end`.
spec fn first_with(rows: Seq<Row>, id: i64, end: int) -> int
    decreases end,
{
    if end <= 0 {
        0
    } else {
        let before = first_with(rows, id, end - 1);
        if before < end - 1 {
            before
        } else if rows[end - 1].id == id {
            end - 1
        } else {
            end
        }
    }
}

proof fn lemma_first_with(rows: Seq<Row>, id: i64, end: int)
    requires
        0 <= end <= rows.len(),
    ensures
        0 <= first_with(rows, id, end) <= end,
        forall|j: int| 0 <= j < first_with(rows, id, end) ==> (#[trigger] rows[j]).id != id,
        first_with(rows, id, end) < end ==> rows[first_with(rows, id, end)].id == id,
        (exists|i: int| 0 <= i < end && #[trigger] rows[i].id == id) ==> first_with(rows, id, end)
            < end,
    decreases end,
{
    if end > 0 {
        lemma_first_with(rows, id, end - 1);
    }
}

/// Where exactly the row at `k` has the id, deleting the id removes the row
/// at `k`.
proof fn lemma_delete_at(rows: Seq<Row>, id: i64, k: int)
    requires
        0 <= k < rows.len(),
        rows[k].id == id,
        forall|j: int| 0 <= j < rows.len() && j != k ==> (#[trigger] rows[j]).id != id,
    ensures
        deleted(rows, id) == rows.remove(k),
    decreases rows.len(),
{
    let pred = |row: Row| row.id != id;
    let front = rows.drop_last();
    reveal(Seq::filter);
    if k == rows.len() - 1 {
        assert(!holds(front, id)) by {
            assert forall|j: int| 0 <= j < front.len() implies (#[trigger] front[j]).id != id by {
                assert(front[j] == rows[j]);
            }
        }
        lemma_delete_absent(front, id);
        assert(rows.remove(k) =~= front);
    } else {
        assert(front[k] == rows[k]);
        assert forall|j: int| 0 <= j < front.len() && j != k implies (#[trigger] front[j]).id
            != id by {
            assert(front[j] == rows[j]);
        }
        lemma_delete_at(front, id, k);
        assert(rows.last().id != id);
        assert(front.remove(k).push(rows.last()) =~= rows.remove(k));
    }
}

} // verus!
