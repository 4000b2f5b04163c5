use crate::domain::entity::todo::Todo;
use crate::domain::error::DomainError;
use crate::domain::repository::table::{
    holds, inserted, lemma_delete_absent, lemma_delete_existing, lemma_lookup_absent,
    lemma_lookup_first, listing, stored_title, updated, Row,
};
use crate::domain::repository::todo_repository::TodoRepository;
use vstd::prelude::*;
use vstd::string::StringExecFns;

verus! {

/// The rows that a list of todos stands for.
spec fn rows_of(todos: Seq<Todo>) -> Seq<Row> {
    todos.map_values(|todo: Todo| Row { id: todo.id, title: stored_title(todo@.title) })
}

/// A repository that keeps its table in memory.
///
/// Ids are assigned as an auto-increment column assigns them: 1 first, then
/// one more than the last id ever assigned, so that the id of a removed row
/// is never given out again.
#[derive(Debug)]
pub struct InMemoryTodoRepository {
    todos: Vec<Todo>,
    last_id: i64,
}

impl InMemoryTodoRepository {
    #[verifier::type_invariant]
    spec fn valid(self) -> bool {
        &&& 0 <= self.last_id
        &&& forall|i: int|
            0 <= i < self.todos.len() ==> {
                &&& (#[trigger] self.todos[i]).title is Some
                &&& 0 < self.todos[i].id <= self.last_id
            }
        &&& forall|i: int, j: int|
            0 <= i < j < self.todos.len() ==> self.todos[i].id < self.todos[j].id
    }

    /// The id that the next row gets; past the last `i64`, none is left.
    pub closed spec fn next_id(&self) -> int {
        self.last_id + 1
    }

    /// Whether the next id is at least 1 and greater than every id of the
    /// table. This holds of every repository; each call says so.
    pub open spec fn next_id_is_fresh(&self) -> bool {
        &&& self.next_id() >= 1
        &&& forall|i: int|
            0 <= i < self.rows().len() ==> (#[trigger] self.rows()[i]).id < self.next_id()
    }

    /// An empty table whose first row will get the id 1.
    pub fn new() -> (repository: Self)
        ensures
            repository.rows() == Seq::<Row>::empty(),
            repository.next_id() == 1,
            repository.next_id_is_fresh(),
    {
        let repository = InMemoryTodoRepository { todos: Vec::new(), last_id: 0 };
        assert(repository.rows() =~= Seq::<Row>::empty());
        repository
    }
}

impl Clone for InMemoryTodoRepository {
    /// A repository of its own with the same table and the same next id;
    /// what is done to the one is not done to the other.
    fn clone(&self) -> (copy: Self)
        ensures
            copy.rows() == self.rows(),
            copy.next_id() == self.next_id(),
            self.next_id_is_fresh(),
    {
        proof {
            use_type_invariant(self);
        }
        let todos = copied(&self.todos);
        InMemoryTodoRepository { todos, last_id: self.last_id }
    }
}

/// A copy of the list, todo by todo.
fn copied(todos: &Vec<Todo>) -> (copy: Vec<Todo>)
    ensures
        copy@ == todos@,
{
    let mut copy: Vec<Todo> = Vec::new();
    let mut i: usize = 0;
    while i < todos.len()
        invariant
            i <= todos.len(),
            copy.len() == i,
            forall|k: int| 0 <= k < i ==> copy[k] == todos[k],
        decreases todos.len() - i,
    {
        copy.push(todos[i].clone());
        i = i + 1;
    }
    assert(copy@ =~= todos@);
    copy
}

/// The title that is stored for a todo: a copy of its own, or the empty
/// string where it has none.
fn title_to_store(todo: &Todo) -> (title: String)
    ensures
        title@ == stored_title(todo@.title),
{
    match &todo.title {
        Some(title) => title.clone(),
        None => String::new(),
    }
}

impl TodoRepository for InMemoryTodoRepository {
    closed spec fn rows(&self) -> Seq<Row> {
        rows_of(self.todos@)
    }

    /// Succeeds unless no id is left; the new row gets the id `next_id()`.
    fn create(&mut self, todo: &Todo) -> (result: Result<i64, DomainError>)
        ensures
            old(self).next_id() <= i64::MAX ==> {
                &&& result == Ok::<i64, DomainError>(old(self).next_id() as i64)
                &&& final(self).rows() == inserted(
                    old(self).rows(),
                    old(self).next_id() as i64,
                    stored_title(todo@.title),
                )
                &&& final(self).next_id() == old(self).next_id() + 1
            },
            old(self).next_id() > i64::MAX ==> {
                &&& result matches Err(DomainError::Infrastructure(message))
                &&& message@ == "no id is left to assign"@
                &&& *final(self) == *old(self)
            },
            old(self).next_id_is_fresh(),
            final(self).next_id_is_fresh(),
    {
        proof {
            use_type_invariant(&*self);
        }
        if self.last_id == i64::MAX {
            return Err(DomainError::Infrastructure(String::from_str("no id is left to assign")));
        }
        let id: i64 = self.last_id + 1;
        let mut grown = copied(&self.todos);
        grown.push(Todo { id, title: Some(title_to_store(todo)) });
        proof {
            assert(rows_of(grown@) =~= inserted(
                rows_of(self.todos@),
                id,
                stored_title(todo@.title),
            ));
        }
        self.last_id = id;
        self.todos = grown;
        Ok(id)
    }

    /// Always succeeds.
    fn find_all(&self) -> (result: Result<Vec<Todo>, DomainError>)
        ensures
            result is Ok,
            self.next_id_is_fresh(),
    {
        proof {
            use_type_invariant(self);
        }
        let found = copied(&self.todos);
        assert(found.deep_view() =~= listing(self.rows()));
        Ok(found)
    }

    /// Always succeeds; an id that no row has yields `None`.
    fn find_by_id(&self, id: i64) -> (result: Result<Option<Todo>, DomainError>)
        ensures
            result is Ok,
            !holds(self.rows(), id) ==> result == Ok::<Option<Todo>, DomainError>(None),
            self.next_id_is_fresh(),
    {
        proof {
            use_type_invariant(self);
        }
        let mut i: usize = 0;
        while i < self.todos.len()
            invariant
                i <= self.todos.len(),
                forall|k: int| 0 <= k < i ==> (#[trigger] self.todos[k]).id != id,
            decreases self.todos.len() - i,
        {
            if self.todos[i].id == id {
                let found = self.todos[i].clone();
                proof {
                    use_type_invariant(self);
                    let rows = self.rows();
                    assert forall|j: int| 0 <= j < i implies (#[trigger] rows[j]).id != id by {
                        assert(self.todos[j].id != id);
                    }
                    lemma_lookup_first(rows, id, i as int);
                    assert(rows[i as int].id == id);
                }
                return Ok(Some(found));
            }
            i = i + 1;
        }
        proof {
            let rows = self.rows();
            assert(!holds(rows, id)) by {
                assert forall|j: int| 0 <= j < rows.len() implies (#[trigger] rows[j]).id
                    != id by {
                    assert(self.todos[j].id != id);
                }
            }
            lemma_lookup_absent(rows, id);
        }
        Ok(None)
    }

    /// Always succeeds and keeps the number of rows; no id is assigned.
    fn update(&mut self, todo: &Todo) -> (result: Result<(), DomainError>)
        ensures
            result is Ok,
            final(self).rows().len() == old(self).rows().len(),
            final(self).next_id() == old(self).next_id(),
            old(self).next_id_is_fresh(),
            final(self).next_id_is_fresh(),
    {
        proof {
            use_type_invariant(&*self);
        }
        let mut changed: Vec<Todo> = Vec::new();
        let mut i: usize = 0;
        while i < self.todos.len()
            invariant
                i <= self.todos.len(),
                changed.len() == i,
                forall|k: int|
                    0 <= k < i ==> {
                        &&& (#[trigger] changed[k]).id == self.todos[k].id
                        &&& changed[k].title is Some
                        &&& stored_title(changed[k]@.title) == if self.todos[k].id == todo.id {
                            stored_title(todo@.title)
                        } else {
                            stored_title(self.todos[k]@.title)
                        }
                    },
            decreases self.todos.len() - i,
        {
            if self.todos[i].id == todo.id {
                changed.push(Todo { id: todo.id, title: Some(title_to_store(todo)) });
            } else {
                let kept = self.todos[i].clone();
                proof {
                    use_type_invariant(&*self);
                }
                changed.push(kept);
            }
            i = i + 1;
        }
        proof {
            assert(rows_of(changed@) =~= updated(
                rows_of(self.todos@),
                todo.id,
                stored_title(todo@.title),
            ));
        }
        self.todos = changed;
        Ok(())
    }

    /// Always succeeds. Where a row has the id, the table has one row less
    /// afterwards; where none has, the table is as it was. The id of a
    /// removed row is not given out again.
    fn delete(&mut self, todo_id: i64) -> (result: Result<(), DomainError>)
        ensures
            result is Ok,
            holds(old(self).rows(), todo_id) ==> final(self).rows().len() == old(self).rows().len()
                - 1,
            !holds(old(self).rows(), todo_id) ==> final(self).rows() == old(self).rows(),
            final(self).next_id() == old(self).next_id(),
            old(self).next_id_is_fresh(),
            final(self).next_id_is_fresh(),
    {
        proof {
            use_type_invariant(&*self);
            if holds(self.rows(), todo_id) {
                lemma_delete_existing(self.rows(), todo_id);
            } else {
                lemma_delete_absent(self.rows(), todo_id);
            }
        }
        let ghost pred = |row: Row| row.id != todo_id;
        let mut kept: Vec<Todo> = Vec::new();
        let mut i: usize = 0;
        proof {
            assert(self.todos@.take(0) =~= Seq::<Todo>::empty());
            assert(rows_of(Seq::<Todo>::empty()) =~= Seq::<Row>::empty());
            assert(rows_of(kept@) =~= rows_of(self.todos@.take(0)).filter(pred));
        }
        while i < self.todos.len()
            invariant
                i <= self.todos.len(),
                pred == |row: Row| row.id != todo_id,
                0 <= self.last_id,
                forall|k: int|
                    0 <= k < self.todos.len() ==> {
                        &&& (#[trigger] self.todos[k]).title is Some
                        &&& 0 < self.todos[k].id <= self.last_id
                    },
                forall|a: int, b: int|
                    0 <= a < b < self.todos.len() ==> self.todos[a].id < self.todos[b].id,
                forall|k: int|
                    0 <= k < kept.len() ==> {
                        &&& (#[trigger] kept[k]).title is Some
                        &&& 0 < kept[k].id <= self.last_id
                    },
                forall|a: int, b: int| 0 <= a < b < kept.len() ==> kept[a].id < kept[b].id,
                forall|k: int, j: int|
                    0 <= k < kept.len() && i <= j < self.todos.len() ==> (#[trigger] kept[k]).id
                        < (#[trigger] self.todos[j]).id,
                rows_of(kept@) == rows_of(self.todos@.take(i as int)).filter(pred),
            decreases self.todos.len() - i,
        {
            let ghost front = self.todos@.take(i as int);
            let ghost row = Row {
                id: self.todos[i as int].id,
                title: stored_title(self.todos[i as int]@.title),
            };
            proof {
                assert(self.todos@.take(i + 1) =~= front.push(self.todos[i as int]));
                assert(rows_of(front.push(self.todos[i as int])) =~= rows_of(front).push(row));
                rows_of(front).lemma_filter_push(row, pred);
            }
            if self.todos[i].id != todo_id {
                let ghost before = kept@;
                let todo = self.todos[i].clone();
                kept.push(todo);
                proof {
                    assert(rows_of(before.push(todo)) =~= rows_of(before).push(row));
                }
            }
            i = i + 1;
        }
        proof {
            assert(self.todos@.take(self.todos.len() as int) =~= self.todos@);
        }
        self.todos = kept;
        Ok(())
    }
}

} // verus!
