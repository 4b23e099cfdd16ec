//! The todo list: items with an id, a text and a done mark, kept in the
//! order in which they were created.
//!
//! Ids are the callers'. No two items of a list have one id: an item comes
//! in through [`Storage::create`] only, which refuses an id that is taken.

use crate::ingress::AuthError;
use crate::status::{CONFLICT, NOT_FOUND, UNAUTHORIZED};
use crate::text::{decimal, decimal_text, lowercase, lowercase_of};
use vstd::prelude::*;
use vstd::string::StringExecFns;

verus! {

/// Item to do.
#[derive(Debug, PartialEq, Eq)]
pub struct Todo {
    pub id: i32,
    pub value: String,
    pub done: bool,
}

/// What an item is in contracts.
pub struct TodoView {
    pub id: int,
    pub value: Seq<char>,
    pub done: bool,
}

impl View for Todo {
    type V = TodoView;

    open spec fn view(&self) -> TodoView {
        TodoView { id: self.id as int, value: self.value@, done: self.done }
    }
}

impl DeepView for Todo {
    type V = TodoView;

    open spec fn deep_view(&self) -> TodoView {
        self@
    }
}

impl Clone for Todo {
    fn clone(&self) -> (copy: Self)
        ensures
            copy == *self,
    {
        Todo { id: self.id, value: self.value.clone(), done: self.done }
    }
}

/// Todo operation errors, each with the text that the caller is told.
#[derive(Debug, PartialEq, Eq)]
pub enum TodoError {
    /// Todo already exists conflict.
    Conflict(String),
    /// Todo not found by id.
    NotFound(String),
    /// Todo operation unauthorized.
    Unauthorized(String),
}

impl TodoError {
    /// The status that the error is answered with.
    pub open spec fn code(self) -> u16 {
        match self {
            TodoError::Conflict(_) => CONFLICT,
            TodoError::NotFound(_) => NOT_FOUND,
            TodoError::Unauthorized(_) => UNAUTHORIZED,
        }
    }

    /// The status that the error is answered with.
    pub fn status(&self) -> (code: u16)
        ensures
            code == self.code(),
    {
        match self {
            TodoError::Conflict(_) => CONFLICT,
            TodoError::NotFound(_) => NOT_FOUND,
            TodoError::Unauthorized(_) => UNAUTHORIZED,
        }
    }

    /// The error of a request that the credential check turned away.
    pub fn unauthorized(refusal: AuthError) -> (error: Self)
        ensures
            error matches TodoError::Unauthorized(text) && text@ == refusal.text(),
    {
        TodoError::Unauthorized(refusal.message())
    }
}

/// Whether `todos` has an item with this id.
pub open spec fn has_id(todos: Seq<TodoView>, id: int) -> bool {
    exists|i: int| 0 <= i < todos.len() && #[trigger] todos[i].id == id
}

/// Whether no two items of `todos` have one id.
pub open spec fn distinct_ids(todos: Seq<TodoView>) -> bool {
    forall|i: int, j: int| 0 <= i < j < todos.len() ==> todos[i].id != todos[j].id
}

/// The place of the first item with this id, or the length of `todos`
/// where there is none.
pub open spec fn first_with_id(todos: Seq<TodoView>, id: int) -> int
    decreases todos.len(),
{
    if todos.len() == 0 {
        0
    } else if todos[0].id == id {
        0
    } else {
        1 + first_with_id(todos.drop_first(), id)
    }
}

/// The item with its done mark set.
pub open spec fn marked(todo: TodoView) -> TodoView {
    TodoView { id: todo.id, value: todo.value, done: true }
}

/// The list after the first item with this id was marked done: the list as
/// it was where no item has the id.
pub open spec fn after_mark(todos: Seq<TodoView>, id: int) -> Seq<TodoView> {
    if has_id(todos, id) {
        todos.update(first_with_id(todos, id), marked(todos[first_with_id(todos, id)]))
    } else {
        todos
    }
}

/// The first item with an id is where an item has it and none before has.
pub proof fn lemma_first_with_id(todos: Seq<TodoView>, id: int, at: int)
    requires
        0 <= at <= todos.len(),
        forall|k: int| 0 <= k < at ==> todos[k].id != id,
        at < todos.len() ==> todos[at].id == id,
    ensures
        first_with_id(todos, id) == at,
        has_id(todos, id) <==> at < todos.len(),
    decreases todos.len(),
{
    if todos.len() > 0 && todos[0].id != id {
        let rest = todos.drop_first();
        assert forall|k: int| 0 <= k < at - 1 implies rest[k].id != id by {
            assert(rest[k] == todos[k + 1]);
        }
        lemma_first_with_id(rest, id, at - 1);
    }
    if at < todos.len() {
        assert(todos[at].id == id);
    }
}

/// Leaving items out keeps the ids distinct.
pub proof fn lemma_filter_keeps_ids_distinct(todos: Seq<TodoView>, keep: spec_fn(TodoView) -> bool)
    requires
        distinct_ids(todos),
    ensures
        distinct_ids(todos.filter(keep)),
        forall|k: int|
            0 <= k < todos.filter(keep).len() ==> has_id(
                todos,
                #[trigger] todos.filter(keep)[k].id,
            ),
    decreases todos.len(),
{
    reveal(Seq::filter);
    if todos.len() > 0 {
        let rest = todos.drop_last();
        lemma_filter_keeps_ids_distinct(rest, keep);
        let kept = rest.filter(keep);
        assert forall|k: int| 0 <= k < kept.len() implies has_id(todos, #[trigger] kept[k].id)
            && kept[k].id != todos.last().id by {
            let at = choose|at: int| 0 <= at < rest.len() && #[trigger] rest[at].id == kept[k].id;
            assert(todos[at].id == kept[k].id);
        }
        assert(todos[todos.len() - 1].id == todos.last().id);
    }
}

/// Whether an item answers a search: its text is the wanted one but for
/// case, and its done mark is the wanted one.
pub open spec fn answers(todo: TodoView, value: Seq<char>, done: bool) -> bool {
    lowercase_of(todo.value) == lowercase_of(value) && todo.done == done
}

/// The text of the conflict on this id.
pub open spec fn conflict_text(id: int) -> Seq<char> {
    "todo already exists: "@ + decimal(id)
}

/// The text of the failure to find this id.
pub open spec fn not_found_text(id: int) -> Seq<char> {
    "id = "@ + decimal(id)
}

/// Whether two texts that were put in lower case, and two done marks, are
/// the same.
pub fn same_text_and_mark(lowered: &String, done: bool, wanted: &String, wanted_done: bool) -> (same:
    bool)
    ensures
        same <==> lowered@ == wanted@ && done == wanted_done,
{
    *lowered == *wanted && done == wanted_done
}

/// In-memory todo store.
pub struct Storage {
    todo_storage: Vec<Todo>,
}

impl Storage {
    #[verifier::type_invariant]
    spec fn ids_are_distinct(self) -> bool {
        distinct_ids(self.todo_storage.deep_view())
    }
}

impl View for Storage {
    type V = Seq<TodoView>;

    closed spec fn view(&self) -> Seq<TodoView> {
        self.todo_storage.deep_view()
    }
}

impl Storage {
    /// An empty list.
    pub fn new() -> (store: Self)
        ensures
            store@ == Seq::<TodoView>::empty(),
    {
        let todo_storage: Vec<Todo> = Vec::new();
        assert(todo_storage.deep_view() =~= Seq::<TodoView>::empty());
        Storage { todo_storage }
    }

    /// All items, in the order of their creation.
    pub fn list(&self) -> (todos: Vec<Todo>)
        ensures
            todos.deep_view() == self@,
            distinct_ids(self@),
    {
        proof {
            use_type_invariant(self);
        }
        let mut todos: Vec<Todo> = Vec::new();
        let mut i: usize = 0;
        while i < self.todo_storage.len()
            invariant
                i <= self.todo_storage.len(),
                todos.len() == i,
                forall|k: int| 0 <= k < i ==> todos[k]@ == self.todo_storage[k]@,
            decreases self.todo_storage.len() - i,
        {
            todos.push(self.todo_storage[i].clone());
            i += 1;
        }
        assert(todos.deep_view() =~= self@);
        todos
    }

    /// The items whose text is `value` but for case and whose done mark is
    /// `done`, in the order of their creation.
    pub fn search(&self, value: &str, done: bool) -> (found: Vec<Todo>)
        ensures
            found.deep_view() == self@.filter(|todo: TodoView| answers(todo, value@, done)),
    {
        let ghost wanted = |todo: TodoView| answers(todo, value@, done);
        let wanted_text = lowercase(value);
        let mut found: Vec<Todo> = Vec::new();
        let mut i: usize = 0;
        proof {
            reveal(Seq::filter);
            assert(self@.take(0) =~= Seq::<TodoView>::empty());
            assert(found.deep_view() =~= self@.take(0).filter(wanted));
        }
        while i < self.todo_storage.len()
            invariant
                i <= self.todo_storage.len(),
                wanted_text@ == lowercase_of(value@),
                wanted == |todo: TodoView| answers(todo, value@, done),
                found.deep_view() == self@.take(i as int).filter(wanted),
            decreases self.todo_storage.len() - i,
        {
            let todo = &self.todo_storage[i];
            let text = lowercase(todo.value.as_str());
            let ghost before = found.deep_view();
            proof {
                reveal(Seq::filter);
                assert(self@.take(i + 1).drop_last() =~= self@.take(i as int));
                assert(self@.take(i + 1).last() == todo@);
            }
            if same_text_and_mark(&text, todo.done, &wanted_text, done) {
                found.push(todo.clone());
                assert(found.deep_view() =~= before.push(todo@));
            }
            i += 1;
        }
        assert(self@.take(i as int) =~= self@);
        found
    }

    /// Appends `todo`, unless the list has an item with its id already.
    pub fn create(&mut self, todo: Todo) -> (outcome: Result<(), TodoError>)
        ensures
            has_id(old(self)@, todo.id as int) ==> final(self)@ == old(self)@ && (
            outcome matches Err(TodoError::Conflict(text)) && text@ == conflict_text(
                todo.id as int,
            )),
            !has_id(old(self)@, todo.id as int) ==> final(self)@ == old(self)@.push(todo@)
                && outcome is Ok,
            distinct_ids(final(self)@),
    {
        proof {
            use_type_invariant(&*self);
        }
        let mut i: usize = 0;
        while i < self.todo_storage.len()
            invariant
                i <= self.todo_storage.len(),
                *self == *old(self),
                distinct_ids(self@),
                forall|k: int| 0 <= k < i ==> self@[k].id != todo.id,
            decreases self.todo_storage.len() - i,
        {
            if self.todo_storage[i].id == todo.id {
                assert(self@[i as int].id == todo.id);
                let text = "todo already exists: ".to_owned().concat(
                    decimal_text(todo.id).as_str(),
                );
                return Err(TodoError::Conflict(text));
            }
            i += 1;
        }
        proof {
            let after = old(self)@.push(todo@);
            assert forall|a: int, b: int| 0 <= a < b < after.len() implies after[a].id
                != after[b].id by {
                if b < old(self)@.len() {
                    assert(old(self)@[a].id != old(self)@[b].id);
                }
            }
        }
        let mut items: Vec<Todo> = Vec::new();
        core::mem::swap(&mut self.todo_storage, &mut items);
        items.push(todo);
        assert(items.deep_view() =~= old(self)@.push(todo@));
        self.todo_storage = items;
        Ok(())
    }

    /// Sets the done mark of the first item with this id.
    pub fn mark_done(&mut self, id: i32) -> (outcome: Result<(), TodoError>)
        ensures
            final(self)@ == after_mark(old(self)@, id as int),
            has_id(old(self)@, id as int) ==> outcome is Ok,
            !has_id(old(self)@, id as int) ==> (outcome matches Err(TodoError::NotFound(text))
                && text@ == not_found_text(id as int)),
            distinct_ids(final(self)@),
    {
        proof {
            use_type_invariant(&*self);
        }
        let mut i: usize = 0;
        while i < self.todo_storage.len()
            invariant
                i <= self.todo_storage.len(),
                *self == *old(self),
                distinct_ids(self@),
                forall|k: int| 0 <= k < i ==> self@[k].id != id,
            decreases self.todo_storage.len() - i,
        {
            if self.todo_storage[i].id == id {
                proof {
                    lemma_first_with_id(self@, id as int, i as int);
                }
                let mut items: Vec<Todo> = Vec::new();
                core::mem::swap(&mut self.todo_storage, &mut items);
                items[i].done = true;
                proof {
                    let after = old(self)@.update(i as int, marked(old(self)@[i as int]));
                    assert(items.deep_view() =~= after);
                    assert forall|a: int, b: int| 0 <= a < b < after.len() implies after[a].id
                        != after[b].id by {
                        assert(old(self)@[a].id != old(self)@[b].id);
                    }
                }
                self.todo_storage = items;
                return Ok(());
            }
            i += 1;
        }
        proof {
            lemma_first_with_id(self@, id as int, i as int);
        }
        Err(TodoError::NotFound("id = ".to_owned().concat(decimal_text(id).as_str())))
    }

    /// Removes every item with this id.
    pub fn delete(&mut self, id: i32) -> (outcome: Result<(), TodoError>)
        ensures
            final(self)@ == old(self)@.filter(|todo: TodoView| todo.id != id),
            has_id(old(self)@, id as int) ==> outcome is Ok,
            !has_id(old(self)@, id as int) ==> final(self)@ == old(self)@ && (
            outcome matches Err(TodoError::NotFound(text)) && text@ == not_found_text(id as int)),
            distinct_ids(final(self)@),
    {
        proof {
            use_type_invariant(&*self);
        }
        let ghost keep = |todo: TodoView| todo.id != id;
        let mut kept: Vec<Todo> = Vec::new();
        let mut i: usize = 0;
        proof {
            reveal(Seq::filter);
            assert(self@.take(0) =~= Seq::<TodoView>::empty());
            assert(kept.deep_view() =~= self@.take(0).filter(keep));
        }
        while i < self.todo_storage.len()
            invariant
                i <= self.todo_storage.len(),
                *self == *old(self),
                keep == |todo: TodoView| todo.id != id,
                kept.deep_view() == self@.take(i as int).filter(keep),
                kept.len() == i <==> forall|k: int| 0 <= k < i ==> self@[k].id != id,
                kept.len() == i ==> kept.deep_view() == self@.take(i as int),
                kept.len() <= i,
            decreases self.todo_storage.len() - i,
        {
            let todo = &self.todo_storage[i];
            let ghost before = kept.deep_view();
            proof {
                reveal(Seq::filter);
                assert(self@.take(i + 1).drop_last() =~= self@.take(i as int));
                assert(self@.take(i + 1).last() == todo@);
            }
            if todo.id != id {
                kept.push(todo.clone());
                assert(kept.deep_view() =~= before.push(todo@));
                assert(before == self@.take(i as int) ==> kept.deep_view() =~= self@.take(i + 1));
            } else {
                assert(self@[i as int].id == id);
            }
            i += 1;
        }
        assert(self@.take(i as int) =~= self@);
        proof {
            lemma_filter_keeps_ids_distinct(self@, keep);
        }
        let removed = kept.len() != self.todo_storage.len();
        self.todo_storage = kept;
        if removed {
            Ok(())
        } else {
            Err(TodoError::NotFound("id = ".to_owned().concat(decimal_text(id).as_str())))
        }
    }
}

} // verus!
