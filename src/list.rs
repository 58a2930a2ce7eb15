use vstd::prelude::*;

use crate::filter::Filter;
use crate::todo::{Todo, TodoView};

verus! {

/// The views of a list of todos, in order.
pub open spec fn views(s: Seq<Todo>) -> Seq<TodoView> {
    s.map_values(|t: Todo| t@)
}

/// A todo with its completion flag set to `done` when its id is `id`, else unchanged.
pub open spec fn toggle_one(t: TodoView, id: nat, done: bool) -> TodoView {
    if t.id == id {
        TodoView { id: t.id, text: t.text, done }
    } else {
        t
    }
}

/// The list after every todo with id `id` got the completion flag `done`.
pub open spec fn toggled(s: Seq<TodoView>, id: nat, done: bool) -> Seq<TodoView> {
    s.map_values(|t: TodoView| toggle_one(t, id, done))
}

/// The list without the todos whose id is `id`, the others in their order.
pub open spec fn without(s: Seq<TodoView>, id: nat) -> Seq<TodoView> {
    s.filter(|t: TodoView| t.id != id)
}

/// The todos that the filter `f` lets through, in their order.
pub open spec fn visible(s: Seq<TodoView>, f: Filter) -> Seq<TodoView> {
    s.filter(|t: TodoView| f.admits(t.done))
}

/// The list with a new, not yet completed todo of text `text` at the end, whose id is the
/// length of the list before.
pub open spec fn appended(s: Seq<TodoView>, text: Seq<char>) -> Seq<TodoView> {
    s.push(TodoView { id: s.len(), text, done: false })
}

/// Filtering a sequence with one more element at its end.
pub proof fn lemma_filter_push(s: Seq<TodoView>, x: TodoView, pred: spec_fn(TodoView) -> bool)
    ensures
        s.push(x).filter(pred) == (if pred(x) {
            s.filter(pred).push(x)
        } else {
            s.filter(pred)
        }),
{
    reveal(Seq::filter);
    assert(s.push(x).drop_last() =~= s);
}

/// The views of one more element pushed onto a list.
pub proof fn lemma_views_push(s: Seq<Todo>, t: Todo)
    ensures
        views(s.push(t)) == views(s).push(t@),
{
    assert(views(s.push(t)) =~= views(s).push(t@));
}

/// The views of a prefix one longer than another.
pub proof fn lemma_views_take_succ(s: Seq<Todo>, i: int)
    requires
        0 <= i < s.len(),
    ensures
        views(s).take(i + 1) == views(s).take(i).push(s[i]@),
{
    assert(views(s).take(i + 1) =~= views(s).take(i).push(s[i]@));
}

/// The list with each todo of id `id` set to completion flag `done`.
pub fn toggle_in(todos: &Vec<Todo>, id: usize, done: bool) -> (r: Vec<Todo>)
    ensures
        views(r@) == toggled(views(todos@), id as nat, done),
{
    let mut next: Vec<Todo> = Vec::new();
    let mut i: usize = 0;
    while i < todos.len()
        invariant
            i <= todos@.len(),
            next@.len() == i,
            forall|j: int| 0 <= j < i ==> #[trigger] next@[j]@ == toggle_one(todos@[j]@, id as nat, done),
        decreases todos@.len() - i,
    {
        let t = &todos[i];
        if t.id == id {
            next.push(Todo { id, text: t.text.clone(), done });
        } else {
            next.push(t.clone());
        }
        i = i + 1;
    }
    assert(views(next@) =~= toggled(views(todos@), id as nat, done));
    next
}

/// The list without the todos of id `id`.
pub fn remove_from(todos: &Vec<Todo>, id: usize) -> (r: Vec<Todo>)
    ensures
        views(r@) == without(views(todos@), id as nat),
{
    let ghost pred = |t: TodoView| t.id != id as nat;
    let mut next: Vec<Todo> = Vec::new();
    let mut i: usize = 0;
    while i < todos.len()
        invariant
            i <= todos@.len(),
            pred == (|t: TodoView| t.id != id as nat),
            views(next@) == views(todos@).take(i as int).filter(pred),
        decreases todos@.len() - i,
    {
        let t = &todos[i];
        proof {
            lemma_views_take_succ(todos@, i as int);
            lemma_filter_push(views(todos@).take(i as int), t@, pred);
        }
        if t.id != id {
            let c = t.clone();
            proof {
                lemma_views_push(next@, c);
            }
            next.push(c);
        }
        i = i + 1;
    }
    assert(views(todos@).take(todos@.len() as int) =~= views(todos@));
    next
}

/// The todos that the filter `f` lets through.
pub fn visible_in(todos: &Vec<Todo>, f: Filter) -> (r: Vec<Todo>)
    ensures
        views(r@) == visible(views(todos@), f),
{
    let ghost pred = |t: TodoView| f.admits(t.done);
    let mut shown: Vec<Todo> = Vec::new();
    let mut i: usize = 0;
    while i < todos.len()
        invariant
            i <= todos@.len(),
            pred == (|t: TodoView| f.admits(t.done)),
            views(shown@) == views(todos@).take(i as int).filter(pred),
        decreases todos@.len() - i,
    {
        let t = &todos[i];
        proof {
            lemma_views_take_succ(todos@, i as int);
            lemma_filter_push(views(todos@).take(i as int), t@, pred);
        }
        if f.shows(t.done) {
            let c = t.clone();
            proof {
                lemma_views_push(shown@, c);
            }
            shown.push(c);
        }
        i = i + 1;
    }
    assert(views(todos@).take(todos@.len() as int) =~= views(todos@));
    shown
}

} // verus!
