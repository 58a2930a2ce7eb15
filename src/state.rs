use vstd::prelude::*;

use crate::filter::{get_filter_button_class, Filter};
use crate::list::{appended, remove_from, toggle_in, toggled, views, visible, visible_in, without};
use crate::todo::{Todo, TodoView};

verus! {

/// The mathematical value of the root view's state.
pub ghost struct AppStateView {
    pub todos: Seq<TodoView>,
    pub filter: Filter,
    pub draft: Seq<char>,
}

/// The root view's state: the list of todos, the active filter and the draft of the next todo.
pub struct AppState {
    todos: Vec<Todo>,
    filter: Filter,
    draft: String,
}

impl View for AppState {
    type V = AppStateView;

    closed spec fn view(&self) -> AppStateView {
        AppStateView { todos: views(self.todos@), filter: self.filter, draft: self.draft@ }
    }
}

impl Clone for AppState {
    fn clone(&self) -> (r: Self)
        ensures
            r@ == self@,
    {
        let todos = self.todos.clone();
        assert(todos@ =~= self.todos@) by {
            assert forall|i: int| 0 <= i < todos@.len() implies todos@[i] == self.todos@[i] by {
                assert(cloned::<Todo>(self.todos@[i], todos@[i]));
            }
        }
        AppState { todos, filter: self.filter, draft: self.draft.clone() }
    }
}

impl AppStateView {
    /// The todos on display: those that the active filter lets through.
    pub open spec fn shown(self) -> Seq<TodoView> {
        visible(self.todos, self.filter)
    }
}

impl AppState {
    /// The state a page session starts in: two pending todos, "First" (id 1) and
    /// "Second" (id 2), every todo shown, and an empty draft.
    pub fn new() -> (r: AppState)
        ensures
            r@.todos == seq![
                TodoView { id: 1, text: "First"@, done: false },
                TodoView { id: 2, text: "Second"@, done: false },
            ],
            r@.filter == Filter::All,
            r@.draft == Seq::<char>::empty(),
    {
        let first = Todo { id: 1, text: "First".to_string(), done: false };
        let second = Todo { id: 2, text: "Second".to_string(), done: false };
        let todos: Vec<Todo> = vec![first, second];
        let r = AppState { todos, filter: Filter::All, draft: String::new() };
        assert(r@.todos =~= seq![
            TodoView { id: 1, text: "First"@, done: false },
            TodoView { id: 2, text: "Second"@, done: false },
        ]);
        r
    }

    /// A state that holds the given todos, shows all of them and has an empty draft.
    pub fn with_todos(todos: Vec<Todo>) -> (r: AppState)
        ensures
            r@.todos == views(todos@),
            r@.filter == Filter::All,
            r@.draft == Seq::<char>::empty(),
    {
        AppState { todos, filter: Filter::All, draft: String::new() }
    }

    /// The whole list, shown or not.
    pub fn todos(&self) -> (r: &Vec<Todo>)
        ensures
            views(r@) == self@.todos,
    {
        &self.todos
    }

    /// The active filter.
    pub fn filter(&self) -> (r: Filter)
        ensures
            r == self@.filter,
    {
        self.filter
    }

    /// The draft of the next todo.
    pub fn draft(&self) -> (r: &String)
        ensures
            r@ == self@.draft,
    {
        &self.draft
    }

    /// Sets the completion flag of the todo `id` to `done`; a missing id changes nothing.
    pub fn toggle(&mut self, id: usize, done: bool)
        ensures
            final(self)@.todos == toggled(old(self)@.todos, id as nat, done),
            final(self)@.filter == old(self)@.filter,
            final(self)@.draft == old(self)@.draft,
    {
        self.todos = toggle_in(&self.todos, id, done);
    }

    /// Appends the draft as a new pending todo whose id is the length of the list, and
    /// empties the draft. An empty draft is appended too.
    pub fn add(&mut self)
        ensures
            final(self)@.todos == appended(old(self)@.todos, old(self)@.draft),
            final(self)@.filter == old(self)@.filter,
            final(self)@.draft == Seq::<char>::empty(),
    {
        let id = self.todos.len();
        let text = self.draft.clone();
        let t = Todo { id, text, done: false };
        proof {
            crate::list::lemma_views_push(self.todos@, t);
        }
        self.todos.push(t);
        self.draft = String::new();
    }

    /// Takes out every todo of id `id`; a missing id changes nothing.
    pub fn remove(&mut self, id: usize)
        ensures
            final(self)@.todos == without(old(self)@.todos, id as nat),
            final(self)@.filter == old(self)@.filter,
            final(self)@.draft == old(self)@.draft,
    {
        self.todos = remove_from(&self.todos, id);
    }

    /// Makes `f` the active filter; the list and the draft stay as they are.
    pub fn set_filter(&mut self, f: Filter)
        ensures
            final(self)@.todos == old(self)@.todos,
            final(self)@.filter == f,
            final(self)@.draft == old(self)@.draft,
    {
        self.filter = f;
    }

    /// Replaces the draft with what the input now holds.
    pub fn set_draft(&mut self, text: String)
        ensures
            final(self)@.todos == old(self)@.todos,
            final(self)@.filter == old(self)@.filter,
            final(self)@.draft == text@,
    {
        self.draft = text;
    }

    /// The todos on display under the active filter, in list order.
    pub fn visible_todos(&self) -> (r: Vec<Todo>)
        ensures
            views(r@) == self@.shown(),
    {
        visible_in(&self.todos, self.filter)
    }

    /// Whether the placeholder stands in place of the list: nothing passes the filter.
    pub fn shows_placeholder(&self) -> (r: bool)
        ensures
            r == (self@.shown().len() == 0),
    {
        let shown = visible_in(&self.todos, self.filter);
        shown.len() == 0
    }

    /// The style class of the button that selects `btn`, under the active filter.
    pub fn filter_button_class(&self, btn: Filter) -> (r: String)
        ensures
            r@ == (if btn == self@.filter {
                "btn-primary"@
            } else {
                "btn-outline border-primary"@
            }),
    {
        get_filter_button_class(btn, &self.filter)
    }
}

} // verus!
