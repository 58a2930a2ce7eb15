use vstd::prelude::*;

verus! {

/// The mathematical value of a todo: its id, its text and its completion flag.
pub ghost struct TodoView {
    pub id: nat,
    pub text: Seq<char>,
    pub done: bool,
}

/// One entry of the list.
#[derive(Debug, PartialEq, Eq)]
pub struct Todo {
    pub id: usize,
    pub text: String,
    pub done: bool,
}

impl View for Todo {
    type V = TodoView;

    open spec fn view(&self) -> TodoView {
        TodoView { id: self.id as nat, text: self.text@, done: self.done }
    }
}

impl Clone for Todo {
    fn clone(&self) -> (r: Self)
        ensures
            r == *self,
    {
        Todo { id: self.id, text: self.text.clone(), done: self.done }
    }
}

/// What the checkbox of a row asks for: set the completion flag of the todo `id` to `done`.
#[derive(Clone, Copy, Debug, PartialEq, Eq, Structural)]
pub struct ToggleTodo {
    pub id: usize,
    pub done: bool,
}

impl Todo {
    /// A fresh, not yet completed todo.
    pub fn new(id: usize, text: String) -> (r: Todo)
        ensures
            r@ == (TodoView { id: id as nat, text: text@, done: false }),
    {
        Todo { id, text, done: false }
    }

    /// The intent that the row's checkbox emits when it changes to `checked`.
    pub fn toggle_intent(&self, checked: bool) -> (r: ToggleTodo)
        ensures
            r.id == self.id,
            r.done == checked,
    {
        ToggleTodo { id: self.id, done: checked }
    }

    /// The intent that the row's remove button emits: the id of this todo.
    pub fn remove_intent(&self) -> (r: usize)
        ensures
            r == self.id,
    {
        self.id
    }

    /// The extra style class of the row's label: a strike-through once the todo is done.
    pub fn label_modifier(&self) -> (r: Option<String>)
        ensures
            r is Some <==> self.done,
            r is Some ==> r->0@ == "line-through"@,
    {
        if self.done {
            Some("line-through".to_string())
        } else {
            None
        }
    }
}

} // verus!
