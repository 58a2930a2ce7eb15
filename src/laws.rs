use vstd::prelude::*;

use crate::filter::Filter;
use crate::list::{toggled, without};
use crate::state::AppStateView;
use crate::todo::TodoView;

verus! {

/// A filter that lets every element of a sequence through keeps the sequence whole.
proof fn lemma_filter_keeps_all(s: Seq<TodoView>, pred: spec_fn(TodoView) -> bool)
    requires
        forall|i: int| 0 <= i < s.len() ==> #[trigger] pred(s[i]),
    ensures
        s.filter(pred) == s,
    decreases s.len(),
{
    reveal(Seq::filter);
    if s.len() > 0 {
        let rest = s.drop_last();
        assert forall|i: int| 0 <= i < rest.len() implies #[trigger] pred(rest[i]) by {
            assert(rest[i] == s[i]);
        }
        lemma_filter_keeps_all(rest, pred);
        assert(pred(s[s.len() - 1]));
        assert(rest.push(s.last()) =~= s);
    }
}

/// Under the filter that shows everything, the todos on display are the whole list, in
/// order, whatever additions, removals and toggles made it.
pub proof fn lemma_all_shows_whole_list(st: AppStateView)
    requires
        st.filter == Filter::All,
    ensures
        st.shown() == st.todos,
{
    lemma_filter_keeps_all(st.todos, |t: TodoView| Filter::All.admits(t.done));
}

/// Toggling an id that no todo of the list has leaves the list as it was.
pub proof fn lemma_toggle_missing_id(s: Seq<TodoView>, id: nat, done: bool)
    requires
        forall|i: int| 0 <= i < s.len() ==> (#[trigger] s[i]).id != id,
    ensures
        toggled(s, id, done) == s,
{
    assert(toggled(s, id, done) =~= s);
}

/// Removing an id that no todo of the list has leaves the list as it was.
pub proof fn lemma_remove_missing_id(s: Seq<TodoView>, id: nat)
    requires
        forall|i: int| 0 <= i < s.len() ==> (#[trigger] s[i]).id != id,
    ensures
        without(s, id) == s,
{
    lemma_filter_keeps_all(s, |t: TodoView| t.id != id);
}

} // verus!
