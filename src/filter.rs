use vstd::prelude::*;

verus! {

/// Which todos the list shows.
#[derive(Clone, Copy, Debug, PartialEq, Eq, Structural)]
pub enum Filter {
    All,
    Pending,
    Done,
}

impl Filter {
    /// Whether a todo with the given completion flag passes this filter.
    pub open spec fn admits(self, done: bool) -> bool {
        match self {
            Filter::All => true,
            Filter::Pending => !done,
            Filter::Done => done,
        }
    }

    /// Executable form of `admits`.
    pub fn shows(&self, done: bool) -> (r: bool)
        ensures
            r == self.admits(done),
    {
        match self {
            Filter::All => true,
            Filter::Pending => !done,
            Filter::Done => done,
        }
    }
}

} // verus!

verus! {

/// The style class of the filter button for `btn`: highlighted when it is the active one.
pub fn get_filter_button_class(btn: Filter, active: &Filter) -> (r: String)
    ensures
        r@ == (if btn == *active {
            "btn-primary"@
        } else {
            "btn-outline border-primary"@
        }),
{
    match (btn, active) {
        (Filter::All, Filter::All) => "btn-primary".to_string(),
        (Filter::Pending, Filter::Pending) => "btn-primary".to_string(),
        (Filter::Done, Filter::Done) => "btn-primary".to_string(),
        _ => "btn-outline border-primary".to_string(),
    }
}

} // verus!
