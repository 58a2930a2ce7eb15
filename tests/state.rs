use todos::{remove_from, toggle_in, visible_in, AppState, Filter, Todo};

fn todo(id: usize, text: &str, done: bool) -> Todo {
    Todo { id, text: text.to_string(), done }
}

fn starting_list() -> Vec<Todo> {
    vec![todo(1, "First", false), todo(2, "Second", false)]
}

#[test]
fn starts_with_two_pending_todos() {
    let st = AppState::new();
    assert_eq!(st.todos(), &starting_list());
    assert_eq!(st.filter(), Filter::All);
    assert_eq!(st.draft(), "");
}

#[test]
fn toggle_then_done_filter_shows_toggled_todo() {
    let mut st = AppState::new();
    st.toggle(1, true);
    st.set_filter(Filter::Done);
    assert_eq!(st.visible_todos(), vec![todo(1, "First", true)]);
    assert!(!st.shows_placeholder());
}

#[test]
fn remove_then_all_filter_shows_rest() {
    let mut st = AppState::new();
    st.remove(1);
    assert_eq!(st.todos(), &vec![todo(2, "Second", false)]);
    st.set_filter(Filter::All);
    let shown = st.visible_todos();
    assert_eq!(shown.len(), 1);
    assert_eq!(shown[0].id, 2);
    assert_eq!(shown, vec![todo(2, "Second", false)]);
}

#[test]
fn add_takes_length_as_id() {
    let mut st = AppState::new();
    st.set_draft("Third".to_string());
    st.add();
    assert_eq!(st.todos().len(), 3);
    assert_eq!(st.todos()[2], todo(2, "Third", false));
    // the new id is the one the second todo already has
    assert_eq!(st.todos()[1].id, st.todos()[2].id);
}

#[test]
fn add_after_remove_repeats_an_id() {
    let mut st = AppState::new();
    st.remove(1);
    st.set_draft("Again".to_string());
    st.add();
    assert_eq!(st.todos(), &vec![todo(2, "Second", false), todo(1, "Again", false)]);
}

#[test]
fn add_empties_the_draft() {
    let mut st = AppState::new();
    st.set_draft("Buy milk".to_string());
    st.add();
    assert_eq!(st.draft(), "");
    st.add();
    assert_eq!(st.draft(), "");
    assert_eq!(st.todos()[3], todo(3, "", false));
}

#[test]
fn empty_draft_is_appended() {
    let mut st = AppState::with_todos(Vec::new());
    st.add();
    assert_eq!(st.todos(), &vec![todo(0, "", false)]);
}

#[test]
fn toggle_missing_id_changes_nothing() {
    let mut st = AppState::new();
    st.toggle(7, true);
    assert_eq!(st.todos(), &starting_list());
    assert_eq!(toggle_in(&starting_list(), 0, true), starting_list());
}

#[test]
fn remove_missing_id_changes_nothing() {
    let mut st = AppState::new();
    st.remove(9);
    assert_eq!(st.todos(), &starting_list());
    assert_eq!(remove_from(&starting_list(), 0), starting_list());
}

#[test]
fn toggle_back_to_pending() {
    let mut st = AppState::new();
    st.toggle(2, true);
    assert_eq!(st.todos()[1], todo(2, "Second", true));
    st.toggle(2, false);
    assert_eq!(st.todos(), &starting_list());
}

#[test]
fn toggle_and_remove_reach_every_equal_id() {
    let list = vec![todo(1, "a", false), todo(1, "b", true), todo(2, "c", false)];
    assert_eq!(
        toggle_in(&list, 1, true),
        vec![todo(1, "a", true), todo(1, "b", true), todo(2, "c", false)]
    );
    assert_eq!(remove_from(&list, 1), vec![todo(2, "c", false)]);
}

#[test]
fn all_filter_shows_whole_list_after_adds_and_removes() {
    let mut st = AppState::new();
    assert_eq!(&st.visible_todos(), st.todos());
    st.set_draft("x".to_string());
    st.add();
    st.toggle(2, true);
    assert_eq!(&st.visible_todos(), st.todos());
    st.remove(1);
    assert_eq!(&st.visible_todos(), st.todos());
    st.remove(2);
    assert_eq!(&st.visible_todos(), st.todos());
    assert!(st.shows_placeholder());
}

#[test]
fn choosing_a_filter_keeps_list_and_draft() {
    let mut st = AppState::new();
    st.toggle(2, true);
    st.set_draft("half".to_string());
    let before = st.todos().clone();
    for f in [Filter::Pending, Filter::Done, Filter::All] {
        st.set_filter(f);
        assert_eq!(st.filter(), f);
        assert_eq!(st.todos(), &before);
        assert_eq!(st.draft(), "half");
    }
}

#[test]
fn pending_filter_shows_only_pending() {
    let mut st = AppState::new();
    st.toggle(1, true);
    st.set_filter(Filter::Pending);
    assert_eq!(st.visible_todos(), vec![todo(2, "Second", false)]);
    st.toggle(2, true);
    assert_eq!(st.visible_todos(), Vec::<Todo>::new());
    assert!(st.shows_placeholder());
}

#[test]
fn visible_in_keeps_order() {
    let list = vec![todo(0, "a", true), todo(1, "b", false), todo(2, "c", true)];
    assert_eq!(visible_in(&list, Filter::Done), vec![todo(0, "a", true), todo(2, "c", true)]);
    assert_eq!(visible_in(&list, Filter::Pending), vec![todo(1, "b", false)]);
    assert_eq!(visible_in(&list, Filter::All), list);
    assert_eq!(visible_in(&Vec::new(), Filter::All), Vec::<Todo>::new());
}

#[test]
fn placeholder_only_when_nothing_shown() {
    let mut st = AppState::new();
    assert!(!st.shows_placeholder());
    st.set_filter(Filter::Done);
    assert!(st.shows_placeholder());
    let empty = AppState::with_todos(Vec::new());
    assert!(empty.shows_placeholder());
}

#[test]
fn draft_follows_input() {
    let mut st = AppState::new();
    st.set_draft("a".to_string());
    st.set_draft("ab".to_string());
    assert_eq!(st.draft(), "ab");
    assert_eq!(st.todos(), &starting_list());
}
