pub mod filter;
pub mod laws;
pub mod list;
pub mod state;
pub mod todo;

pub use filter::{get_filter_button_class, Filter};
pub use laws::{lemma_all_shows_whole_list, lemma_remove_missing_id, lemma_toggle_missing_id};
pub use list::{remove_from, toggle_in, visible_in};
pub use state::{AppState, AppStateView};
pub use todo::{Todo, TodoView, ToggleTodo};
