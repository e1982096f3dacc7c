//! A search box over a fixed list of named cards: every keystroke keeps the
//! cards whose lower-cased name contains the typed text, as typed.
mod app;
mod card;
mod filter;
mod search_box;
mod text;

pub use app::{
    after_input, consistent, displayed, lemma_same_query_twice, status_of,
    App, AppView, STATUS_PREFIX,
};
pub use card::{cards_list, seed_cards, Card};
pub use filter::{
    card_matches, filter_cards, filtered, folded_name_matches, is_match, lemma_empty_query_keeps_all,
    lemma_filter_keeps_order, lemma_filter_members, match_pred,
};
pub use search_box::{SearchBox, MAX_LENGTH};
pub use text::{contains_chars, has_infix, lower_of};
