use vstd::prelude::*;
use vstd::string::*;

use crate::card::Card;
use crate::filter::{filter_cards, filtered};

verus! {

/// What the status line says before the last typed text.
pub const STATUS_PREFIX: &'static str = "Searching for: ";

/// The root of the view: the full list, the last typed query and the cards
/// that matched it. Both optional cells are absent until the first input.
pub struct App {
    cards: Vec<Card>,
    typed: Option<String>,
    filtered_cards: Option<Vec<Card>>,
}

/// The abstract state of an `App`.
pub struct AppView {
    pub cards: Seq<Card>,
    pub typed: Option<Seq<char>>,
    pub filtered: Option<Seq<Card>>,
}

impl View for App {
    type V = AppView;

    closed spec fn view(&self) -> AppView {
        AppView {
            cards: self.cards@,
            typed: match self.typed {
                Some(t) => Some(t@),
                None => None,
            },
            filtered: match self.filtered_cards {
                Some(f) => Some(f@),
                None => None,
            },
        }
    }
}

/// The cards on screen: the filtered cards once there are any (even none),
/// else the full list.
pub open spec fn displayed(v: AppView) -> Seq<Card> {
    match v.filtered {
        Some(f) => f,
        None => v.cards,
    }
}

/// The status line, present once something has been typed.
pub open spec fn status_of(v: AppView) -> Option<Seq<char>> {
    match v.typed {
        Some(t) => Some(STATUS_PREFIX@ + t),
        None => None,
    }
}

/// The state after the text field reports `q`: the query is replaced by `q`
/// and the filtered cards by those that match it.
pub open spec fn after_input(v: AppView, q: Seq<char>) -> AppView {
    AppView { cards: v.cards, typed: Some(q), filtered: Some(filtered(v.cards, q)) }
}

/// Either nothing was typed and nothing filtered, or the filtered cards are
/// exactly the cards that match the last query.
pub open spec fn consistent(v: AppView) -> bool {
    match v.typed {
        None => v.filtered is None,
        Some(q) => v.filtered == Some(filtered(v.cards, q)),
    }
}

impl App {
    /// The initial state: nothing typed, the full list shown.
    pub fn new(cards: Vec<Card>) -> (r: App)
        ensures
            r@ == (AppView { cards: cards@, typed: None, filtered: None }),
            displayed(r@) == cards@,
            status_of(r@) is None,
            consistent(r@),
    {
        App { cards, typed: None, filtered_cards: None }
    }

    /// Handles text emitted by the search box.
    pub fn on_type(&mut self, text: String)
        ensures
            final(self)@ == after_input(old(self)@, text@),
            displayed(final(self)@) == filtered(old(self)@.cards, text@),
            consistent(final(self)@),
    {
        let found = filter_cards(&self.cards, text.as_str());
        self.typed = Some(text);
        self.filtered_cards = Some(found);
    }

    /// The cards to draw.
    pub fn items(&self) -> (r: &Vec<Card>)
        ensures
            r@ == displayed(self@),
    {
        match &self.filtered_cards {
            Some(f) => f,
            None => &self.cards,
        }
    }

    /// The status line to draw, if any.
    pub fn status_text(&self) -> (r: Option<String>)
        ensures
            match (r, status_of(self@)) {
                (Some(s), Some(t)) => s@ == t,
                (None, None) => true,
                _ => false,
            },
    {
        match &self.typed {
            Some(t) => {
                let mut s = String::from_str(STATUS_PREFIX);
                s.append(t.as_str());
                Some(s)
            },
            None => None,
        }
    }

    /// The full list the session started with.
    pub fn cards(&self) -> (r: &Vec<Card>)
        ensures
            r@ == self@.cards,
    {
        &self.cards
    }

    /// The last typed text, if any.
    pub fn typed(&self) -> (r: Option<&String>)
        ensures
            match (r, self@.typed) {
                (Some(s), Some(t)) => s@ == t,
                (None, None) => true,
                _ => false,
            },
    {
        self.typed.as_ref()
    }
}

/// Typing the same query twice in a row leaves the same state, and so the
/// same cards and status line on screen, as typing it once.
pub proof fn lemma_same_query_twice(v: AppView, q: Seq<char>)
    ensures
        after_input(after_input(v, q), q) == after_input(v, q),
        displayed(after_input(after_input(v, q), q)) == displayed(after_input(v, q)),
        status_of(after_input(after_input(v, q), q)) == status_of(after_input(v, q)),
{
}

} // verus!
