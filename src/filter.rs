use vstd::prelude::*;

use crate::card::Card;
use crate::text::{contains_chars, has_infix, lower_of, to_lowercase};

verus! {

/// A card matches a query when the query occurs, as typed, in the lower-case
/// form of the card's name. Only the name is folded, never the query.
pub open spec fn is_match(c: Card, q: Seq<char>) -> bool {
    has_infix(lower_of(c.name@), q)
}

pub open spec fn match_pred(q: Seq<char>) -> spec_fn(Card) -> bool {
    |c: Card| is_match(c, q)
}

/// The cards of `cards` that match `q`, in list order.
pub open spec fn filtered(cards: Seq<Card>, q: Seq<char>) -> Seq<Card> {
    cards.filter(match_pred(q))
}

/// Whether a card whose name has already been folded to `folded_name`
/// matches `text`.
pub fn folded_name_matches(folded_name: &str, text: &str) -> (r: bool)
    ensures
        r == has_infix(folded_name@, text@),
{
    contains_chars(folded_name, text)
}

/// Whether `card` matches `text`.
pub fn card_matches(card: &Card, text: &str) -> (r: bool)
    ensures
        r == is_match(*card, text@),
{
    let folded = to_lowercase(card.name.as_str());
    folded_name_matches(folded.as_str(), text)
}

/// The filter step: the cards that match `text`, in list order.
pub fn filter_cards(cards: &Vec<Card>, text: &str) -> (r: Vec<Card>)
    ensures
        r@ == filtered(cards@, text@),
{
    let mut out: Vec<Card> = Vec::new();
    let mut i: usize = 0;
    while i < cards.len()
        invariant
            i <= cards@.len(),
            out@ == filtered(cards@.subrange(0, i as int), text@),
        decreases cards.len() - i,
    {
        let ghost before = cards@.subrange(0, i as int);
        let card = &cards[i];
        let keep = card_matches(card, text);
        if keep {
            out.push(card.duplicate());
        }
        proof {
            let next = cards@.subrange(0, i + 1);
            assert(next.drop_last() =~= before);
            assert(next.last() == cards@[i as int]);
            reveal(Seq::filter);
        }
        i += 1;
    }
    assert(cards@.subrange(0, cards@.len() as int) =~= cards@);
    out
}

/// A card is in the result of the filter step exactly when it is in the
/// list and matches the query.
pub proof fn lemma_filter_members(cards: Seq<Card>, q: Seq<char>)
    ensures
        forall|c: Card|
            #[trigger] filtered(cards, q).contains(c) <==> (cards.contains(c) && is_match(c, q)),
{
    broadcast use vstd::seq_lib::group_filter_ensures;

    assert forall|c: Card| #[trigger]
        filtered(cards, q).contains(c) <==> (cards.contains(c) && is_match(c, q)) by {
        if filtered(cards, q).contains(c) {
            let k = choose|k: int| 0 <= k < filtered(cards, q).len() && filtered(cards, q)[k] == c;
            assert(match_pred(q)(filtered(cards, q)[k]));
            cards.lemma_filter_contains_rev(match_pred(q), c);
        }
        if cards.contains(c) && is_match(c, q) {
            let i = choose|i: int| 0 <= i < cards.len() && cards[i] == c;
            cards.lemma_filter_contains(match_pred(q), i);
        }
    }
}

/// The empty query matches every card: filtering by it keeps the whole list.
pub proof fn lemma_empty_query_keeps_all(cards: Seq<Card>)
    ensures
        filtered(cards, Seq::empty()) == cards,
    decreases cards.len(),
{
    reveal(Seq::filter);
    if cards.len() > 0 {
        lemma_empty_query_keeps_all(cards.drop_last());
        let c = cards.last();
        let e = Seq::<char>::empty();
        assert(lower_of(c.name@).subrange(0, 0 + e.len() as int) =~= e);
        assert(is_match(c, Seq::empty()));
        assert(cards.drop_last().push(c) =~= cards);
    }
}

/// The filter step keeps the order of the list: the result is the list's
/// matching cards picked at strictly increasing positions, and every matching
/// position is picked. The returned sequence gives those positions.
pub proof fn lemma_filter_keeps_order(cards: Seq<Card>, q: Seq<char>) -> (idx: Seq<int>)
    ensures
        idx.len() == filtered(cards, q).len(),
        forall|k: int|
            0 <= k < idx.len() ==> 0 <= #[trigger] idx[k] < cards.len() && filtered(cards, q)[k]
                == cards[idx[k]],
        forall|k1: int, k2: int| 0 <= k1 < k2 < idx.len() ==> #[trigger] idx[k1] < #[trigger] idx[k2],
        forall|i: int| 0 <= i < cards.len() && is_match(#[trigger] cards[i], q) ==> idx.contains(i),
    decreases cards.len(),
{
    reveal(Seq::filter);
    if cards.len() == 0 {
        Seq::empty()
    } else {
        let rest = cards.drop_last();
        let prev = lemma_filter_keeps_order(rest, q);
        let n = cards.len() - 1;
        assert forall|i: int| 0 <= i < n && is_match(#[trigger] cards[i], q) implies prev.contains(i) by {
            assert(rest[i] == cards[i]);
        }
        if is_match(cards.last(), q) {
            let idx = prev.push(n);
            assert(prev.contains(n) ==> false);
            assert forall|i: int| 0 <= i < cards.len() && is_match(#[trigger] cards[i], q) implies idx.contains(i) by {
                if i < n {
                    let k = choose|k: int| 0 <= k < prev.len() && prev[k] == i;
                    assert(idx[k] == i);
                } else {
                    assert(idx[prev.len() as int] == i);
                }
            }
            idx
        } else {
            assert forall|i: int| 0 <= i < cards.len() && is_match(#[trigger] cards[i], q) implies prev.contains(i) by {
                if i == n {
                    assert(cards[i] == cards.last());
                }
            }
            prev
        }
    }
}

} // verus!
