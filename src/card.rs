use vstd::prelude::*;
use vstd::string::*;

verus! {

/// A searchable record: a stable identifier, used as the row key when the
/// list is drawn, and a display name, which is what a query is matched on.
#[derive(Clone, PartialEq, Eq, Debug)]
pub struct Card {
    pub id: usize,
    pub name: String,
}

impl Card {
    pub fn new(id: usize, name: String) -> (r: Card)
        ensures
            r.id == id,
            r.name@ == name@,
    {
        Card { id, name }
    }

    /// A field-by-field copy.
    pub fn duplicate(&self) -> (r: Card)
        ensures
            r == *self,
    {
        Card { id: self.id, name: self.name.clone() }
    }

    /// The text a card is shown as: its name.
    pub fn label(&self) -> (r: String)
        ensures
            r@ == self.name@,
    {
        self.name.clone()
    }
}

/// The rows that draw `cards`: one per card, in order, each keyed by the
/// card's id and showing its label.
pub fn cards_list(cards: &Vec<Card>) -> (rows: Vec<(usize, String)>)
    ensures
        rows@.len() == cards@.len(),
        forall|i: int|
            0 <= i < cards@.len() ==> (#[trigger] rows@[i]).0 == cards@[i].id && rows@[i].1@
                == cards@[i].name@,
{
    let mut rows: Vec<(usize, String)> = Vec::new();
    let mut i: usize = 0;
    while i < cards.len()
        invariant
            i <= cards@.len(),
            rows@.len() == i,
            forall|k: int|
                0 <= k < i ==> (#[trigger] rows@[k]).0 == cards@[k].id && rows@[k].1@
                    == cards@[k].name@,
        decreases cards.len() - i,
    {
        let card = &cards[i];
        rows.push((card.id, card.label()));
        i += 1;
    }
    rows
}

/// The list a session starts with.
pub fn seed_cards() -> (r: Vec<Card>)
    ensures
        r@.len() == 3,
        r@[0].id == 0 && r@[0].name@ == "Alexis"@,
        r@[1].id == 1 && r@[1].name@ == "Camille"@,
        r@[2].id == 2 && r@[2].name@ == "Jérémy"@,
{
    let mut r: Vec<Card> = Vec::new();
    r.push(Card::new(0, String::from_str("Alexis")));
    r.push(Card::new(1, String::from_str("Camille")));
    r.push(Card::new(2, String::from_str("Jérémy")));
    r
}

} // verus!
