use vstd::prelude::*;

verus! {

/// The most characters the input field accepts; also its visual width.
pub const MAX_LENGTH: usize = 20;

/// The text field's own state: a mirror of what it currently holds.
pub struct SearchBox {
    name: String,
}

impl View for SearchBox {
    type V = Seq<char>;

    closed spec fn view(&self) -> Seq<char> {
        self.name@
    }
}

impl SearchBox {
    pub fn new() -> (r: SearchBox)
        ensures
            r@ == Seq::<char>::empty(),
    {
        SearchBox { name: String::new() }
    }

    /// Handles one change of the field: mirrors the new value and hands back
    /// the text to pass on, which is that same value.
    pub fn on_input(&mut self, value: String) -> (emitted: String)
        ensures
            final(self)@ == value@,
            emitted@ == value@,
    {
        let emitted = value.clone();
        self.name = value;
        emitted
    }

    /// The text the field holds.
    pub fn value(&self) -> (r: &String)
        ensures
            r@ == self@,
    {
        &self.name
    }
}

} // verus!
