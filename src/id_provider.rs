use vstd::prelude::*;

verus! {

/// A source of fresh identifiers for short URLs.
///
/// An implementation may keep state (a counter, a random generator), so
/// handing out an identifier takes `&mut self`. Which identifiers it hands
/// out is the implementation's own business; `produces` names the steps it
/// allows.
pub trait IDProvider: Sized {
    /// `after` is a state this provider can be in after handing out `id`
    /// from state `self`. By default every step is allowed: an
    /// implementation that states nothing promises nothing.
    open spec fn produces(&self, after: &Self, id: Seq<char>) -> bool {
        true
    }

    /// Hands out a new identifier.
    fn next_id(&mut self) -> (id: String)
        ensures
            old(self).produces(final(self), id@),
    ;
}

} // verus!
