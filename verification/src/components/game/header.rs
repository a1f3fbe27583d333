use vstd::prelude::*;

verus! {

/// The status line at the top of the game view.
#[derive(Debug)]
pub struct HeaderComponent;

} // verus!
