use vstd::prelude::*;

verus! {

/// The scrolling list of game events.
#[derive(Debug)]
pub struct EventsComponent;

} // verus!
