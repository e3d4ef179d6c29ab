use vstd::prelude::*;

pub mod card;
pub mod compose;
pub mod data;
pub mod gameplay;
pub mod nodes;
pub mod phase;
pub mod text;
pub mod ui;

verus! {

} // verus!
