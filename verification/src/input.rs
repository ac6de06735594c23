//! Input plumbing shared by the consoles' configuration types.
use vstd::prelude::*;

verus! {

/// Which player's controller an input belongs to.
#[derive(Debug, Clone, Copy, PartialEq, Eq, Structural)]
pub enum Player {
    One,
    Two,
    Three,
    Four,
    Five,
}

/// A message shown to the user in response to an input.
#[derive(Debug, Clone, PartialEq, Eq)]
pub struct InputModal {
    pub id: Option<String>,
    pub text: String,
}

} // verus!
