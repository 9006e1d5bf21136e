//! The bot's standing state.

use vstd::prelude::*;

verus! {

/// What the bot is doing between commands.
#[derive(Clone, Copy, Debug, PartialEq, Eq, Structural)]
pub enum Status {
    StandingBy,
}

} // verus!
