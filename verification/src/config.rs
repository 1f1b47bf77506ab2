//! The settings that are kept between runs.

use vstd::prelude::*;

verus! {

/// The saved settings: the Discord token the user entered.
#[derive(Debug, Clone, PartialEq, Eq)]
pub struct Config {
    pub discord_token: String,
}

} // verus!
