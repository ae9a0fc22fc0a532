//! The picture APIs that the bot uses.

use vstd::prelude::*;

verus! {

/// The client of the nekos.life picture API. It carries no state: the bot
/// shares one for all its requests.
#[derive(Clone, Copy, Debug, PartialEq, Eq, Structural)]
pub struct NekosLifeClient {}

/// The client through which the bot asks nekos.life for pictures.
pub fn get_nekoslife_api() -> (r: NekosLifeClient)
    ensures
        r == (NekosLifeClient {}),
{
    NekosLifeClient {}
}

} // verus!
