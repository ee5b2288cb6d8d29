//! What a server says of itself in a status response.

use vstd::prelude::*;
use crate::chat::ChatComponent;
use crate::favicon::Favicon;

verus! {

/// The game version that the server runs.
#[derive(Debug, Clone, PartialEq, Eq)]
pub struct Version {
    pub name: String,
    pub protocol: i32,
}

/// One of the players that a server lists.
#[derive(Debug, Clone, PartialEq, Eq)]
pub struct Player {
    pub name: String,
    /// The player's UUID, as a number of 128 bits.
    pub id: u128,
}

/// How many players a server holds, and some of them.
#[derive(Debug, Clone, PartialEq, Eq)]
pub struct Players {
    pub max: u32,
    pub online: u32,
    /// `None` where the server lists no players at all; a list without
    /// entries where it does and nobody is there.
    pub sample: Option<Vec<Player>>,
}

/// What a server says of its mods.
#[derive(Debug, Clone, PartialEq, Eq)]
pub struct ModInfo {
    pub kind: String,
    pub mod_list: Vec<String>,
}

/// A status response.
#[derive(Debug, Clone, PartialEq, Eq)]
pub struct StatusResponse {
    pub version: Version,
    pub players: Players,
    pub description: ChatComponent,
    pub favicon: Option<Favicon>,
    pub previews_chat: Option<bool>,
    pub enforces_secure_chat: Option<bool>,
    pub mod_info: Option<ModInfo>,
}

/// What a server says of the players it lists.
#[derive(Debug, Clone, Copy, PartialEq, Eq, Structural)]
pub enum Listing {
    /// The server lists no players: it does not know of the list.
    Unsupported,
    /// The server lists players, and nobody is there.
    Nobody,
    /// The server lists this many players.
    Listed(usize),
}

impl Players {
    /// What the server says of the players it lists.
    pub open spec fn spec_listing(&self) -> Listing {
        match self.sample {
            None => Listing::Unsupported,
            Some(list) => if list@.len() == 0 {
                Listing::Nobody
            } else {
                Listing::Listed(list@.len() as usize)
            },
        }
    }

    /// What the server says of the players it lists: an absent list is
    /// not an empty one.
    pub fn listing(&self) -> (l: Listing)
        ensures
            l == self.spec_listing(),
    {
        match &self.sample {
            None => Listing::Unsupported,
            Some(list) => if list.len() == 0 {
                Listing::Nobody
            } else {
                Listing::Listed(list.len())
            },
        }
    }
}

} // verus!
