//! Selecting venture-coin stacks from an inventory export and attributing
//! them to a saved character.

use vstd::prelude::*;

verus! {

/// The item identifier of venture coins, the one item the inventory report
/// shows.
pub const VENTURE_ITEM_ID: u32 = 21072;

/// Whether an inventory row holds venture coins.
pub fn is_venture(item_id: u32) -> (r: bool)
    ensures
        r == (item_id == VENTURE_ITEM_ID),
{
    item_id == VENTURE_ITEM_ID
}

/// One character known to the inventory plugin's configuration.
#[derive(Clone, Debug)]
pub struct SavedCharacter {
    /// The character's stable identifier, keying the inventory rows.
    pub character_id: u64,
    /// The character's display name.
    pub name: String,
    /// The world the character lives on; see
    /// [`crate::catalog::worldname`].
    pub world_id: u32,
}

/// Find the first saved character with the given identifier: its index when
/// one exists, and `None` exactly when none matches.
pub fn find_character(chars: &Vec<SavedCharacter>, character_id: u64) -> (r: Option<usize>)
    ensures
        match r {
            Option::Some(i) => i < chars@.len() && chars@[i as int].character_id == character_id
                && (forall|j: int| 0 <= j < i ==> chars@[j].character_id != character_id),
            Option::None => forall|j: int|
                0 <= j < chars@.len() ==> chars@[j].character_id != character_id,
        },
{
    let mut i: usize = 0;
    while i < chars.len()
        invariant
            i <= chars@.len(),
            forall|j: int| 0 <= j < i ==> chars@[j].character_id != character_id,
        decreases chars@.len() - i,
    {
        if chars[i].character_id == character_id {
            return Some(i);
        }
        i = i + 1;
    }
    None
}

} // verus!
