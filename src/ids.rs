//! Identifiers of the game catalogue: items, runes, champions and abilities.
use vstd::prelude::*;

verus! {

/// Number of distinct item identifiers in the catalogue.
pub const ITEM_VARIANTS: u32 = 300;

/// Number of distinct rune identifiers in the catalogue.
pub const RUNE_VARIANTS: u32 = 64;

/// An item of the catalogue, by its position in the item enumeration.
#[derive(Clone, Copy, Debug, PartialEq, Eq, Structural, Hash)]
pub struct ItemId(pub u16);

/// A rune of the catalogue, by its position in the rune enumeration.
#[derive(Clone, Copy, Debug, PartialEq, Eq, Structural, Hash)]
pub struct RuneId(pub u8);

/// A champion of the catalogue, by its position in the champion enumeration.
#[derive(Clone, Copy, Debug, PartialEq, Eq, Structural, Hash)]
pub struct ChampionId(pub u16);

/// An ability of a champion, by its position in the ability enumeration.
#[derive(Clone, Copy, Debug, PartialEq, Eq, Structural, Hash)]
pub struct AbilityId(pub u16);

impl ItemId {
    /// Whether this identifier names a member of the item enumeration.
    pub open spec fn valid(self) -> bool {
        (self.0 as u32) < ITEM_VARIANTS
    }

    /// The item at position `v`, if the enumeration has one there.
    pub fn from_u16(v: u16) -> (r: Option<ItemId>)
        ensures
            r == (if (v as u32) < ITEM_VARIANTS { Some(ItemId(v)) } else { None::<ItemId> }),
    {
        if (v as u32) < ITEM_VARIANTS {
            Some(ItemId(v))
        } else {
            None
        }
    }
}

impl RuneId {
    /// Whether this identifier names a member of the rune enumeration.
    pub open spec fn valid(self) -> bool {
        (self.0 as u32) < RUNE_VARIANTS
    }

    /// The rune at position `v`, if the enumeration has one there.
    pub fn from_u8(v: u8) -> (r: Option<RuneId>)
        ensures
            r == (if (v as u32) < RUNE_VARIANTS { Some(RuneId(v)) } else { None::<RuneId> }),
    {
        if (v as u32) < RUNE_VARIANTS {
            Some(RuneId(v))
        } else {
            None
        }
    }
}

impl Default for ChampionId {
    fn default() -> (r: ChampionId)
        ensures
            r == ChampionId(0),
    {
        ChampionId(0)
    }
}

} // verus!
