//! Stat blocks, damage records, dragon counters and the packed override value.
use vstd::prelude::*;
use vstd::arithmetic::power2::{pow2, lemma2_to64};
use crate::ids::{ItemId, RuneId, ITEM_VARIANTS, RUNE_VARIANTS};

verus! {

/// Full champion stat block of the local player.
#[derive(Clone, Copy, Debug, PartialEq, Eq, Structural)]
pub struct Stats {
    pub ability_power: i32,
    pub armor: i32,
    pub armor_penetration_flat: i32,
    pub armor_penetration_percent: i32,
    pub attack_damage: i32,
    pub attack_range: i32,
    pub attack_speed: i32,
    pub crit_chance: i32,
    pub crit_damage: i32,
    pub current_health: i32,
    pub magic_penetration_flat: i32,
    pub magic_penetration_percent: i32,
    pub magic_resist: i32,
    pub health: i32,
    pub mana: i32,
    pub current_mana: i32,
}

/// Team of a player: `CHAOS` is red, `ORDER` and anything else is blue.
#[derive(Clone, Copy, Debug, PartialEq, Eq, Structural)]
pub enum Team {
    Blue,
    Red,
}

/// A damage value shown as the range `{min} - {max}`.
#[derive(Clone, Copy, Debug, PartialEq, Eq, Structural)]
pub struct RangeDamage {
    pub minimum_damage: i32,
    pub maximum_damage: i32,
}

/// Core champion stats of a player.
#[derive(Clone, Copy, Debug, PartialEq, Eq, Structural, Default)]
pub struct BasicStats {
    pub armor: i32,
    pub health: i32,
    pub attack_damage: i32,
    pub magic_resist: i32,
    pub mana: i32,
}

/// Damage of the basic attack, of a critical strike, and of on-hit effects.
#[derive(Clone, Copy, Debug, PartialEq, Eq, Structural)]
pub struct Attacks {
    /// Damage of the basic attack hit.
    pub basic_attack: i32,
    /// Damage of a critical strike.
    pub critical_strike: i32,
    /// On-hit damage, as a range.
    pub onhit_damage: RangeDamage,
}

/// The stats that reduce the damage an enemy takes.
#[derive(Clone, Copy, Debug, PartialEq, Eq, Structural)]
pub struct SimpleStats {
    pub armor: i32,
    pub health: i32,
    pub magic_resist: i32,
}

impl Stats {
    /// The stat block with every field zero.
    pub open spec fn zero() -> Stats {
        Stats {
            ability_power: 0,
            armor: 0,
            armor_penetration_flat: 0,
            armor_penetration_percent: 0,
            attack_damage: 0,
            attack_range: 0,
            attack_speed: 0,
            crit_chance: 0,
            crit_damage: 0,
            current_health: 0,
            magic_penetration_flat: 0,
            magic_penetration_percent: 0,
            magic_resist: 0,
            health: 0,
            mana: 0,
            current_mana: 0,
        }
    }
}

impl Default for Stats {
    fn default() -> (r: Stats)
        ensures
            r == Stats::zero(),
    {
        Stats {
            ability_power: 0,
            armor: 0,
            armor_penetration_flat: 0,
            armor_penetration_percent: 0,
            attack_damage: 0,
            attack_range: 0,
            attack_speed: 0,
            crit_chance: 0,
            crit_damage: 0,
            current_health: 0,
            magic_penetration_flat: 0,
            magic_penetration_percent: 0,
            magic_resist: 0,
            health: 0,
            mana: 0,
            current_mana: 0,
        }
    }
}

impl SimpleStats {
    /// The reduced stat block with every field zero.
    pub open spec fn zero() -> SimpleStats {
        SimpleStats { armor: 0, health: 0, magic_resist: 0 }
    }
}

impl Default for SimpleStats {
    fn default() -> (r: SimpleStats)
        ensures
            r == SimpleStats::zero(),
    {
        SimpleStats { armor: 0, health: 0, magic_resist: 0 }
    }
}

/// Damages dealt to one target, per source.
#[derive(Clone, Debug, PartialEq)]
pub struct Damages {
    pub attacks: Attacks,
    pub abilities: Vec<i32>,
    pub items: Vec<i32>,
    pub runes: Vec<i32>,
}

/// Dragons taken, by kind, by the ally and the enemy team.
#[derive(Clone, Copy, Debug, PartialEq, Eq, Structural)]
pub struct Dragons {
    pub ally_fire_dragons: u16,
    pub ally_earth_dragons: u16,
    pub ally_chemtech_dragons: u16,
    pub enemy_earth_dragons: u16,
}

impl Default for Dragons {
    fn default() -> (r: Dragons)
        ensures
            r == (Dragons {
                ally_fire_dragons: 0,
                ally_earth_dragons: 0,
                ally_chemtech_dragons: 0,
                enemy_earth_dragons: 0,
            }),
    {
        Dragons {
            ally_fire_dragons: 0,
            ally_earth_dragons: 0,
            ally_chemtech_dragons: 0,
            enemy_earth_dragons: 0,
        }
    }
}

/// Number of bits of a packed override that hold the stack count.
pub const VAL_BITS: u32 = 23;

/// Number of bits of a packed override that hold the identifier.
pub const DISC_BITS: u32 = 32 - VAL_BITS;

/// Mask of the stack-count bits.
pub const VAL_MASK: u32 = 0x7f_ffff;

/// Mask of the identifier bits, in place.
pub const DISC_MASK: u32 = 0xff80_0000;

/// Mask of the identifier bits, shifted down.
pub const DISC_LOW_MASK: u32 = 0x1ff;

/// Number of binary digits of `n`.
pub open spec fn bit_length(n: nat) -> nat
    decreases n,
{
    if n == 0 {
        0
    } else {
        1 + bit_length(n / 2)
    }
}

/// Fewest bits that give every member of enumerations of `a` and `b` members
/// a distinct code.
pub open spec fn disc_bits_for(a: nat, b: nat) -> nat {
    let m = if a > b { a } else { b };
    if m == 0 {
        0
    } else {
        bit_length((m - 1) as nat)
    }
}

/// Number of distinct stack counts a packed override can hold.
pub open spec fn magnitude_span() -> nat {
    pow2(VAL_BITS as nat)
}

/// Stack count held by the packed bits `v`.
pub open spec fn magnitude_of(v: u32) -> nat {
    v as nat % magnitude_span()
}

/// Identifier held by the packed bits `v`.
pub open spec fn disc_of(v: u32) -> nat {
    v as nat / magnitude_span()
}

/// Item named by the packed bits `v`, if any.
pub open spec fn item_of(v: u32) -> Option<ItemId> {
    if disc_of(v) < ITEM_VARIANTS {
        Some(ItemId(disc_of(v) as u16))
    } else {
        None
    }
}

/// Rune named by the packed bits `v`, if any.
pub open spec fn rune_of(v: u32) -> Option<RuneId> {
    if disc_of(v) < RUNE_VARIANTS {
        Some(RuneId(disc_of(v) as u8))
    } else {
        None
    }
}

/// Packed bits for identifier `d` and stack count `m`.
pub open spec fn packed(d: nat, m: nat) -> nat {
    (d % pow2(DISC_BITS as nat)) * magnitude_span() + m % magnitude_span()
}

proof fn lemma_bit_length_bound(v: nat, k: nat)
    requires
        v < pow2(k),
    ensures
        bit_length(v) <= k,
    decreases k,
{
    if k > 0 {
        vstd::arithmetic::power2::lemma_pow2_unfold(k);
        lemma_bit_length_bound(v / 2, (k - 1) as nat);
    } else {
        lemma2_to64();
    }
}

proof fn lemma_spans()
    ensures
        magnitude_span() == 0x80_0000,
        pow2(DISC_BITS as nat) == 0x200,
        pow2(32) == 0x1_0000_0000,
{
    lemma2_to64();
}

/// Stack count `n` of an item or a rune held by a player, packed into one
/// integer: the high bits hold the identifier, the low bits the count.
#[derive(Clone, Copy, Debug, PartialEq, Eq, Structural)]
pub struct ValueException(u32);

impl ValueException {
    /// The packed bits.
    pub closed spec fn bits(self) -> u32 {
        self.0
    }

    /// The value that packs item `i` with `v` stacks.
    pub closed spec fn of_item(i: ItemId, v: u32) -> ValueException {
        ValueException(packed(i.0 as nat, v as nat) as u32)
    }

    /// The value that packs rune `r` with `v` stacks.
    pub closed spec fn of_rune(r: RuneId, v: u32) -> ValueException {
        ValueException(packed(r.0 as nat, v as nat) as u32)
    }

    /// The packed bits, as they are sent on the wire.
    pub fn to_bits(&self) -> (r: u32)
        ensures
            r == self.bits(),
    {
        self.0
    }

    /// Number of bits that distinguish every member of enumerations of `a`
    /// and of `b` members.
    pub fn find_disc_bits(a: u32, b: u32) -> (r: u32)
        ensures
            r as nat == disc_bits_for(a as nat, b as nat),
    {
        let m: u32 = if a > b { a } else { b };
        if m == 0 {
            return 0;
        }
        let mut v: u32 = m - 1;
        let mut n: u32 = 0;
        proof {
            lemma_spans();
            lemma_bit_length_bound(v as nat, 32);
        }
        while v > 0
            invariant
                n as nat + bit_length(v as nat) == bit_length((m - 1) as nat),
                bit_length((m - 1) as nat) <= 32,
            decreases v,
        {
            v = v / 2;
            n = n + 1;
        }
        n
    }

    /// How many stacks are stored; at most `VAL_MASK`.
    pub fn stacks(&self) -> (r: u32)
        ensures
            r as nat == magnitude_of(self.bits()),
    {
        let x = self.0;
        proof {
            lemma_spans();
            assert(x & 0x7f_ffffu32 == x % 0x80_0000u32) by (bit_vector);
        }
        x & VAL_MASK
    }

    /// The identifier stored in the high bits.
    pub fn enum_id(&self) -> (r: u16)
        ensures
            r as nat == disc_of(self.bits()),
    {
        let x = self.0;
        proof {
            lemma_spans();
            assert((x >> 23u32) & 0x1ffu32 == x / 0x80_0000u32) by (bit_vector);
            assert(x / 0x80_0000u32 < 0x200) by (bit_vector);
        }
        ((x >> VAL_BITS) & DISC_LOW_MASK) as u16
    }

    /// The rune this value was packed for, if the stored identifier names one.
    pub fn get_rune_id(&self) -> (r: Option<RuneId>)
        ensures
            r == rune_of(self.bits()),
    {
        let id = self.enum_id();
        if (id as u32) < RUNE_VARIANTS {
            RuneId::from_u8(id as u8)
        } else {
            None
        }
    }

    /// The item this value was packed for, if the stored identifier names one.
    pub fn get_item_id(&self) -> (r: Option<ItemId>)
        ensures
            r == item_of(self.bits()),
    {
        ItemId::from_u16(self.enum_id())
    }

    /// Drops the bits of `v` that do not fit in the stack count.
    pub fn truncate_value(v: u32) -> (r: u32)
        ensures
            r as nat == v as nat % magnitude_span(),
    {
        proof {
            lemma_spans();
            assert(v & 0x7f_ffffu32 == v % 0x80_0000u32) by (bit_vector);
        }
        v & VAL_MASK
    }

    fn pack(d: u32, v: u32) -> (r: ValueException)
        ensures
            r.bits() as nat == packed(d as nat, v as nat),
    {
        let disc = d & DISC_LOW_MASK;
        let t = Self::truncate_value(v);
        proof {
            lemma_spans();
            assert(d & 0x1ffu32 == d % 0x200u32) by (bit_vector);
            assert(disc < 0x200u32 && t < 0x80_0000u32 ==> (disc << 23u32) | t == disc * 0x80_0000u32 + t)
                by (bit_vector);
        }
        ValueException((disc << VAL_BITS) | t)
    }

    /// Packs rune `r` with `v` stacks; the bits of `v` above `VAL_BITS` are dropped.
    pub fn pack_rune_id(r: RuneId, v: u32) -> (out: Self)
        ensures
            out == Self::of_rune(r, v),
            out.bits() as nat == packed(r.0 as nat, v as nat),
    {
        Self::pack(r.0 as u32, v)
    }

    /// Packs item `i` with `v` stacks; the bits of `v` above `VAL_BITS` are dropped.
    pub fn pack_item_id(i: ItemId, v: u32) -> (out: Self)
        ensures
            out == Self::of_item(i, v),
            out.bits() as nat == packed(i.0 as nat, v as nat),
    {
        Self::pack(i.0 as u32, v)
    }
}

/// The identifier width is the one that the sizes of the item and the rune
/// enumerations call for, and the stack count takes the remaining bits.
pub proof fn lemma_layout_fits()
    ensures
        DISC_BITS as nat == disc_bits_for(ITEM_VARIANTS as nat, RUNE_VARIANTS as nat),
        DISC_BITS + VAL_BITS == 32,
        VAL_MASK as nat == magnitude_span() - 1,
        DISC_LOW_MASK as nat == pow2(DISC_BITS as nat) - 1,
        DISC_MASK as nat == pow2(32) - magnitude_span(),
{
    reveal_with_fuel(bit_length, 10);
    lemma_spans();
}

proof fn lemma_unpack(d: nat, m: nat)
    requires
        d < pow2(DISC_BITS as nat),
    ensures
        packed(d, m) < pow2(32),
        disc_of(packed(d, m) as u32) == d,
        magnitude_of(packed(d, m) as u32) == m % magnitude_span(),
{
    lemma_spans();
    let t = m % 0x80_0000;
    assert(d % 0x200 == d) by (nonlinear_arith)
        requires
            d < 0x200,
    ;
    assert(d * 0x80_0000 + t < 0x1_0000_0000 && (d * 0x80_0000 + t) / 0x80_0000 == d && (d
        * 0x80_0000 + t) % 0x80_0000 == t) by (nonlinear_arith)
        requires
            d < 0x200,
            t < 0x80_0000,
    ;
}

/// Packing a valid item with `m` stacks and decoding the result as an item
/// gives the item back, with `m` modulo the stack span; decoding it as a rune
/// gives nothing exactly when the item's code names no rune.
pub proof fn lemma_item_round_trip(i: ItemId, m: u32)
    requires
        i.valid(),
    ensures
        ValueException::of_item(i, m).bits() as nat == packed(i.0 as nat, m as nat),
        item_of(ValueException::of_item(i, m).bits()) == Some(i),
        magnitude_of(ValueException::of_item(i, m).bits()) == m as nat % magnitude_span(),
        (i.0 as u32) >= RUNE_VARIANTS ==> rune_of(ValueException::of_item(i, m).bits()) is None,
        (i.0 as u32) < RUNE_VARIANTS ==> rune_of(ValueException::of_item(i, m).bits()) == Some(
            RuneId(i.0 as u8),
        ),
{
    lemma_spans();
    lemma_unpack(i.0 as nat, m as nat);
}

/// Packing a valid rune with `m` stacks and decoding the result as a rune
/// gives the rune back, with `m` modulo the stack span; every rune code also
/// names an item, so decoding it as an item gives the item of the same code.
pub proof fn lemma_rune_round_trip(r: RuneId, m: u32)
    requires
        r.valid(),
    ensures
        ValueException::of_rune(r, m).bits() as nat == packed(r.0 as nat, m as nat),
        rune_of(ValueException::of_rune(r, m).bits()) == Some(r),
        magnitude_of(ValueException::of_rune(r, m).bits()) == m as nat % magnitude_span(),
        item_of(ValueException::of_rune(r, m).bits()) == Some(ItemId(r.0 as u16)),
{
    lemma_spans();
    lemma_unpack(r.0 as nat, m as nat);
}

} // verus!
