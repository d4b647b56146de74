//! Columns of a damage table: one per ability, where a combo ability that
//! merges two slots takes one column in place of both.
use vstd::prelude::*;
use crate::calculator::TypeMetadata;
use crate::ids::AbilityId;

verus! {

/// A combo ability that merges the damage of two ability slots: the first
/// slot's column shows the alias, the second slot's column is dropped.
#[derive(Clone, Copy, Debug, PartialEq, Eq, Structural)]
pub struct MergeData {
    pub alias: AbilityId,
    pub minimum_damage: u8,
    pub maximum_damage: u8,
}

/// What one ability column shows.
#[derive(Clone, Copy, Debug, PartialEq, Eq, Structural)]
pub enum AbilityKind {
    Alias(MergeData),
    Normal(AbilityId),
}

impl AbilityKind {
    /// The ability the column is named after.
    pub fn ability_id(&self) -> (r: AbilityId)
        ensures
            r == match *self {
                AbilityKind::Alias(m) => m.alias,
                AbilityKind::Normal(a) => a,
            },
    {
        match self {
            AbilityKind::Alias(merge) => merge.alias,
            AbilityKind::Normal(ability_id) => *ability_id,
        }
    }

    /// The column of an ability that merges with no other.
    pub fn from(value: AbilityId) -> (r: AbilityKind)
        ensures
            r == AbilityKind::Normal(value),
    {
        AbilityKind::Normal(value)
    }
}

/// Whether merge `m` names slot `i`, as first or as second slot.
pub open spec fn names_slot(m: MergeData, i: int) -> bool {
    m.maximum_damage as int == i || m.minimum_damage as int == i
}

/// Position of the first merge at or after `j` that names slot `i`.
pub open spec fn first_merge_from(merges: Seq<MergeData>, i: int, j: int) -> Option<int>
    decreases merges.len() - j,
{
    if j < 0 || j >= merges.len() {
        None
    } else if names_slot(merges[j], i) {
        Some(j)
    } else {
        first_merge_from(merges, i, j + 1)
    }
}

/// What the column of slot `i`, holding ability `kind`, shows: the first
/// merge that names the slot decides; as its second slot the column is
/// dropped, as its first slot it shows the alias; with no merge it shows
/// the ability itself.
pub open spec fn column_of(kind: AbilityId, merges: Seq<MergeData>, i: int) -> Option<AbilityKind> {
    match first_merge_from(merges, i, 0) {
        None => Some(AbilityKind::Normal(kind)),
        Some(j) => if merges[j].maximum_damage as int == i {
            None
        } else {
            Some(AbilityKind::Alias(merges[j]))
        },
    }
}

/// Columns of the first `n` slots of `meta`, in order.
pub open spec fn columns(meta: Seq<TypeMetadata<AbilityId>>, merges: Seq<MergeData>, n: nat) -> Seq<
    AbilityKind,
>
    decreases n,
{
    if n == 0 {
        Seq::empty()
    } else {
        let prev = columns(meta, merges, (n - 1) as nat);
        match column_of(meta[n - 1].kind, merges, n - 1) {
            Some(c) => prev.push(c),
            None => prev,
        }
    }
}

proof fn lemma_first_merge_skips(merges: Seq<MergeData>, i: int, j: int)
    requires
        0 <= j <= merges.len(),
        forall|k: int| 0 <= k < j ==> !names_slot(#[trigger] merges[k], i),
    ensures
        first_merge_from(merges, i, 0) == first_merge_from(merges, i, j),
    decreases j,
{
    if j > 0 {
        lemma_first_merge_skips(merges, i, j - 1);
    }
}

/// What the column of slot `i`, holding ability `kind`, shows.
fn column_for(kind: AbilityId, merges: &Vec<MergeData>, i: usize) -> (r: Option<AbilityKind>)
    ensures
        r == column_of(kind, merges@, i as int),
{
    let mut j: usize = 0;
    while j < merges.len()
        invariant
            j <= merges@.len(),
            forall|k: int| 0 <= k < j ==> !names_slot(#[trigger] merges@[k], i as int),
        decreases merges@.len() - j,
    {
        let merge = merges[j];
        if merge.maximum_damage as usize == i {
            proof {
                lemma_first_merge_skips(merges@, i as int, j as int);
            }
            return None;
        }
        if merge.minimum_damage as usize == i {
            proof {
                lemma_first_merge_skips(merges@, i as int, j as int);
            }
            return Some(AbilityKind::Alias(merge));
        }
        j = j + 1;
    }
    proof {
        lemma_first_merge_skips(merges@, i as int, j as int);
    }
    Some(AbilityKind::Normal(kind))
}

/// The ability columns of a damage table, in slot order: each slot shows its
/// ability, except that a merge shows its alias in the column of its first
/// slot and drops the column of its second.
pub fn header_abilities(meta: &Vec<TypeMetadata<AbilityId>>, merges: &Vec<MergeData>) -> (r: Vec<
    AbilityKind,
>)
    ensures
        r@ == columns(meta@, merges@, meta@.len()),
{
    let mut result: Vec<AbilityKind> = Vec::new();
    let mut i: usize = 0;
    while i < meta.len()
        invariant
            i <= meta@.len(),
            result@ == columns(meta@, merges@, i as nat),
        decreases meta@.len() - i,
    {
        match column_for(meta[i].kind, merges, i) {
            Some(c) => result.push(c),
            None => {},
        }
        i = i + 1;
    }
    result
}

} // verus!
