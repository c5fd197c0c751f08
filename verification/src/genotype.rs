//! Normalized genotype calls and the rule that normalizes a raw call.

use vstd::prelude::*;

verus! {

/// One sample's genotype call at one variant, in normalized form: either
/// wholly missing, a single-allele (hemizygous) observation, or a two-slot
/// call whose slots are each an allele index or unresolved.
///
/// An allele index of 0 is the reference allele; 1 is the (first) alternate.
#[derive(Clone, Copy, Debug, PartialEq, Eq)]
pub enum Genotype {
    Missing,
    Hemi(u32),
    Diploid(Option<u32>, Option<u32>),
}

/// Normalized form of a raw call. `slots` holds one entry per allele slot of
/// the raw call, `None` where that slot is unresolved; slots beyond the
/// second are ignored.
///
/// A call whose (first two) slots are all unresolved or absent is `Missing`;
/// a call with exactly one slot is hemizygous with that slot's index; a call
/// with two slots keeps each slot's resolved/unresolved status.
pub open spec fn spec_normalize(slots: Seq<Option<u32>>) -> Genotype {
    if slots.len() == 0 {
        Genotype::Missing
    } else if slots.len() == 1 {
        match slots[0] {
            Option::None => Genotype::Missing,
            Option::Some(a) => Genotype::Hemi(a),
        }
    } else {
        match (slots[0], slots[1]) {
            (Option::None, Option::None) => Genotype::Missing,
            (a0, a1) => Genotype::Diploid(a0, a1),
        }
    }
}

/// Normalizes one raw call.
pub fn normalize(slots: &Vec<Option<u32>>) -> (g: Genotype)
    ensures
        g == spec_normalize(slots@),
{
    if slots.len() == 0 {
        Genotype::Missing
    } else if slots.len() == 1 {
        match slots[0] {
            None => Genotype::Missing,
            Some(a) => Genotype::Hemi(a),
        }
    } else {
        match (slots[0], slots[1]) {
            (None, None) => Genotype::Missing,
            (a0, a1) => Genotype::Diploid(a0, a1),
        }
    }
}

} // verus!
