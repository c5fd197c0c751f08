//! The per-variant annotation orchestrator: masked extraction, aggregation,
//! the Hardy-Weinberg signal inputs, and tag emission, plus the one-time
//! declaration of every (tag, group) descriptor.

use vstd::prelude::*;
use vstd::arithmetic::div_mod::lemma_fundamental_div_mod_converse;
use crate::errors::CoreError;
use crate::genotype::Genotype;
use crate::genotype::normalize;
use crate::genotype::spec_normalize;
use crate::hwe::hwe_parts;
use crate::hwe::spec_hwe_parts;
use crate::mask::Group;
use crate::stats::calc_af;
use crate::stats::gt_has_index;
use crate::stats::lemma_het_le_counts;
use crate::stats::seq_ok;
use crate::stats::spec_afstats;
use crate::tags::Tag;
use crate::tags::TagDescriptor;
use crate::tags::TagValue;
use crate::tags::descriptor;
use crate::tags::descriptor_ok;
use crate::tags::field_id;
use crate::tags::spec_field_id;
use crate::tags::spec_tag_value;
use crate::tags::tag_value;

verus! {

/// Each call of one variant, normalized, in sample order.
pub open spec fn spec_normalized(calls: Seq<Vec<Option<u32>>>) -> Seq<Genotype> {
    calls.map_values(|c: Vec<Option<u32>>| spec_normalize(c@))
}

/// Normalizes every sample's call of one variant, in sample order.
pub fn normalize_all(calls: &Vec<Vec<Option<u32>>>) -> (g: Vec<Genotype>)
    ensures
        g@ == spec_normalized(calls@),
        g@.len() == calls@.len(),
{
    let n = calls.len();
    let mut g: Vec<Genotype> = Vec::new();
    let mut i: usize = 0;
    while i < n
        invariant
            i <= n,
            n == calls@.len(),
            g@.len() == i,
            forall|k: int| 0 <= k < i ==> g@[k] == spec_normalize((#[trigger] calls@[k])@),
        decreases n - i,
    {
        g.push(normalize(&calls[i]));
        i = i + 1;
    }
    proof {
        assert(g@ =~= spec_normalized(calls@));
    }
    g
}

/// The subsequence of `gts` selected by `mask`, in order.
pub open spec fn masked_seq(gts: Seq<Genotype>, mask: Seq<bool>) -> Seq<Genotype>
    recommends
        mask.len() == gts.len(),
    decreases gts.len(),
{
    if gts.len() == 0 {
        Seq::empty()
    } else {
        let prefix = masked_seq(gts.drop_last(), mask.drop_last());
        if mask.len() == gts.len() && mask.last() {
            prefix.push(gts.last())
        } else {
            prefix
        }
    }
}

/// A masked selection is never longer than the full sequence.
pub proof fn lemma_masked_len(gts: Seq<Genotype>, mask: Seq<bool>)
    ensures
        masked_seq(gts, mask).len() <= gts.len(),
    decreases gts.len(),
{
    if gts.len() > 0 {
        lemma_masked_len(gts.drop_last(), mask.drop_last());
    }
}

proof fn lemma_masked_take_step(gts: Seq<Genotype>, mask: Seq<bool>, i: int)
    requires
        0 <= i < gts.len(),
        mask.len() == gts.len(),
    ensures
        masked_seq(gts.take(i + 1), mask.take(i + 1)) == (if mask[i] {
            masked_seq(gts.take(i), mask.take(i)).push(gts[i])
        } else {
            masked_seq(gts.take(i), mask.take(i))
        }),
{
    assert(gts.take(i + 1).drop_last() =~= gts.take(i));
    assert(mask.take(i + 1).drop_last() =~= mask.take(i));
}

/// Selects the calls of one group, in sample order.
pub fn select_masked(gts: &Vec<Genotype>, mask: &Vec<bool>) -> (r: Vec<Genotype>)
    requires
        mask@.len() == gts@.len(),
    ensures
        r@ == masked_seq(gts@, mask@),
{
    let n = gts.len();
    let mut r: Vec<Genotype> = Vec::new();
    let mut i: usize = 0;
    while i < n
        invariant
            i <= n,
            n == gts@.len(),
            mask@.len() == n,
            r@ == masked_seq(gts@.take(i as int), mask@.take(i as int)),
        decreases n - i,
    {
        proof {
            lemma_masked_take_step(gts@, mask@, i as int);
        }
        if mask[i] {
            r.push(gts[i]);
        }
        i = i + 1;
    }
    proof {
        assert(gts@.take(n as int) =~= gts@);
        assert(mask@.take(n as int) =~= mask@);
    }
    r
}

/// The genotypes one group sees at one variant.
pub open spec fn spec_group_genotypes(calls: Seq<Vec<Option<u32>>>, mask: Seq<bool>) -> Seq<
    Genotype,
> {
    masked_seq(spec_normalized(calls), mask)
}

/// The value one tag contributes for one group's calls at one variant.
pub open spec fn spec_annotation_value(t: Tag, s: Seq<Genotype>) -> TagValue {
    let st = spec_afstats(s);
    spec_tag_value(t, st, spec_hwe_parts(st.ac0, st.ac1, st.n_het))
}

/// The declaration phase, run once before any variant: one descriptor per
/// (tag, group) pair, groups outer and requested tags inner, each naming the
/// group's declared sample count.
pub fn declare_descriptors(tags: &Vec<Tag>, groups: &Vec<Group>) -> (ds: Vec<TagDescriptor>)
    ensures
        ds@.len() == groups@.len() * tags@.len(),
        forall|j: int|
            0 <= j < ds@.len() ==> descriptor_ok(
                #[trigger] ds@[j],
                tags@[j % (tags@.len() as int)],
                groups@[j / (tags@.len() as int)].name@,
                groups@[j / (tags@.len() as int)].n_members as int,
            ),
{
    let g_len = groups.len();
    let t_len = tags.len();
    let mut ds: Vec<TagDescriptor> = Vec::new();
    let mut gi: usize = 0;
    while gi < g_len
        invariant
            gi <= g_len,
            g_len == groups@.len(),
            t_len == tags@.len(),
            ds@.len() == gi * t_len,
            forall|j: int|
                0 <= j < ds@.len() ==> descriptor_ok(
                    #[trigger] ds@[j],
                    tags@[j % (t_len as int)],
                    groups@[j / (t_len as int)].name@,
                    groups@[j / (t_len as int)].n_members as int,
                ),
        decreases g_len - gi,
    {
        let mut ti: usize = 0;
        while ti < t_len
            invariant
                gi < g_len,
                ti <= t_len,
                g_len == groups@.len(),
                t_len == tags@.len(),
                ds@.len() == gi * t_len + ti,
                forall|j: int|
                    0 <= j < ds@.len() ==> descriptor_ok(
                        #[trigger] ds@[j],
                        tags@[j % (t_len as int)],
                        groups@[j / (t_len as int)].name@,
                        groups@[j / (t_len as int)].n_members as int,
                    ),
            decreases t_len - ti,
        {
            let group = &groups[gi];
            let d = descriptor(tags[ti], &group.name, group.n_members);
            proof {
                lemma_fundamental_div_mod_converse(
                    (gi * t_len + ti) as int,
                    t_len as int,
                    gi as int,
                    ti as int,
                );
            }
            ds.push(d);
            ti = ti + 1;
        }
        proof {
            assert((gi + 1) * t_len == gi * t_len + t_len) by (nonlinear_arith);
        }
        gi = gi + 1;
    }
    ds
}

/// Annotates one variant: for every group, selects that group's calls,
/// aggregates them, derives the Hardy-Weinberg signal inputs, and emits one
/// (field identifier, typed value) pair per requested tag — groups outer,
/// tags inner. Succeeds exactly when every group's calls stay within the
/// two-slot allele model; otherwise the whole variant is rejected with the
/// offending allele index and nothing is emitted.
pub fn annotate_variant(groups: &Vec<Group>, tags: &Vec<Tag>, calls: &Vec<Vec<Option<u32>>>) -> (r:
    Result<Vec<(String, TagValue)>, CoreError>)
    requires
        calls@.len() <= 0x7FFF_FFFF,
        forall|g: int| 0 <= g < groups@.len() ==> (#[trigger] groups@[g]).mask@.len() == calls@.len(),
    ensures
        (r is Ok <==> forall|g: int|
            0 <= g < groups@.len() ==> seq_ok(
                spec_group_genotypes(calls@, (#[trigger] groups@[g]).mask@),
            )),
        (r matches Ok(vals) ==> vals@.len() == groups@.len() * tags@.len() && forall|j: int|
            0 <= j < vals@.len() ==> ((#[trigger] vals@[j]).0@ == spec_field_id(
                tags@[j % (tags@.len() as int)],
                groups@[j / (tags@.len() as int)].name@,
            ) && vals@[j].1 == spec_annotation_value(
                tags@[j % (tags@.len() as int)],
                spec_group_genotypes(calls@, groups@[j / (tags@.len() as int)].mask@),
            ))),
        (r matches Err(e) ==> (e matches CoreError::Format { allele_index } && allele_index > 1
            && exists|g: int, k: int|
            0 <= g < groups@.len() && 0 <= k < spec_group_genotypes(
                calls@,
                groups@[g].mask@,
            ).len() && gt_has_index(
                #[trigger] spec_group_genotypes(calls@, groups@[g].mask@)[k],
                allele_index,
            ))),
{
    let normalized = normalize_all(calls);
    let g_len = groups.len();
    let t_len = tags.len();
    let mut out: Vec<(String, TagValue)> = Vec::new();
    let mut gi: usize = 0;
    while gi < g_len
        invariant
            gi <= g_len,
            g_len == groups@.len(),
            t_len == tags@.len(),
            calls@.len() <= 0x7FFF_FFFF,
            normalized@ == spec_normalized(calls@),
            normalized@.len() == calls@.len(),
            forall|g: int|
                0 <= g < groups@.len() ==> (#[trigger] groups@[g]).mask@.len() == calls@.len(),
            forall|g: int|
                0 <= g < gi ==> seq_ok(spec_group_genotypes(calls@, (#[trigger] groups@[g]).mask@)),
            out@.len() == gi * t_len,
            forall|j: int|
                0 <= j < out@.len() ==> ((#[trigger] out@[j]).0@ == spec_field_id(
                    tags@[j % (t_len as int)],
                    groups@[j / (t_len as int)].name@,
                ) && out@[j].1 == spec_annotation_value(
                    tags@[j % (t_len as int)],
                    spec_group_genotypes(calls@, groups@[j / (t_len as int)].mask@),
                )),
        decreases g_len - gi,
    {
        let group = &groups[gi];
        let masked = select_masked(&normalized, &group.mask);
        proof {
            lemma_masked_len(normalized@, group.mask@);
        }
        let st = match calc_af(&masked) {
            Ok(st) => st,
            Err(e) => {
                return Err(e);
            },
        };
        proof {
            lemma_het_le_counts(masked@);
        }
        let parts = hwe_parts(st.ac0, st.ac1, st.n_het);
        let mut ti: usize = 0;
        while ti < t_len
            invariant
                gi < g_len,
                ti <= t_len,
                g_len == groups@.len(),
                t_len == tags@.len(),
                masked@ == spec_group_genotypes(calls@, groups@[gi as int].mask@),
                st == spec_afstats(masked@),
                parts == spec_hwe_parts(st.ac0, st.ac1, st.n_het),
                out@.len() == gi * t_len + ti,
                forall|j: int|
                    0 <= j < out@.len() ==> ((#[trigger] out@[j]).0@ == spec_field_id(
                        tags@[j % (t_len as int)],
                        groups@[j / (t_len as int)].name@,
                    ) && out@[j].1 == spec_annotation_value(
                        tags@[j % (t_len as int)],
                        spec_group_genotypes(calls@, groups@[j / (t_len as int)].mask@),
                    )),
            decreases t_len - ti,
        {
            let t = tags[ti];
            let id = field_id(t, &groups[gi].name);
            let v = tag_value(t, &st, parts);
            proof {
                lemma_fundamental_div_mod_converse(
                    (gi * t_len + ti) as int,
                    t_len as int,
                    gi as int,
                    ti as int,
                );
            }
            out.push((id, v));
            ti = ti + 1;
        }
        proof {
            assert((gi + 1) * t_len == gi * t_len + t_len) by (nonlinear_arith);
        }
        gi = gi + 1;
    }
    Ok(out)
}

} // verus!
