//! The statistics aggregator: folds one group's normalized genotype calls at
//! one variant into allele counts, genotype-category tallies, and exact
//! frequency fractions.

use vstd::prelude::*;
use vstd::seq_lib::commutative_foldl;
use vstd::seq_lib::lemma_fold_left_permutation;
use crate::genotype::Genotype;
use crate::errors::CoreError;

verus! {

/// Mathematical model of one group's aggregate at one variant.
#[verifier::ext_equal]
pub ghost struct SpecStats {
    pub ac0: int,
    pub ac1: int,
    pub an: int,
    pub n_hemi: int,
    pub n_homref: int,
    pub n_het: int,
    pub n_homalt: int,
    pub n_miss: int,
}

pub open spec fn zero_stats() -> SpecStats {
    SpecStats {
        ac0: 0,
        ac1: 0,
        an: 0,
        n_hemi: 0,
        n_homref: 0,
        n_het: 0,
        n_homalt: 0,
        n_miss: 0,
    }
}

/// 1 when the index names the reference allele.
pub open spec fn ref_of(a: u32) -> int {
    if a == 0 {
        1
    } else {
        0
    }
}

/// 1 when the index names the (first) alternate allele.
pub open spec fn alt_of(a: u32) -> int {
    if a == 1 {
        1
    } else {
        0
    }
}

/// One observed allele: one more called allele, counted under the allele it
/// names; the call itself is tallied as hemizygous.
pub open spec fn step_one_allele(st: SpecStats, a: u32) -> SpecStats {
    SpecStats {
        ac0: st.ac0 + ref_of(a),
        ac1: st.ac1 + alt_of(a),
        an: st.an + 1,
        n_hemi: st.n_hemi + 1,
        ..st
    }
}

pub open spec fn step_missing(st: SpecStats) -> SpecStats {
    SpecStats { n_miss: st.n_miss + 1, ..st }
}

/// How one normalized call changes the aggregate.
pub open spec fn step(st: SpecStats, g: Genotype) -> SpecStats {
    match g {
        Genotype::Missing => step_missing(st),
        Genotype::Hemi(a) => step_one_allele(st, a),
        Genotype::Diploid(s0, s1) => match (s0, s1) {
            (Option::None, Option::None) => step_missing(st),
            (Option::Some(a), Option::None) => step_one_allele(st, a),
            (Option::None, Option::Some(a)) => step_one_allele(st, a),
            (Option::Some(x), Option::Some(y)) => SpecStats {
                ac0: st.ac0 + ref_of(x) + ref_of(y),
                ac1: st.ac1 + alt_of(x) + alt_of(y),
                an: st.an + 2,
                n_homref: st.n_homref + if x == y && x == 0 {
                    1int
                } else {
                    0int
                },
                n_homalt: st.n_homalt + if x == y && x == 1 {
                    1int
                } else {
                    0int
                },
                n_het: st.n_het + if !(x == y && x <= 1) {
                    1int
                } else {
                    0int
                },
                ..st
            },
        },
    }
}

/// The aggregate of a whole sequence of calls: a left fold of `step` from
/// the zero state.
pub open spec fn stats_of(s: Seq<Genotype>) -> SpecStats {
    s.fold_left(zero_stats(), |st: SpecStats, g: Genotype| step(st, g))
}

/// A call is representable when every resolved allele index is 0 or 1.
pub open spec fn gt_ok(g: Genotype) -> bool {
    match g {
        Genotype::Missing => true,
        Genotype::Hemi(a) => a <= 1,
        Genotype::Diploid(s0, s1) => (match s0 {
            Option::Some(a) => a <= 1,
            Option::None => true,
        }) && (match s1 {
            Option::Some(a) => a <= 1,
            Option::None => true,
        }),
    }
}

pub open spec fn seq_ok(s: Seq<Genotype>) -> bool {
    forall|i: int| 0 <= i < s.len() ==> gt_ok(#[trigger] s[i])
}

/// The call carries the resolved allele index `a`.
pub open spec fn gt_has_index(g: Genotype, a: u32) -> bool {
    match g {
        Genotype::Missing => false,
        Genotype::Hemi(b) => b == a,
        Genotype::Diploid(s0, s1) => s0 == Option::Some(a) || s1 == Option::Some(a),
    }
}

/// Appending one call folds one more `step`.
pub proof fn lemma_stats_take_step(s: Seq<Genotype>, i: int)
    requires
        0 <= i < s.len(),
    ensures
        stats_of(s.take(i + 1)) == step(stats_of(s.take(i)), s[i]),
{
    assert(s.take(i + 1).drop_last() =~= s.take(i));
    assert(s.take(i + 1).last() == s[i]);
}

/// Every field of the aggregate is non-negative; the two allele counts never
/// exceed the allele number; and at most two alleles are called per entry.
pub proof fn lemma_stats_bounds(s: Seq<Genotype>)
    ensures
        0 <= stats_of(s).ac0,
        0 <= stats_of(s).ac1,
        0 <= stats_of(s).an,
        0 <= stats_of(s).n_hemi,
        0 <= stats_of(s).n_homref,
        0 <= stats_of(s).n_het,
        0 <= stats_of(s).n_homalt,
        0 <= stats_of(s).n_miss,
        stats_of(s).ac0 + stats_of(s).ac1 <= stats_of(s).an,
        stats_of(s).an <= 2 * s.len(),
    decreases s.len(),
{
    if s.len() == 0 {
        assert(s =~= Seq::<Genotype>::empty());
    } else {
        lemma_stats_bounds(s.drop_last());
        assert(stats_of(s) == step(stats_of(s.drop_last()), s.last()));
    }
}

/// Every call lands in exactly one category: the five category tallies sum
/// to the number of calls.
pub proof fn lemma_category_partition(s: Seq<Genotype>)
    ensures
        stats_of(s).n_hemi + stats_of(s).n_homref + stats_of(s).n_het + stats_of(s).n_homalt
            + stats_of(s).n_miss == s.len(),
    decreases s.len(),
{
    if s.len() == 0 {
        assert(s =~= Seq::<Genotype>::empty());
    } else {
        lemma_category_partition(s.drop_last());
        assert(stats_of(s) == step(stats_of(s.drop_last()), s.last()));
    }
}

/// Where only reference/alternate indices occur, the allele number is
/// exactly the sum of the two allele counts.
pub proof fn lemma_an_counts_split(s: Seq<Genotype>)
    requires
        seq_ok(s),
    ensures
        stats_of(s).an == stats_of(s).ac0 + stats_of(s).ac1,
    decreases s.len(),
{
    if s.len() == 0 {
        assert(s =~= Seq::<Genotype>::empty());
    } else {
        assert forall|i: int| 0 <= i < s.drop_last().len() implies gt_ok(
            #[trigger] s.drop_last()[i],
        ) by {
            assert(s.drop_last()[i] == s[i]);
        }
        lemma_an_counts_split(s.drop_last());
        assert(gt_ok(s.last()));
        assert(stats_of(s) == step(stats_of(s.drop_last()), s.last()));
    }
}

/// Where only reference/alternate indices occur, each heterozygous call
/// contributes one allele to each count, so the heterozygote tally never
/// exceeds either allele count.
pub proof fn lemma_het_le_counts(s: Seq<Genotype>)
    requires
        seq_ok(s),
    ensures
        stats_of(s).n_het <= stats_of(s).ac0,
        stats_of(s).n_het <= stats_of(s).ac1,
    decreases s.len(),
{
    if s.len() == 0 {
        assert(s =~= Seq::<Genotype>::empty());
    } else {
        assert forall|i: int| 0 <= i < s.drop_last().len() implies gt_ok(
            #[trigger] s.drop_last()[i],
        ) by {
            assert(s.drop_last()[i] == s[i]);
        }
        lemma_het_le_counts(s.drop_last());
        assert(gt_ok(s.last()));
        assert(stats_of(s) == step(stats_of(s.drop_last()), s.last()));
    }
}

/// Two `step`s commute: each field gains the same two contributions in
/// either order.
#[verifier::rlimit(50)]
proof fn lemma_step_commutes(v: SpecStats, x: Genotype, y: Genotype)
    ensures
        step(step(v, x), y) == step(step(v, y), x),
{
    assert(step(step(v, x), y) =~= step(step(v, y), x));
}

/// The aggregate depends only on which calls occur, not on their order: two
/// sequences with the same multiset of calls fold to the same model
/// aggregate and so to the same counts and derived values — the allele
/// frequency among them.
pub proof fn lemma_stats_permutation(s1: Seq<Genotype>, s2: Seq<Genotype>)
    requires
        s1.to_multiset() == s2.to_multiset(),
    ensures
        stats_of(s1) == stats_of(s2),
        spec_afstats(s1) == spec_afstats(s2),
        spec_afstats(s1).af == spec_afstats(s2).af,
{
    let f = |st: SpecStats, g: Genotype| step(st, g);
    assert forall|x: Genotype, y: Genotype, v: SpecStats|
        #[trigger] f(f(v, x), y) == f(f(v, y), x) by {
        lemma_step_commutes(v, x, y);
    }
    assert(commutative_foldl(f));
    lemma_fold_left_permutation(s1, s2, f, zero_stats());
}

/// An exact fraction `num / den` with `den` at least 1.
#[derive(Clone, Copy, Debug, PartialEq, Eq, Structural)]
pub struct Ratio {
    pub num: u32,
    pub den: u32,
}

/// The fraction whose value is zero.
pub open spec fn zero_fraction() -> Ratio {
    Ratio { num: 0, den: 1 }
}

/// `num / den` as an exact fraction; the zero fraction when `den` is 0.
pub open spec fn spec_fraction(num: u32, den: u32) -> Ratio {
    if den > 0 {
        Ratio { num, den }
    } else {
        zero_fraction()
    }
}

/// Builds the fraction `num / den`, the zero fraction when `den` is 0.
pub fn fraction(num: u32, den: u32) -> (r: Ratio)
    ensures
        r == spec_fraction(num, den),
{
    if den > 0 {
        Ratio { num, den }
    } else {
        Ratio { num: 0, den: 1 }
    }
}

/// One group's aggregate at one variant: allele counts `ac0`/`ac1` for the
/// reference and (first) alternate allele, allele number `an`, the five
/// genotype-category tallies, and the derived values — allele frequency
/// `af = ac1/an`, minor allele count `mac = min(ac0, ac1)`, minor allele
/// frequency `maf = mac/an` (all three zero when `an` is 0).
#[derive(Clone, Copy, Debug, PartialEq, Eq, Structural)]
pub struct AfStats {
    pub ac0: u32,
    pub ac1: u32,
    pub an: u32,
    pub n_hemi: u32,
    pub n_homref: u32,
    pub n_het: u32,
    pub n_homalt: u32,
    pub n_miss: u32,
    pub af: Ratio,
    pub maf: Ratio,
    pub mac: u32,
}

/// The counts of `st` are exactly those of the model aggregate `m`.
pub open spec fn counts_match(st: AfStats, m: SpecStats) -> bool {
    st.ac0 == m.ac0 && st.ac1 == m.ac1 && st.an == m.an && st.n_hemi == m.n_hemi && st.n_homref
        == m.n_homref && st.n_het == m.n_het && st.n_homalt == m.n_homalt && st.n_miss == m.n_miss
}

/// The derived values of `st` follow from its counts.
pub open spec fn derived_ok(st: AfStats) -> bool {
    st.mac == (if st.ac0 <= st.ac1 {
        st.ac0
    } else {
        st.ac1
    }) && st.af == spec_fraction(st.ac1, st.an) && st.maf == spec_fraction(st.mac, st.an)
}

/// The aggregate of `s` as one value: the model counts, which all fit in
/// `u32` whenever `2 * s.len()` does, together with the derived values.
pub open spec fn spec_afstats(s: Seq<Genotype>) -> AfStats {
    let m = stats_of(s);
    let ac0 = m.ac0 as u32;
    let ac1 = m.ac1 as u32;
    let an = m.an as u32;
    let mac = if ac0 <= ac1 {
        ac0
    } else {
        ac1
    };
    AfStats {
        ac0,
        ac1,
        an,
        n_hemi: m.n_hemi as u32,
        n_homref: m.n_homref as u32,
        n_het: m.n_het as u32,
        n_homalt: m.n_homalt as u32,
        n_miss: m.n_miss as u32,
        af: spec_fraction(ac1, an),
        maf: spec_fraction(mac, an),
        mac,
    }
}

/// Folds one group's masked, normalized calls into the aggregate.
///
/// Succeeds exactly when every resolved allele index is 0 or 1; a call with
/// a larger index (a true multi-allelic alternate) cannot be represented in
/// the fixed two-slot count model and is rejected, naming that index.
pub fn calc_af(genotypes: &Vec<Genotype>) -> (r: Result<AfStats, CoreError>)
    requires
        genotypes@.len() <= 0x7FFF_FFFF,
    ensures
        r is Ok <==> seq_ok(genotypes@),
        (r matches Ok(st) ==> counts_match(st, stats_of(genotypes@)) && derived_ok(st) && st
            == spec_afstats(genotypes@)),
        (r matches Err(e) ==> (e matches CoreError::Format { allele_index } && allele_index > 1
            && exists|i: int|
            0 <= i < genotypes@.len() && gt_has_index(genotypes@[i], allele_index))),
{
    let n = genotypes.len();
    let mut ac0: u32 = 0;
    let mut ac1: u32 = 0;
    let mut an: u32 = 0;
    let mut n_hemi: u32 = 0;
    let mut n_homref: u32 = 0;
    let mut n_het: u32 = 0;
    let mut n_homalt: u32 = 0;
    let mut n_miss: u32 = 0;
    let mut i: usize = 0;
    while i < n
        invariant
            i <= n,
            n == genotypes@.len(),
            n <= 0x7FFF_FFFF,
            seq_ok(genotypes@.take(i as int)),
            ({
                let m = stats_of(genotypes@.take(i as int));
                ac0 == m.ac0 && ac1 == m.ac1 && an == m.an && n_hemi == m.n_hemi && n_homref
                    == m.n_homref && n_het == m.n_het && n_homalt == m.n_homalt && n_miss
                    == m.n_miss
            }),
        decreases n - i,
    {
        proof {
            lemma_stats_take_step(genotypes@, i as int);
            lemma_stats_bounds(genotypes@.take(i as int));
            lemma_category_partition(genotypes@.take(i as int));
        }
        let g = genotypes[i];
        match g {
            Genotype::Missing => {
                n_miss = n_miss + 1;
            },
            Genotype::Hemi(a) => {
                if a > 1 {
                    proof {
                        assert(gt_has_index(genotypes@[i as int], a));
                        assert(!gt_ok(genotypes@[i as int]));
                    }
                    return Err(CoreError::Format { allele_index: a });
                }
                an = an + 1;
                if a == 0 {
                    ac0 = ac0 + 1;
                } else {
                    ac1 = ac1 + 1;
                }
                n_hemi = n_hemi + 1;
            },
            Genotype::Diploid(s0, s1) => {
                match (s0, s1) {
                    (None, None) => {
                        n_miss = n_miss + 1;
                    },
                    (Some(a), None) => {
                        if a > 1 {
                            proof {
                                assert(gt_has_index(genotypes@[i as int], a));
                                assert(!gt_ok(genotypes@[i as int]));
                            }
                            return Err(CoreError::Format { allele_index: a });
                        }
                        an = an + 1;
                        if a == 0 {
                            ac0 = ac0 + 1;
                        } else {
                            ac1 = ac1 + 1;
                        }
                        n_hemi = n_hemi + 1;
                    },
                    (None, Some(a)) => {
                        if a > 1 {
                            proof {
                                assert(gt_has_index(genotypes@[i as int], a));
                                assert(!gt_ok(genotypes@[i as int]));
                            }
                            return Err(CoreError::Format { allele_index: a });
                        }
                        an = an + 1;
                        if a == 0 {
                            ac0 = ac0 + 1;
                        } else {
                            ac1 = ac1 + 1;
                        }
                        n_hemi = n_hemi + 1;
                    },
                    (Some(x), Some(y)) => {
                        if x > 1 {
                            proof {
                                assert(gt_has_index(genotypes@[i as int], x));
                                assert(!gt_ok(genotypes@[i as int]));
                            }
                            return Err(CoreError::Format { allele_index: x });
                        }
                        if y > 1 {
                            proof {
                                assert(gt_has_index(genotypes@[i as int], y));
                                assert(!gt_ok(genotypes@[i as int]));
                            }
                            return Err(CoreError::Format { allele_index: y });
                        }
                        an = an + 2;
                        if x == 0 {
                            ac0 = ac0 + 1;
                        } else {
                            ac1 = ac1 + 1;
                        }
                        if y == 0 {
                            ac0 = ac0 + 1;
                        } else {
                            ac1 = ac1 + 1;
                        }
                        if x == y && x == 0 {
                            n_homref = n_homref + 1;
                        } else if x == y && x == 1 {
                            n_homalt = n_homalt + 1;
                        } else {
                            n_het = n_het + 1;
                        }
                    },
                }
            },
        }
        i = i + 1;
    }
    proof {
        assert(genotypes@.take(n as int) =~= genotypes@);
    }
    let mac: u32 = if ac0 <= ac1 {
        ac0
    } else {
        ac1
    };
    let af = fraction(ac1, an);
    let maf = fraction(mac, an);
    Ok(
        AfStats {
            ac0,
            ac1,
            an,
            n_hemi,
            n_homref,
            n_het,
            n_homalt,
            n_miss,
            af,
            maf,
            mac,
        },
    )
}

/// When no alleles were called at all, both allele counts are zero, so the
/// minor allele count is zero and both frequency fractions are the zero
/// fraction: the division by the allele number never happens.
pub proof fn lemma_no_alleles_zero_frequencies(st: AfStats, s: Seq<Genotype>)
    requires
        counts_match(st, stats_of(s)),
        derived_ok(st),
        st.an == 0,
    ensures
        st.mac == 0,
        st.af == zero_fraction(),
        st.maf == zero_fraction(),
{
    lemma_stats_bounds(s);
}

} // verus!
