//! Tests of the statistics aggregator and its derived values.

use vcfgrpaf::errors::CoreError;
use vcfgrpaf::genotype::Genotype;
use vcfgrpaf::stats::calc_af;
use vcfgrpaf::stats::fraction;
use vcfgrpaf::stats::Ratio;

#[test]
fn two_diploid_samples_scenario() {
    // Group of two samples: calls (0,1) and (1,1).
    let calls = vec![
        Genotype::Diploid(Some(0), Some(1)),
        Genotype::Diploid(Some(1), Some(1)),
    ];
    let st = calc_af(&calls).unwrap();
    assert_eq!(st.ac0, 1);
    assert_eq!(st.ac1, 3);
    assert_eq!(st.an, 4);
    assert_eq!(st.n_het, 1);
    assert_eq!(st.n_homalt, 1);
    assert_eq!(st.n_homref, 0);
    assert_eq!(st.n_hemi, 0);
    assert_eq!(st.n_miss, 0);
    assert_eq!(st.af, Ratio { num: 3, den: 4 });
    assert_eq!(st.af.num as f64 / st.af.den as f64, 0.75);
    assert_eq!(st.mac, 1);
    assert_eq!(st.maf, Ratio { num: 1, den: 4 });
    assert_eq!(st.maf.num as f64 / st.maf.den as f64, 0.25);
}

#[test]
fn fully_missing_call_counts_miss_only() {
    // A ./. call contributes to n_miss only.
    let st = calc_af(&vec![Genotype::Missing]).unwrap();
    assert_eq!(st.n_miss, 1);
    assert_eq!(st.an, 0);
    assert_eq!(st.ac0, 0);
    assert_eq!(st.ac1, 0);
    let st2 = calc_af(&vec![Genotype::Diploid(None, None)]).unwrap();
    assert_eq!(st2.n_miss, 1);
    assert_eq!(st2.an, 0);
    assert_eq!(st2.ac0, 0);
    assert_eq!(st2.ac1, 0);
}

#[test]
fn hemizygous_reference_call() {
    let st = calc_af(&vec![Genotype::Hemi(0)]).unwrap();
    assert_eq!(st.an, 1);
    assert_eq!(st.ac0, 1);
    assert_eq!(st.ac1, 0);
    assert_eq!(st.n_hemi, 1);
    assert_eq!(st.n_miss, 0);
}

#[test]
fn partially_missing_diploid_counts_as_hemizygous() {
    let st = calc_af(&vec![Genotype::Diploid(Some(1), None)]).unwrap();
    assert_eq!(st.an, 1);
    assert_eq!(st.ac1, 1);
    assert_eq!(st.n_hemi, 1);
    let st2 = calc_af(&vec![Genotype::Diploid(None, Some(0))]).unwrap();
    assert_eq!(st2.an, 1);
    assert_eq!(st2.ac0, 1);
    assert_eq!(st2.n_hemi, 1);
}

#[test]
fn empty_group_all_zero_no_error() {
    let st = calc_af(&vec![]).unwrap();
    assert_eq!(st.an, 0);
    assert_eq!(st.ac0, 0);
    assert_eq!(st.ac1, 0);
    assert_eq!(st.n_hemi + st.n_homref + st.n_het + st.n_homalt + st.n_miss, 0);
    assert_eq!(st.mac, 0);
    assert_eq!(st.af, Ratio { num: 0, den: 1 });
    assert_eq!(st.maf, Ratio { num: 0, den: 1 });
}

#[test]
fn zero_allele_number_zero_frequencies() {
    // Only missing calls: an == 0, so af, maf and mac are all zero.
    let st = calc_af(&vec![Genotype::Missing, Genotype::Diploid(None, None)]).unwrap();
    assert_eq!(st.an, 0);
    assert_eq!(st.mac, 0);
    assert_eq!(st.af.num, 0);
    assert_eq!(st.maf.num, 0);
    assert_eq!(st.af.num as f64 / st.af.den as f64, 0.0);
}

#[test]
fn category_tallies_partition_group() {
    let calls = vec![
        Genotype::Missing,
        Genotype::Hemi(1),
        Genotype::Diploid(Some(0), Some(0)),
        Genotype::Diploid(Some(0), Some(1)),
        Genotype::Diploid(Some(1), Some(1)),
        Genotype::Diploid(Some(0), None),
        Genotype::Diploid(None, None),
    ];
    let st = calc_af(&calls).unwrap();
    assert_eq!(
        st.n_hemi + st.n_homref + st.n_het + st.n_homalt + st.n_miss,
        calls.len() as u32
    );
    assert_eq!(st.an, st.ac0 + st.ac1);
}

#[test]
fn aggregate_is_order_independent() {
    let forward = vec![
        Genotype::Diploid(Some(0), Some(1)),
        Genotype::Hemi(1),
        Genotype::Missing,
        Genotype::Diploid(Some(1), Some(1)),
    ];
    let mut backward = forward.clone();
    backward.reverse();
    assert_eq!(calc_af(&forward).unwrap(), calc_af(&backward).unwrap());
}

#[test]
fn multiallelic_index_rejected() {
    let r = calc_af(&vec![Genotype::Hemi(2)]);
    assert_eq!(r, Err(CoreError::Format { allele_index: 2 }));
    let r2 = calc_af(&vec![Genotype::Diploid(Some(0), Some(3))]);
    assert_eq!(r2, Err(CoreError::Format { allele_index: 3 }));
}

#[test]
fn fraction_zero_denominator_is_zero_fraction() {
    assert_eq!(fraction(5, 0), Ratio { num: 0, den: 1 });
    assert_eq!(fraction(5, 8), Ratio { num: 5, den: 8 });
}
