//! Tests of the genotype normalizer and the Hardy-Weinberg signal inputs.

use vcfgrpaf::genotype::normalize;
use vcfgrpaf::genotype::Genotype;
use vcfgrpaf::hwe::hwe_parts;

#[test]
fn normalize_missing_forms() {
    assert_eq!(normalize(&vec![]), Genotype::Missing);
    assert_eq!(normalize(&vec![None]), Genotype::Missing);
    assert_eq!(normalize(&vec![None, None]), Genotype::Missing);
}

#[test]
fn normalize_haploid_call() {
    assert_eq!(normalize(&vec![Some(0)]), Genotype::Hemi(0));
    assert_eq!(normalize(&vec![Some(2)]), Genotype::Hemi(2));
}

#[test]
fn normalize_diploid_keeps_partial_missingness() {
    assert_eq!(
        normalize(&vec![Some(0), Some(1)]),
        Genotype::Diploid(Some(0), Some(1))
    );
    assert_eq!(
        normalize(&vec![Some(0), None]),
        Genotype::Diploid(Some(0), None)
    );
    assert_eq!(
        normalize(&vec![None, Some(1)]),
        Genotype::Diploid(None, Some(1))
    );
}

#[test]
fn normalize_ignores_slots_beyond_second() {
    assert_eq!(
        normalize(&vec![Some(1), Some(1), Some(0)]),
        Genotype::Diploid(Some(1), Some(1))
    );
}

#[test]
fn hwe_scenario_deterministic() {
    // ac = [3, 1], n_het = 1.
    let p = hwe_parts(3, 1, 1);
    assert_eq!(p.n_homref, 1);
    assert_eq!(p.n_homalt, 0);
    assert_eq!(p.n_total, 2);
    assert_eq!(p.n_het, 1);
    assert_eq!(p.exp_het_num, 6);
    assert_eq!(p.exp_het_den, 4);

    // The floating-point remainder of the signal, from the stated formula,
    // is reproducible bit for bit.
    let exp_het = p.exp_het_num as f64 / p.exp_het_den as f64;
    assert_eq!(exp_het, 1.5);
    let diff = p.n_het as f64 - exp_het;
    let chi_sq = (diff * diff) / exp_het.max(1.0);
    assert_eq!(chi_sq, 0.25 / 1.5);
    let hwe = (-0.5 * chi_sq).exp();
    assert_eq!(hwe, (-0.5 * (0.25 / 1.5f64)).exp());
    let exc_het: i32 = if hwe < 1e-6 { 0 } else { 1 };
    assert_eq!(exc_het, 1);
}

#[test]
fn hwe_zero_total() {
    let p = hwe_parts(0, 0, 0);
    assert_eq!(p.n_total, 0);
    assert_eq!(p.exp_het_num, 0);
    assert_eq!(p.exp_het_den, 1);
}

#[test]
fn hwe_hemizygous_only_counts() {
    // Three hemizygous reference calls: ac = [3, 0], no heterozygotes.
    let p = hwe_parts(3, 0, 0);
    assert_eq!(p.n_homref, 1);
    assert_eq!(p.n_homalt, 0);
    assert_eq!(p.n_total, 1);
    assert_eq!(p.exp_het_num, 0);
    assert_eq!(p.exp_het_den, 2);
}
