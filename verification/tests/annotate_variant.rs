//! End-to-end tests of the per-variant annotation orchestrator.

use vcfgrpaf::annotate::annotate_variant;
use vcfgrpaf::annotate::declare_descriptors;
use vcfgrpaf::annotate::normalize_all;
use vcfgrpaf::annotate::select_masked;
use vcfgrpaf::errors::CoreError;
use vcfgrpaf::genotype::Genotype;
use vcfgrpaf::mask::build_mask;
use vcfgrpaf::mask::Group;
use vcfgrpaf::stats::Ratio;
use vcfgrpaf::tags::Tag;
use vcfgrpaf::tags::TagValue;

fn strings(items: &[&str]) -> Vec<String> {
    items.iter().map(|s| s.to_string()).collect()
}

fn two_groups() -> Vec<Group> {
    let order = strings(&["A", "B", "C"]);
    let g1 = strings(&["A", "B"]);
    let g2 = strings(&["C"]);
    vec![
        Group {
            name: "G1".to_string(),
            mask: build_mask(&order, &g1),
            n_members: g1.len() as u32,
        },
        Group {
            name: "G2".to_string(),
            mask: build_mask(&order, &g2),
            n_members: g2.len() as u32,
        },
    ]
}

#[test]
fn annotates_groups_and_tags_in_order() {
    let groups = two_groups();
    let tags = vec![Tag::Af, Tag::An];
    // Sample A = (0,1), B = (1,1), C = ./.
    let calls = vec![
        vec![Some(0), Some(1)],
        vec![Some(1), Some(1)],
        vec![None, None],
    ];
    let vals = annotate_variant(&groups, &tags, &calls).unwrap();
    assert_eq!(vals.len(), 4);
    assert_eq!(vals[0].0, "AF_G1");
    assert_eq!(vals[0].1, TagValue::Frac(Ratio { num: 3, den: 4 }));
    assert_eq!(vals[1].0, "AN_G1");
    assert_eq!(vals[1].1, TagValue::Count(4));
    assert_eq!(vals[2].0, "AF_G2");
    assert_eq!(vals[2].1, TagValue::Frac(Ratio { num: 0, den: 1 }));
    assert_eq!(vals[3].0, "AN_G2");
    assert_eq!(vals[3].1, TagValue::Count(0));
}

#[test]
fn variant_with_unrepresentable_allele_is_rejected() {
    let groups = two_groups();
    let tags = vec![Tag::Af];
    let calls = vec![
        vec![Some(0), Some(2)],
        vec![Some(1), Some(1)],
        vec![None, None],
    ];
    let r = annotate_variant(&groups, &tags, &calls);
    assert_eq!(r, Err(CoreError::Format { allele_index: 2 }));
}

#[test]
fn empty_group_annotates_without_error() {
    let order = strings(&["A"]);
    let members: Vec<String> = vec![];
    let groups = vec![Group {
        name: "NONE".to_string(),
        mask: build_mask(&order, &members),
        n_members: 0,
    }];
    let tags = vec![Tag::An, Tag::Af, Tag::Maf, Tag::Mac];
    let calls = vec![vec![Some(1), Some(1)]];
    let vals = annotate_variant(&groups, &tags, &calls).unwrap();
    assert_eq!(vals[0].1, TagValue::Count(0));
    assert_eq!(vals[1].1, TagValue::Frac(Ratio { num: 0, den: 1 }));
    assert_eq!(vals[2].1, TagValue::Frac(Ratio { num: 0, den: 1 }));
    assert_eq!(vals[3].1, TagValue::Count(0));
}

#[test]
fn hemizygous_and_signal_tags() {
    let order = strings(&["A", "B"]);
    let members = strings(&["A", "B"]);
    let groups = vec![Group {
        name: "g".to_string(),
        mask: build_mask(&order, &members),
        n_members: 2,
    }];
    let tags = vec![Tag::NHemi, Tag::ExcHet, Tag::Hwe];
    // A is hemizygous reference; B is heterozygous.
    let calls = vec![vec![Some(0)], vec![Some(0), Some(1)]];
    let vals = annotate_variant(&groups, &tags, &calls).unwrap();
    assert_eq!(vals[0].0, "N_HEMI_g");
    assert_eq!(vals[0].1, TagValue::Count(1));
    match vals[1].1 {
        TagValue::ExcHetSignal(p) => {
            // ac = [2, 1], n_het = 1.
            assert_eq!(p.n_homref, 0);
            assert_eq!(p.n_homalt, 0);
            assert_eq!(p.n_total, 1);
            assert_eq!(p.exp_het_num, 4);
            assert_eq!(p.exp_het_den, 2);
        }
        _ => panic!("expected the excess-heterozygosity signal"),
    }
    match vals[2].1 {
        TagValue::HweSignal(p) => assert_eq!(p.n_het, 1),
        _ => panic!("expected the Hardy-Weinberg signal"),
    }
}

#[test]
fn descriptors_declared_per_group_and_tag() {
    let groups = two_groups();
    let tags = vec![Tag::Af, Tag::Ac];
    let ds = declare_descriptors(&tags, &groups);
    assert_eq!(ds.len(), 4);
    assert_eq!(ds[0].id, "AF_G1");
    assert_eq!(ds[0].desc, "AF on 2 G1 samples");
    assert_eq!(ds[1].id, "AC_G1");
    assert_eq!(ds[2].id, "AF_G2");
    assert_eq!(ds[2].desc, "AF on 1 G2 samples");
    assert_eq!(ds[3].id, "AC_G2");
}

#[test]
fn no_groups_or_no_tags_yield_no_values() {
    let calls = vec![vec![Some(0), Some(0)]];
    let none: Vec<Group> = vec![];
    assert_eq!(
        annotate_variant(&none, &vec![Tag::Af], &calls).unwrap(),
        vec![]
    );
    let groups = two_groups();
    let calls3 = vec![
        vec![Some(0), Some(0)],
        vec![Some(0), Some(0)],
        vec![Some(0), Some(0)],
    ];
    assert_eq!(annotate_variant(&groups, &vec![], &calls3).unwrap(), vec![]);
}

#[test]
fn masked_selection_keeps_order() {
    let gts = normalize_all(&vec![
        vec![Some(0), Some(0)],
        vec![Some(1), Some(1)],
        vec![Some(0), Some(1)],
    ]);
    assert_eq!(
        gts,
        vec![
            Genotype::Diploid(Some(0), Some(0)),
            Genotype::Diploid(Some(1), Some(1)),
            Genotype::Diploid(Some(0), Some(1)),
        ]
    );
    let picked = select_masked(&gts, &vec![true, false, true]);
    assert_eq!(
        picked,
        vec![
            Genotype::Diploid(Some(0), Some(0)),
            Genotype::Diploid(Some(0), Some(1)),
        ]
    );
}
