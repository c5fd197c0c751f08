//! The approximate Hardy-Weinberg deviation signal: the exact integer part.
//!
//! From one aggregate's reference/alternate allele counts and heterozygote
//! tally, this derives estimated homozygote class sizes, their total, and
//! the expected heterozygote count `2*ac0*ac1 / (2*n)` as an exact fraction.
//! The remaining steps of the signal — the chi-square-like statistic
//! `(n_het - exp_het)^2 / max(exp_het, 1)` and the significance value
//! `exp(-0.5 * chi_sq)` with its `1e-6` flag threshold — are floating-point
//! work and stay outside the library; when the total is zero the signal is
//! `(0, 0)` with no division at all.

use vstd::prelude::*;

verus! {

/// The integer inputs of the approximate Hardy-Weinberg signal for one
/// aggregate. `exp_het_num / exp_het_den` is the expected heterozygote
/// count; when `n_total` is 0 it is the zero fraction and the signal is
/// `(0, 0)` without further computation.
#[derive(Clone, Copy, Debug, PartialEq, Eq, Structural)]
pub struct HweParts {
    pub n_homref: u64,
    pub n_homalt: u64,
    pub n_total: u64,
    pub n_het: u32,
    pub exp_het_num: u128,
    pub exp_het_den: u128,
}

/// The integer part of the approximate Hardy-Weinberg signal:
/// `n_homref = (ac0 - n_het) / 2`, `n_homalt = (ac1 - n_het) / 2`,
/// `n_total` their sum with `n_het`, and the expected heterozygote count
/// `2*ac0*ac1 / (2*n_total)` as an exact fraction.
pub open spec fn spec_hwe_parts(ac0: u32, ac1: u32, n_het: u32) -> HweParts
    recommends
        n_het <= ac0,
        n_het <= ac1,
{
    let n_homref = ((ac0 - n_het) / 2) as u64;
    let n_homalt = ((ac1 - n_het) / 2) as u64;
    let n_total = (n_homref + n_het + n_homalt) as u64;
    HweParts {
        n_homref,
        n_homalt,
        n_total,
        n_het,
        exp_het_num: if n_total > 0 {
            (2 * ac0 * ac1) as u128
        } else {
            0
        },
        exp_het_den: if n_total > 0 {
            (2 * n_total) as u128
        } else {
            1
        },
    }
}

/// Derives the integer part of the approximate Hardy-Weinberg signal from
/// one aggregate's allele counts and heterozygote tally.
///
/// The aggregator guarantees the preconditions of any aggregate it returns:
/// each heterozygous call contributes one allele to each count.
pub fn hwe_parts(ac0: u32, ac1: u32, n_het: u32) -> (p: HweParts)
    requires
        n_het <= ac0,
        n_het <= ac1,
    ensures
        p == spec_hwe_parts(ac0, ac1, n_het),
        p.n_homref == (ac0 - n_het) / 2,
        p.n_homalt == (ac1 - n_het) / 2,
        p.n_het == n_het,
        p.n_total == p.n_homref + n_het + p.n_homalt,
        p.n_total > 0 ==> p.exp_het_num == 2 * ac0 * ac1 && p.exp_het_den == 2 * p.n_total,
        p.n_total == 0 ==> p.exp_het_num == 0 && p.exp_het_den == 1,
{
    let n_homref: u64 = ((ac0 - n_het) as u64) / 2;
    let n_homalt: u64 = ((ac1 - n_het) as u64) / 2;
    let n_total: u64 = n_homref + (n_het as u64) + n_homalt;
    let (exp_het_num, exp_het_den): (u128, u128) = if n_total > 0 {
        proof {
            assert(0 <= (ac0 as int) * (ac1 as int) < 0x10000000000000000) by (nonlinear_arith)
                requires
                    0 <= ac0 < 0x100000000,
                    0 <= ac1 < 0x100000000,
            ;
            assert(2 * (ac0 as int) * (ac1 as int) == 2 * ((ac0 as int) * (ac1 as int)))
                by (nonlinear_arith);
        }
        let prod: u128 = (ac0 as u128) * (ac1 as u128);
        (2 * prod, 2 * (n_total as u128))
    } else {
        (0, 1)
    };
    HweParts { n_homref, n_homalt, n_total, n_het, exp_het_num, exp_het_den }
}

} // verus!
