//! Per-group population-genetics annotation for variant records.
//!
//! Given a fixed sample order, a partition of the samples into named groups,
//! and one normalized genotype call per sample per variant, this library
//! computes, per group: allele counts and allele number, genotype-category
//! tallies (homozygous reference, heterozygous, homozygous alternate,
//! hemizygous, missing), exact allele-frequency and minor-allele-frequency
//! fractions, the inputs of an approximate Hardy-Weinberg deviation signal,
//! and the typed output tags that carry these values.
//!
//! All record reading and writing stays outside the library; it consumes and
//! produces plain values only.

pub mod annotate;
pub mod errors;
pub mod genotype;
pub mod hwe;
pub mod mask;
pub mod stats;
pub mod tags;
