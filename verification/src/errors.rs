//! Errors the core raises.
//!
//! Reading the inputs and writing the records stays outside the library, so
//! only two kinds arise here: a malformed genotype call (an allele index the
//! fixed reference/alternate count model cannot represent), and, under the
//! strict consistency check, a labelled sample that the dataset's sample
//! order does not contain.

use vstd::prelude::*;

verus! {

#[derive(Debug, PartialEq, Eq)]
pub enum CoreError {
    /// A genotype call carries an allele index greater than 1, which the
    /// two-slot (reference/alternate) allele-count model cannot represent.
    Format { allele_index: u32 },
    /// A labelled sample is absent from the dataset's sample order.
    Consistency { sample: String },
}

} // verus!
