//! Group masks: per-group boolean inclusion vectors aligned with the
//! dataset's fixed sample order, and the strict consistency check on the
//! declared group members.

use vstd::prelude::*;
use crate::errors::CoreError;

verus! {

/// One group: its name, its inclusion mask (one slot per sample of the
/// dataset's sample order), and the number of samples the label source
/// declared for it (duplicate declarations both count).
pub struct Group {
    pub name: String,
    pub mask: Vec<bool>,
    pub n_members: u32,
}

/// The sample named `s` occurs in `list`.
pub open spec fn sample_listed(list: Seq<String>, s: Seq<char>) -> bool {
    exists|i: int| 0 <= i < list.len() && list[i]@ == s
}

/// Whether the sample at position `i` of the sample order is among the
/// group's declared members.
fn is_member(members: &Vec<String>, sample: &String) -> (r: bool)
    ensures
        r == sample_listed(members@, sample@),
{
    let n = members.len();
    let mut j: usize = 0;
    while j < n
        invariant
            j <= n,
            n == members@.len(),
            forall|l: int| 0 <= l < j ==> (#[trigger] members@[l])@ != sample@,
        decreases n - j,
    {
        if members[j] == *sample {
            return true;
        }
        j = j + 1;
    }
    false
}

/// Builds a group's inclusion mask over the dataset's sample order:
/// `mask[i]` is true exactly when the sample at position `i` is among the
/// group's declared members.
pub fn build_mask(sample_order: &Vec<String>, members: &Vec<String>) -> (mask: Vec<bool>)
    ensures
        mask@.len() == sample_order@.len(),
        forall|i: int|
            0 <= i < mask@.len() ==> (mask@[i] <==> sample_listed(
                members@,
                (#[trigger] sample_order@[i])@,
            )),
{
    let n = sample_order.len();
    let mut mask: Vec<bool> = Vec::new();
    let mut i: usize = 0;
    while i < n
        invariant
            i <= n,
            n == sample_order@.len(),
            mask@.len() == i,
            forall|k: int|
                0 <= k < i ==> (mask@[k] <==> sample_listed(
                    members@,
                    (#[trigger] sample_order@[k])@,
                )),
        decreases n - i,
    {
        let found = is_member(members, &sample_order[i]);
        mask.push(found);
        i = i + 1;
    }
    mask
}

/// The strict consistency check, run before any variant is processed:
/// succeeds exactly when every declared member of a group occurs in the
/// dataset's sample order, and otherwise names an absent sample.
pub fn check_consistency(sample_order: &Vec<String>, members: &Vec<String>) -> (r: Result<
    (),
    CoreError,
>)
    ensures
        (r is Ok <==> forall|j: int|
            0 <= j < members@.len() ==> sample_listed(sample_order@, (#[trigger] members@[j])@)),
        (r matches Err(e) ==> (e matches CoreError::Consistency { sample } && !sample_listed(
            sample_order@,
            sample@,
        ) && sample_listed(members@, sample@))),
{
    let n = members.len();
    let mut j: usize = 0;
    while j < n
        invariant
            j <= n,
            n == members@.len(),
            forall|k: int|
                0 <= k < j ==> sample_listed(sample_order@, (#[trigger] members@[k])@),
        decreases n - j,
    {
        let present = is_member(sample_order, &members[j]);
        if !present {
            return Err(CoreError::Consistency { sample: members[j].clone() });
        }
        j = j + 1;
    }
    Ok(())
}

} // verus!
