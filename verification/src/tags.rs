//! Tag synthesis: for each requested statistic and each group, the output
//! field identifier `TAG_GROUP`, its value type and multiplicity, the
//! dataset-level descriptor declared once per (tag, group) pair, and the
//! typed per-variant value.

use vstd::prelude::*;
use vstd::string::StrSliceExecFns;
use vstd::string::StringExecFns;
use crate::hwe::HweParts;
use crate::stats::AfStats;
use crate::stats::Ratio;

verus! {

/// The statistics that can be requested, one per output tag.
#[derive(Clone, Copy, Debug, PartialEq, Eq, Structural)]
pub enum Tag {
    ExcHet,
    Hwe,
    Af,
    Maf,
    Mac,
    Ac,
    An,
    NHemi,
    NMiss,
    NHomref,
    NHet,
    NHomalt,
}

/// The textual name of a tag, the first half of each field identifier.
pub open spec fn spec_tag_label(t: Tag) -> Seq<char> {
    match t {
        Tag::ExcHet => "ExcHet"@,
        Tag::Hwe => "HWE"@,
        Tag::Af => "AF"@,
        Tag::Maf => "MAF"@,
        Tag::Mac => "MAC"@,
        Tag::Ac => "AC"@,
        Tag::An => "AN"@,
        Tag::NHemi => "N_HEMI"@,
        Tag::NMiss => "N_MISS"@,
        Tag::NHomref => "N_HOMREF"@,
        Tag::NHet => "N_HET"@,
        Tag::NHomalt => "N_HOMALT"@,
    }
}

pub fn tag_label(t: Tag) -> (s: &'static str)
    ensures
        s@ == spec_tag_label(t),
{
    match t {
        Tag::ExcHet => "ExcHet",
        Tag::Hwe => "HWE",
        Tag::Af => "AF",
        Tag::Maf => "MAF",
        Tag::Mac => "MAC",
        Tag::Ac => "AC",
        Tag::An => "AN",
        Tag::NHemi => "N_HEMI",
        Tag::NMiss => "N_MISS",
        Tag::NHomref => "N_HOMREF",
        Tag::NHet => "N_HET",
        Tag::NHomalt => "N_HOMALT",
    }
}

/// The value type a tag's field is declared with.
#[derive(Clone, Copy, Debug, PartialEq, Eq, Structural)]
pub enum ValueType {
    Integer,
    Float,
}

/// How many values a tag's field carries per record: exactly one, or one per
/// alternate allele for the allele-indexed count tags.
#[derive(Clone, Copy, Debug, PartialEq, Eq, Structural)]
pub enum Multiplicity {
    One,
    PerAltAllele,
}

/// Frequencies and the significance value are floating point; every count
/// and the excess-heterozygosity flag are integers.
pub open spec fn spec_tag_type(t: Tag) -> ValueType {
    match t {
        Tag::Af | Tag::Maf | Tag::Hwe => ValueType::Float,
        _ => ValueType::Integer,
    }
}

pub fn tag_type(t: Tag) -> (v: ValueType)
    ensures
        v == spec_tag_type(t),
{
    match t {
        Tag::Af | Tag::Maf | Tag::Hwe => ValueType::Float,
        _ => ValueType::Integer,
    }
}

/// The allele-indexed count tags carry one value per alternate allele; every
/// other tag is a scalar.
pub open spec fn spec_tag_multiplicity(t: Tag) -> Multiplicity {
    match t {
        Tag::Ac | Tag::Mac => Multiplicity::PerAltAllele,
        _ => Multiplicity::One,
    }
}

pub fn tag_multiplicity(t: Tag) -> (m: Multiplicity)
    ensures
        m == spec_tag_multiplicity(t),
{
    match t {
        Tag::Ac | Tag::Mac => Multiplicity::PerAltAllele,
        _ => Multiplicity::One,
    }
}

/// The ten aggregate statistics, in declaration order: what the "all"
/// selection requests. The two Hardy-Weinberg signal tags are requested by
/// name only.
pub open spec fn spec_all_stat_tags() -> Seq<Tag> {
    seq![
        Tag::Af,
        Tag::Maf,
        Tag::Mac,
        Tag::Ac,
        Tag::An,
        Tag::NHemi,
        Tag::NMiss,
        Tag::NHomref,
        Tag::NHet,
        Tag::NHomalt,
    ]
}

pub fn all_stat_tags() -> (ts: Vec<Tag>)
    ensures
        ts@ == spec_all_stat_tags(),
{
    let ts: Vec<Tag> = vec![
        Tag::Af,
        Tag::Maf,
        Tag::Mac,
        Tag::Ac,
        Tag::An,
        Tag::NHemi,
        Tag::NMiss,
        Tag::NHomref,
        Tag::NHet,
        Tag::NHomalt,
    ];
    proof {
        assert(ts@ =~= spec_all_stat_tags());
    }
    ts
}

/// Every tag, the two Hardy-Weinberg signal tags first: the set whose field
/// identifiers an input dataset may already carry from an earlier run.
pub open spec fn spec_all_tags() -> Seq<Tag> {
    seq![Tag::ExcHet, Tag::Hwe] + spec_all_stat_tags()
}

pub fn all_tags() -> (ts: Vec<Tag>)
    ensures
        ts@ == spec_all_tags(),
{
    let ts: Vec<Tag> = vec![
        Tag::ExcHet,
        Tag::Hwe,
        Tag::Af,
        Tag::Maf,
        Tag::Mac,
        Tag::Ac,
        Tag::An,
        Tag::NHemi,
        Tag::NMiss,
        Tag::NHomref,
        Tag::NHet,
        Tag::NHomalt,
    ];
    proof {
        assert(ts@ =~= spec_all_tags());
    }
    ts
}

/// `p` is a prefix of `s`.
pub open spec fn is_prefix(p: Seq<char>, s: Seq<char>) -> bool {
    p.len() <= s.len() && forall|i: int| 0 <= i < p.len() ==> p[i] == s[i]
}

fn has_char_prefix(s: &str, p: &str) -> (r: bool)
    ensures
        r == is_prefix(p@, s@),
{
    let pn = p.unicode_len();
    let sn = s.unicode_len();
    if pn > sn {
        return false;
    }
    let mut i: usize = 0;
    while i < pn
        invariant
            i <= pn,
            pn == p@.len(),
            pn <= sn,
            sn == s@.len(),
            forall|k: int| 0 <= k < i ==> p@[k] == s@[k],
        decreases pn - i,
    {
        if p.get_char(i) != s.get_char(i) {
            return false;
        }
        i = i + 1;
    }
    true
}

/// A field identifier that one of this library's tags could have produced
/// for some group: it starts with a tag label and the underscore separator.
pub open spec fn spec_related_id(id: Seq<char>) -> bool {
    exists|k: int|
        0 <= k < spec_all_tags().len() && is_prefix(
            spec_tag_label(spec_all_tags()[k]) + "_"@,
            id,
        )
}

/// Whether an existing field identifier collides with the ones this library
/// declares, so that its per-record values must be cleared before
/// annotation.
pub fn related_id(id: &String) -> (r: bool)
    ensures
        r == spec_related_id(id@),
{
    let ts = all_tags();
    let n = ts.len();
    let mut k: usize = 0;
    while k < n
        invariant
            k <= n,
            ts@ == spec_all_tags(),
            n == spec_all_tags().len(),
            forall|l: int|
                0 <= l < k ==> !is_prefix(spec_tag_label(spec_all_tags()[l]) + "_"@, id@),
        decreases n - k,
    {
        let mut p = tag_label(ts[k]).to_owned();
        p.append("_");
        if has_char_prefix(id.as_str(), p.as_str()) {
            return true;
        }
        k = k + 1;
    }
    false
}

/// The predicate `related_ids` filters by, as one value.
pub open spec fn related_pred() -> spec_fn(String) -> bool {
    |s: String| spec_related_id(s@)
}

/// The field identifiers among `ids` that collide with the ones this
/// library declares, in order.
pub fn related_ids(ids: &Vec<String>) -> (r: Vec<String>)
    ensures
        r@ == ids@.filter(related_pred()),
{
    let n = ids.len();
    let mut r: Vec<String> = Vec::new();
    let mut i: usize = 0;
    while i < n
        invariant
            i <= n,
            n == ids@.len(),
            r@ == ids@.take(i as int).filter(related_pred()),
        decreases n - i,
    {
        proof {
            reveal(Seq::filter);
            assert(ids@.take(i + 1).drop_last() =~= ids@.take(i as int));
            assert(ids@.take(i + 1).last() == ids@[i as int]);
            assert(related_pred()(ids@[i as int]) == spec_related_id(ids@[i as int]@));
        }
        if related_id(&ids[i]) {
            r.push(ids[i].clone());
        }
        i = i + 1;
    }
    proof {
        assert(ids@.take(n as int) =~= ids@);
    }
    r
}

/// Every tag occurs in `spec_all_tags()`.
pub proof fn lemma_all_tags_complete(t: Tag)
    ensures
        spec_all_tags().contains(t),
{
    match t {
        Tag::ExcHet => assert(spec_all_tags()[0] == t),
        Tag::Hwe => assert(spec_all_tags()[1] == t),
        Tag::Af => assert(spec_all_tags()[2] == t),
        Tag::Maf => assert(spec_all_tags()[3] == t),
        Tag::Mac => assert(spec_all_tags()[4] == t),
        Tag::Ac => assert(spec_all_tags()[5] == t),
        Tag::An => assert(spec_all_tags()[6] == t),
        Tag::NHemi => assert(spec_all_tags()[7] == t),
        Tag::NMiss => assert(spec_all_tags()[8] == t),
        Tag::NHomref => assert(spec_all_tags()[9] == t),
        Tag::NHet => assert(spec_all_tags()[10] == t),
        Tag::NHomalt => assert(spec_all_tags()[11] == t),
    }
}

fn str_eq(a: &str, b: &str) -> (r: bool)
    ensures
        r == (a@ == b@),
{
    let an = a.unicode_len();
    let bn = b.unicode_len();
    if an != bn {
        return false;
    }
    let mut i: usize = 0;
    while i < an
        invariant
            i <= an,
            an == a@.len(),
            bn == b@.len(),
            an == bn,
            forall|k: int| 0 <= k < i ==> a@[k] == b@[k],
        decreases an - i,
    {
        if a.get_char(i) != b.get_char(i) {
            return false;
        }
        i = i + 1;
    }
    proof {
        assert(a@ =~= b@);
    }
    true
}

/// Looks a tag up by its textual name: the inverse of `tag_label`, `None`
/// exactly when no tag carries the name.
pub fn tag_from_name(name: &String) -> (r: Option<Tag>)
    ensures
        (r matches Some(t) ==> spec_tag_label(t) == name@),
        (r is None ==> forall|t: Tag| spec_tag_label(t) != name@),
{
    let ts = all_tags();
    let n = ts.len();
    let mut k: usize = 0;
    while k < n
        invariant
            k <= n,
            ts@ == spec_all_tags(),
            n == spec_all_tags().len(),
            forall|l: int| 0 <= l < k ==> spec_tag_label(spec_all_tags()[l]) != name@,
        decreases n - k,
    {
        if str_eq(name.as_str(), tag_label(ts[k])) {
            return Some(ts[k]);
        }
        k = k + 1;
    }
    proof {
        assert forall|t: Tag| spec_tag_label(t) != name@ by {
            lemma_all_tags_complete(t);
            let l = choose|l: int| 0 <= l < spec_all_tags().len() && spec_all_tags()[l] == t;
            assert(spec_tag_label(spec_all_tags()[l]) != name@);
        }
    }
    None
}

/// The decimal digit character of `d` (0 through 9).
pub open spec fn digit_char(d: int) -> char {
    if d == 0 {
        '0'
    } else if d == 1 {
        '1'
    } else if d == 2 {
        '2'
    } else if d == 3 {
        '3'
    } else if d == 4 {
        '4'
    } else if d == 5 {
        '5'
    } else if d == 6 {
        '6'
    } else if d == 7 {
        '7'
    } else if d == 8 {
        '8'
    } else {
        '9'
    }
}

/// The decimal digits of `n`, most significant first.
pub open spec fn spec_decimal(n: int) -> Seq<char>
    decreases n,
{
    if n < 10 {
        seq![digit_char(n)]
    } else {
        spec_decimal(n / 10).push(digit_char(n % 10))
    }
}

fn digit_str(d: u32) -> (s: &'static str)
    requires
        d < 10,
    ensures
        s@ == seq![digit_char(d as int)],
{
    let s: &'static str = match d {
        0 => "0",
        1 => "1",
        2 => "2",
        3 => "3",
        4 => "4",
        5 => "5",
        6 => "6",
        7 => "7",
        8 => "8",
        _ => "9",
    };
    proof {
        reveal_strlit("0");
        reveal_strlit("1");
        reveal_strlit("2");
        reveal_strlit("3");
        reveal_strlit("4");
        reveal_strlit("5");
        reveal_strlit("6");
        reveal_strlit("7");
        reveal_strlit("8");
        reveal_strlit("9");
        assert(s@ =~= seq![digit_char(d as int)]);
    }
    s
}

/// Writes `n` in decimal.
pub fn u32_decimal(n: u32) -> (s: String)
    ensures
        s@ == spec_decimal(n as int),
    decreases n,
{
    if n < 10 {
        digit_str(n).to_owned()
    } else {
        let mut s = u32_decimal(n / 10);
        s.append(digit_str(n % 10));
        proof {
            assert(s@ =~= spec_decimal(n as int));
        }
        s
    }
}

/// The output field identifier of a tag for a group: `TAG_GROUP`.
pub open spec fn spec_field_id(t: Tag, group: Seq<char>) -> Seq<char> {
    spec_tag_label(t) + "_"@ + group
}

pub fn field_id(t: Tag, group: &String) -> (s: String)
    ensures
        s@ == spec_field_id(t, group@),
{
    let mut s = tag_label(t).to_owned();
    s.append("_");
    s.append(group.as_str());
    s
}

/// The human-readable description a descriptor is declared with:
/// `TAG on COUNT GROUP samples`, where `COUNT` is the number of samples the
/// label source declared for the group.
pub open spec fn spec_description(t: Tag, group: Seq<char>, count: int) -> Seq<char> {
    spec_tag_label(t) + " on "@ + spec_decimal(count) + " "@ + group + " samples"@
}

pub fn description(t: Tag, group: &String, count: u32) -> (s: String)
    ensures
        s@ == spec_description(t, group@, count as int),
{
    let mut s = tag_label(t).to_owned();
    s.append(" on ");
    let digits = u32_decimal(count);
    s.append(digits.as_str());
    s.append(" ");
    s.append(group.as_str());
    s.append(" samples");
    s
}

/// One dataset-level metadata descriptor, declared once per (tag, group)
/// pair before any variant is processed.
pub struct TagDescriptor {
    pub id: String,
    pub multiplicity: Multiplicity,
    pub typ: ValueType,
    pub desc: String,
}

/// `d` is exactly the descriptor of tag `t` for a group named `group` with
/// `count` declared samples.
pub open spec fn descriptor_ok(d: TagDescriptor, t: Tag, group: Seq<char>, count: int) -> bool {
    d.id@ == spec_field_id(t, group) && d.multiplicity == spec_tag_multiplicity(t) && d.typ
        == spec_tag_type(t) && d.desc@ == spec_description(t, group, count)
}

/// Builds the descriptor of one tag for one group.
pub fn descriptor(t: Tag, group: &String, count: u32) -> (d: TagDescriptor)
    ensures
        descriptor_ok(d, t, group@, count as int),
{
    TagDescriptor {
        id: field_id(t, group),
        multiplicity: tag_multiplicity(t),
        typ: tag_type(t),
        desc: description(t, group, count),
    }
}

/// One typed per-record value. Counts are integers; the two frequencies are
/// exact fractions; the two Hardy-Weinberg tags carry the integer part of
/// the signal, whose floating-point remainder is computed outside the
/// library.
#[derive(Clone, Copy, Debug, PartialEq, Eq, Structural)]
pub enum TagValue {
    Count(u32),
    Frac(Ratio),
    ExcHetSignal(HweParts),
    HweSignal(HweParts),
}

/// The value a tag takes from one aggregate. The allele-count tag reports
/// the alternate allele's count, one value per alternate allele of the
/// two-slot model.
pub open spec fn spec_tag_value(t: Tag, st: AfStats, parts: HweParts) -> TagValue {
    match t {
        Tag::ExcHet => TagValue::ExcHetSignal(parts),
        Tag::Hwe => TagValue::HweSignal(parts),
        Tag::Af => TagValue::Frac(st.af),
        Tag::Maf => TagValue::Frac(st.maf),
        Tag::Mac => TagValue::Count(st.mac),
        Tag::Ac => TagValue::Count(st.ac1),
        Tag::An => TagValue::Count(st.an),
        Tag::NHemi => TagValue::Count(st.n_hemi),
        Tag::NMiss => TagValue::Count(st.n_miss),
        Tag::NHomref => TagValue::Count(st.n_homref),
        Tag::NHet => TagValue::Count(st.n_het),
        Tag::NHomalt => TagValue::Count(st.n_homalt),
    }
}

pub fn tag_value(t: Tag, st: &AfStats, parts: HweParts) -> (v: TagValue)
    ensures
        v == spec_tag_value(t, *st, parts),
{
    match t {
        Tag::ExcHet => TagValue::ExcHetSignal(parts),
        Tag::Hwe => TagValue::HweSignal(parts),
        Tag::Af => TagValue::Frac(st.af),
        Tag::Maf => TagValue::Frac(st.maf),
        Tag::Mac => TagValue::Count(st.mac),
        Tag::Ac => TagValue::Count(st.ac1),
        Tag::An => TagValue::Count(st.an),
        Tag::NHemi => TagValue::Count(st.n_hemi),
        Tag::NMiss => TagValue::Count(st.n_miss),
        Tag::NHomref => TagValue::Count(st.n_homref),
        Tag::NHet => TagValue::Count(st.n_het),
        Tag::NHomalt => TagValue::Count(st.n_homalt),
    }
}

} // verus!
