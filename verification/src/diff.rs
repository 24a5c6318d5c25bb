//! Set comparison: count delta, new values, missing values, and the
//! classification of each count for rendering.

use crate::attrset::AttributeSet;
use vstd::prelude::*;

verus! {

/// The signed difference in unique-value counts, candidate relative to
/// reference.
pub open spec fn spec_delta(reference: Set<Seq<char>>, candidate: Set<Seq<char>>) -> int {
    candidate.len() - reference.len()
}

/// The outcome of comparing two attribute-value sets, candidate relative to
/// reference.
#[derive(Debug)]
pub struct DiffReport {
    /// The unique-value count of the candidate minus that of the reference.
    pub delta: i128,
    /// Values present in the candidate but absent from the reference.
    pub new_values: AttributeSet,
    /// Values present in the reference but absent from the candidate.
    pub missing_values: AttributeSet,
}

impl DiffReport {
    pub open spec fn wf(&self) -> bool {
        self.new_values.wf() && self.missing_values.wf()
    }
}

/// Compares two attribute-value sets; a pure set operation with no failure
/// modes.
pub fn diff(reference: &AttributeSet, candidate: &AttributeSet) -> (r: DiffReport)
    requires
        reference.wf(),
        candidate.wf(),
    ensures
        r.wf(),
        r.delta == spec_delta(reference@, candidate@),
        r.new_values@ == candidate@.difference(reference@),
        r.missing_values@ == reference@.difference(candidate@),
{
    let candidate_count = candidate.len();
    let reference_count = reference.len();
    DiffReport {
        delta: candidate_count as i128 - reference_count as i128,
        new_values: candidate.difference(reference),
        missing_values: reference.difference(candidate),
    }
}

/// How a count delta is reported: the same amount, exactly one more or less
/// (singular phrasing), or a magnitude of at least two (plural phrasing).
#[derive(Debug, PartialEq, Eq, Structural)]
pub enum DeltaPhrase {
    Same,
    OneMore,
    OneLess,
    MoreBy(u128),
    LessBy(u128),
}

/// Classifies a count delta for rendering; the magnitude carried by the
/// plural cases is always at least two.
pub fn delta_phrase(delta: i128) -> (p: DeltaPhrase)
    ensures
        delta == 0 ==> p == DeltaPhrase::Same,
        delta == 1 ==> p == DeltaPhrase::OneMore,
        delta == -1 ==> p == DeltaPhrase::OneLess,
        delta > 1 ==> p == DeltaPhrase::MoreBy(delta as u128),
        delta < -1 ==> (p matches DeltaPhrase::LessBy(m) && m == -(delta as int)),
{
    if delta == 0 {
        DeltaPhrase::Same
    } else if delta == 1 {
        DeltaPhrase::OneMore
    } else if delta == -1 {
        DeltaPhrase::OneLess
    } else if delta > 1 {
        DeltaPhrase::MoreBy(delta as u128)
    } else {
        let magnitude: u128 = ((-(delta + 1)) as u128) + 1;
        proof {
            assert(magnitude == -(delta as int));
        }
        DeltaPhrase::LessBy(magnitude)
    }
}

/// How a value count is reported: none, exactly one (singular phrasing), or
/// at least two (plural phrasing).
#[derive(Debug, PartialEq, Eq, Structural)]
pub enum CountPhrase {
    Zero,
    One,
    Many(usize),
}

/// Classifies the size of a value list for rendering.
pub fn count_phrase(count: usize) -> (p: CountPhrase)
    ensures
        count == 0 ==> p == CountPhrase::Zero,
        count == 1 ==> p == CountPhrase::One,
        count > 1 ==> p == CountPhrase::Many(count),
{
    if count == 0 {
        CountPhrase::Zero
    } else if count == 1 {
        CountPhrase::One
    } else {
        CountPhrase::Many(count)
    }
}

/// Swapping the two sets flips the sign of the count delta.
pub proof fn lemma_delta_antisymmetric(a: Set<Seq<char>>, b: Set<Seq<char>>)
    ensures
        spec_delta(a, b) == -spec_delta(b, a),
{
}

/// The new values and the missing values of one comparison never share an
/// element.
pub proof fn lemma_new_missing_disjoint(reference: Set<Seq<char>>, candidate: Set<Seq<char>>)
    ensures
        candidate.difference(reference).intersect(reference.difference(candidate)) == Set::<
            Seq<char>,
        >::empty(),
{
    assert(candidate.difference(reference).intersect(reference.difference(candidate)) =~= Set::<
        Seq<char>,
    >::empty());
}

/// New values come from the candidate set alone, missing values from the
/// reference set alone.
pub proof fn lemma_differences_are_subsets(reference: Set<Seq<char>>, candidate: Set<Seq<char>>)
    ensures
        candidate.difference(reference).subset_of(candidate),
        reference.difference(candidate).subset_of(reference),
{
}

/// Comparing a set of values to itself: no delta, nothing new, nothing
/// missing.
pub proof fn lemma_identity_comparison(values: Set<Seq<char>>)
    ensures
        spec_delta(values, values) == 0,
        values.difference(values) == Set::<Seq<char>>::empty(),
{
    assert(values.difference(values) =~= Set::<Seq<char>>::empty());
}

/// A value inserted a second time changes nothing: duplicates collapse into
/// one entry.
pub proof fn lemma_duplicate_collapse(values: Set<Seq<char>>, value: Seq<char>)
    ensures
        values.insert(value).insert(value) == values.insert(value),
{
    assert(values.insert(value).insert(value) =~= values.insert(value));
}

/// Extraction is a function of the document's bytes alone: two extractions
/// from the same document yield identical sets.
pub proof fn lemma_extraction_idempotent(
    bytes: Seq<u8>,
    first: Set<Seq<char>>,
    second: Set<Seq<char>>,
)
    requires
        first == crate::scan::attr_value_set(bytes),
        second == crate::scan::attr_value_set(bytes),
    ensures
        first == second,
{
}

} // verus!
