//! The set of unique attribute values found in one document.

use vstd::prelude::*;
use vstd::seq_lib::*;

verus! {

/// A set of unique attribute values. Insertion order is irrelevant and
/// duplicates collapse; the backing vector holds each value exactly once.
#[derive(Debug)]
pub struct AttributeSet {
    values: Vec<String>,
}

/// Appending one element to a sequence adds exactly that element to the set
/// of its members.
pub proof fn lemma_push_to_set(s: Seq<Seq<char>>, x: Seq<char>)
    ensures
        s.push(x).to_set() == s.to_set().insert(x),
{
    assert forall|y: Seq<char>| #[trigger] s.push(x).to_set().contains(y) implies s.to_set().insert(
        x,
    ).contains(y) by {
        let i = choose|i: int| 0 <= i < s.push(x).len() && s.push(x)[i] == y;
        if i < s.len() {
            assert(s[i] == y);
        }
    }
    assert forall|y: Seq<char>| #[trigger] s.to_set().insert(x).contains(y) implies s.push(
        x,
    ).to_set().contains(y) by {
        if y == x {
            assert(s.push(x)[s.len() as int] == y);
        } else {
            let i = choose|i: int| 0 <= i < s.len() && s[i] == y;
            assert(s.push(x)[i] == y);
        }
    }
    assert(s.push(x).to_set() =~= s.to_set().insert(x));
}

impl View for AttributeSet {
    type V = Set<Seq<char>>;

    closed spec fn view(&self) -> Set<Seq<char>> {
        self.values@.map_values(|s: String| s@).to_set()
    }
}

impl AttributeSet {
    /// The backing vector holds no value twice.
    pub closed spec fn wf(&self) -> bool {
        self.values@.map_values(|s: String| s@).no_duplicates()
    }

    pub fn new() -> (r: AttributeSet)
        ensures
            r.wf(),
            r@ == Set::<Seq<char>>::empty(),
    {
        let r = AttributeSet { values: Vec::new() };
        proof {
            assert(r.values@.map_values(|s: String| s@) =~= Seq::<Seq<char>>::empty());
            assert(r@ =~= Set::<Seq<char>>::empty());
        }
        r
    }

    pub fn contains(&self, value: &String) -> (r: bool)
        ensures
            r == self@.contains(value@),
    {
        let ghost vs = self.values@.map_values(|s: String| s@);
        let n = self.values.len();
        let mut i: usize = 0;
        while i < n
            invariant
                n == self.values.len(),
                i <= n,
                vs == self.values@.map_values(|s: String| s@),
                forall|j: int| 0 <= j < i ==> vs[j] != value@,
            decreases n - i,
        {
            if self.values[i].eq(value) {
                proof {
                    assert(vs[i as int] == value@);
                    assert(vs.contains(value@));
                }
                return true;
            }
            i += 1;
        }
        proof {
            assert(!vs.contains(value@));
        }
        false
    }

    /// Adds a value; a value already present is simply not duplicated.
    pub fn insert(&mut self, value: String)
        requires
            old(self).wf(),
        ensures
            final(self).wf(),
            final(self)@ == old(self)@.insert(value@),
    {
        let ghost vs = self.values@.map_values(|s: String| s@);
        if !self.contains(&value) {
            proof {
                assert(!vs.contains(value@));
            }
            self.values.push(value);
            proof {
                let vs2 = self.values@.map_values(|s: String| s@);
                assert(vs2 =~= vs.push(value@));
                lemma_push_to_set(vs, value@);
            }
        } else {
            proof {
                assert(vs.contains(value@));
                assert(vs.to_set() =~= vs.to_set().insert(value@));
            }
        }
    }

    /// The number of unique values held.
    pub fn len(&self) -> (n: usize)
        requires
            self.wf(),
        ensures
            n == self@.len(),
    {
        proof {
            self.values@.map_values(|s: String| s@).unique_seq_to_set();
        }
        self.values.len()
    }

    /// The values, one entry per unique value, in no promised order.
    pub fn value_list(&self) -> (r: &Vec<String>)
        requires
            self.wf(),
        ensures
            r@.map_values(|s: String| s@).to_set() == self@,
            r@.map_values(|s: String| s@).no_duplicates(),
            r@.len() == self@.len(),
    {
        proof {
            self.values@.map_values(|s: String| s@).unique_seq_to_set();
        }
        &self.values
    }

    /// The values in candidate position that the other set lacks.
    pub fn difference(&self, other: &AttributeSet) -> (r: AttributeSet)
        requires
            self.wf(),
        ensures
            r.wf(),
            r@ == self@.difference(other@),
    {
        let ghost vs = self.values@.map_values(|s: String| s@);
        let n = self.values.len();
        let mut r = AttributeSet::new();
        let mut i: usize = 0;
        while i < n
            invariant
                n == self.values.len(),
                i <= n,
                vs == self.values@.map_values(|s: String| s@),
                r.wf(),
                r@ == vs.subrange(0, i as int).to_set().difference(other@),
            decreases n - i,
        {
            let ghost prev = vs.subrange(0, i as int).to_set();
            let v = &self.values[i];
            if !other.contains(v) {
                r.insert(v.clone());
            }
            proof {
                assert(vs.subrange(0, i + 1) =~= vs.subrange(0, i as int).push(vs[i as int]));
                lemma_push_to_set(vs.subrange(0, i as int), vs[i as int]);
                if other@.contains(vs[i as int]) {
                    assert(prev.insert(vs[i as int]).difference(other@) =~= prev.difference(
                        other@,
                    ));
                } else {
                    assert(prev.insert(vs[i as int]).difference(other@) =~= prev.difference(
                        other@,
                    ).insert(vs[i as int]));
                }
            }
            i += 1;
        }
        proof {
            assert(vs.subrange(0, n as int) =~= vs);
            assert(self@ == vs.to_set());
        }
        r
    }
}

} // verus!
