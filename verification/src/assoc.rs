//! Lists of named entries, read by the first entry that bears a name.

use vstd::prelude::*;

use crate::text::same;

verus! {

/// The place of the first entry named `name`, or the length of the list where there is none.
pub open spec fn position<T>(entries: Seq<(String, T)>, name: Seq<char>) -> int
    decreases entries.len(),
{
    if entries.len() == 0 {
        0
    } else {
        let p = position(entries.drop_last(), name);
        if p < entries.len() - 1 || entries.last().0@ == name {
            p
        } else {
            entries.len() as int
        }
    }
}

/// Does some entry bear the name?
pub open spec fn named<T>(entries: Seq<(String, T)>, name: Seq<char>) -> bool {
    position(entries, name) < entries.len()
}

/// What `position` says of the entry it points to and of those before it.
pub proof fn lemma_position<T>(entries: Seq<(String, T)>, name: Seq<char>)
    ensures
        0 <= position(entries, name) <= entries.len(),
        named(entries, name) ==> entries[position(entries, name)].0@ == name,
        forall|j: int| 0 <= j < position(entries, name) ==> #[trigger] entries[j].0@ != name,
    decreases entries.len(),
{
    if entries.len() > 0 {
        let front = entries.drop_last();
        lemma_position(front, name);
        assert(forall|j: int| 0 <= j < front.len() ==> front[j] == #[trigger] entries[j]);
    }
}

/// `position` is the only place with these properties.
pub proof fn lemma_position_unique<T>(entries: Seq<(String, T)>, name: Seq<char>, p: int)
    requires
        0 <= p <= entries.len(),
        p < entries.len() ==> entries[p].0@ == name,
        forall|j: int| 0 <= j < p ==> #[trigger] entries[j].0@ != name,
    ensures
        position(entries, name) == p,
{
    lemma_position(entries, name);
    let q = position(entries, name);
    if q < p {
        assert(entries[q].0@ != name);
    } else if p < q {
        assert(entries[p].0@ != name);
    }
}

/// The place of the first entry named `name`, or the length of the list where there is none.
pub fn find<T>(entries: &Vec<(String, T)>, name: &str) -> (p: usize)
    ensures
        p == position(entries@, name@),
        p <= entries@.len(),
        p < entries@.len() <==> named(entries@, name@),
{
    let mut p: usize = 0;
    while p < entries.len()
        invariant
            p <= entries@.len(),
            forall|j: int| 0 <= j < p ==> #[trigger] entries@[j].0@ != name@,
        decreases entries@.len() - p,
    {
        if same(entries[p].0.as_str(), name) {
            proof {
                lemma_position_unique(entries@, name@, p as int);
            }
            return p;
        }
        p = p + 1;
    }
    proof {
        lemma_position_unique(entries@, name@, p as int);
    }
    p
}

} // verus!
