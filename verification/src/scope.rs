//! The per-pipeline-activation namespace of named variables.
//!
//! Units read and write these variables through bound parameters.
//! Access is single-writer-at-a-time per tick, enforced by the
//! sequential execution of a pipeline's units, so the table itself
//! needs no locking. A read always observes the value most recently
//! written to the name, with no snapshot isolation.

use vstd::prelude::*;

use crate::values::TaggedValue;
use crate::values::ValueModel;

verus! {

/// The variable table: named slots holding the current value of each
/// variable, in insertion order, one entry per name.
pub struct Scope {
    entries: Vec<(String, TaggedValue)>,
}

/// First entry bound to `name`, scanning left to right.
pub open spec fn find_var(entries: Seq<(Seq<char>, ValueModel)>, name: Seq<char>) -> Option<
    ValueModel,
>
    decreases entries.len(),
{
    if entries.len() == 0 {
        None
    } else if entries[0].0 == name {
        Some(entries[0].1)
    } else {
        find_var(entries.drop_first(), name)
    }
}

/// What binding `name` to `v` does to the table, as seen through the
/// search: `name` now yields `v`, and every other name is untouched.
pub open spec fn scope_write_post(
    pre: Seq<(Seq<char>, ValueModel)>,
    post: Seq<(Seq<char>, ValueModel)>,
    name: Seq<char>,
    v: ValueModel,
) -> bool {
    &&& find_var(post, name) == Some(v)
    &&& forall|m: Seq<char>| m != name ==> #[trigger] find_var(post, m) == find_var(pre, m)
}

/// Entries that agree on a mismatching prefix agree on the search:
/// skipping entries whose name differs does not change the result.
proof fn lemma_find_skip(entries: Seq<(Seq<char>, ValueModel)>, name: Seq<char>, i: int)
    requires
        0 <= i <= entries.len(),
        forall|j: int| 0 <= j < i ==> entries[j].0 != name,
    ensures
        find_var(entries, name) == find_var(entries.skip(i), name),
    decreases i,
{
    if i > 0 {
        lemma_find_skip(entries, name, i - 1);
        assert(entries.skip(i - 1).drop_first() =~= entries.skip(i));
        assert(entries.skip(i - 1)[0] == entries[i - 1]);
    } else {
        assert(entries.skip(0) =~= entries);
    }
}

/// Replacing the value stored under a name leaves every other name's
/// search result unchanged.
proof fn lemma_find_update_other(
    entries: Seq<(Seq<char>, ValueModel)>,
    i: int,
    e: (Seq<char>, ValueModel),
    name: Seq<char>,
)
    requires
        0 <= i < entries.len(),
        e.0 == entries[i].0,
        name != e.0,
    ensures
        find_var(entries.update(i, e), name) == find_var(entries, name),
    decreases entries.len(),
{
    let updated = entries.update(i, e);
    if i == 0 {
        assert(updated.drop_first() =~= entries.drop_first());
    } else {
        assert(updated[0] == entries[0]);
        if entries[0].0 != name {
            assert(updated.drop_first() =~= entries.drop_first().update(i - 1, e));
            lemma_find_update_other(entries.drop_first(), i - 1, e, name);
        }
    }
}

/// Appending an entry under a fresh position changes only searches that
/// previously found nothing, and only for that entry's own name.
proof fn lemma_find_push(
    entries: Seq<(Seq<char>, ValueModel)>,
    e: (Seq<char>, ValueModel),
    name: Seq<char>,
)
    ensures
        find_var(entries.push(e), name) == if find_var(entries, name) is Some {
            find_var(entries, name)
        } else if e.0 == name {
            Some(e.1)
        } else {
            None::<ValueModel>
        },
    decreases entries.len(),
{
    if entries.len() == 0 {
        assert(entries.push(e)[0] == e);
        assert(entries.push(e).drop_first() =~= Seq::<(Seq<char>, ValueModel)>::empty());
    } else {
        assert(entries.push(e)[0] == entries[0]);
        if entries[0].0 != name {
            assert(entries.push(e).drop_first() =~= entries.drop_first().push(e));
            lemma_find_push(entries.drop_first(), e, name);
        }
    }
}

impl Scope {
    /// The mathematical content of the table: the name/value pairs in
    /// storage order.
    pub closed spec fn view(&self) -> Seq<(Seq<char>, ValueModel)> {
        self.entries@.map_values(|e: (String, TaggedValue)| (e.0@, e.1@))
    }

    pub fn new() -> (r: Scope)
        ensures
            r@ =~= Seq::<(Seq<char>, ValueModel)>::empty(),
    {
        Scope { entries: Vec::new() }
    }

    /// The current value bound to `name`, freshly read: a later write
    /// to the name is seen by the next call.
    pub fn read_var(&self, name: &String) -> (r: Option<TaggedValue>)
        ensures
            match r {
                Some(v) => find_var(self@, name@) == Some(v@),
                None => find_var(self@, name@) is None,
            },
    {
        let mut i: usize = 0;
        while i < self.entries.len()
            invariant
                i <= self.entries@.len(),
                forall|j: int| 0 <= j < i ==> #[trigger] self@[j].0 != name@,
            decreases self.entries@.len() - i,
        {
            proof {
                assert(self@[i as int] == (self.entries@[i as int].0@, self.entries@[i as int].1@));
            }
            if self.entries[i].0 == *name {
                let v = self.entries[i].1.duplicate();
                proof {
                    lemma_find_skip(self@, name@, i as int);
                    assert(self@.skip(i as int)[0] == self@[i as int]);
                }
                return Some(v);
            }
            i = i + 1;
        }
        proof {
            lemma_find_skip(self@, name@, i as int);
        }
        None
    }

    /// Whether `name` is bound at all.
    pub fn has_var(&self, name: &String) -> (r: bool)
        ensures
            r == (find_var(self@, name@) is Some),
    {
        let found = self.read_var(name);
        match found {
            Some(_) => true,
            None => false,
        }
    }

    /// Bind `name` to `value`: overwrite the existing slot, or append a
    /// fresh one. Every other name keeps its value.
    pub fn write_var(&mut self, name: &String, value: TaggedValue)
        ensures
            scope_write_post(old(self)@, final(self)@, name@, value@),
    {
        let ghost pre = self@;
        let mut i: usize = 0;
        while i < self.entries.len()
            invariant
                pre == old(self)@,
                i <= self.entries@.len(),
                self@ == pre,
                forall|j: int| 0 <= j < i ==> #[trigger] self@[j].0 != name@,
            decreases self.entries@.len() - i,
        {
            proof {
                assert(self@[i as int] == (self.entries@[i as int].0@, self.entries@[i as int].1@));
            }
            if self.entries[i].0 == *name {
                let key = name.clone();
                self.entries.set(i, (key, value));
                proof {
                    assert(self@ =~= pre.update(i as int, (name@, value@)));
                    lemma_find_skip(self@, name@, i as int);
                    assert(self@.skip(i as int)[0] == self@[i as int]);
                    assert forall|m: Seq<char>| m != name@
                        implies #[trigger] find_var(self@, m) == find_var(pre, m) by {
                        lemma_find_update_other(pre, i as int, (name@, value@), m);
                    }
                }
                return;
            }
            i = i + 1;
        }
        let key = name.clone();
        self.entries.push((key, value));
        proof {
            assert(self@ =~= pre.push((name@, value@)));
            lemma_find_skip(pre, name@, pre.len() as int);
            assert(pre.skip(pre.len() as int) =~= Seq::<(Seq<char>, ValueModel)>::empty());
            assert forall|m: Seq<char>| true
                implies #[trigger] find_var(self@, m) == (if find_var(pre, m) is Some {
                    find_var(pre, m)
                } else if name@ == m {
                    Some(value@)
                } else {
                    None::<ValueModel>
                }) by {
                lemma_find_push(pre, (name@, value@), m);
            }
        }
    }
}

} // verus!
