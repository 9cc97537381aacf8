//! Entities that the hosting service numbers, and lists of them in which no
//! entity stands twice.

use vstd::prelude::*;
use crate::models::project::{Project, ProjectView};
use crate::models::user::{User, UserView};
use crate::text::{lemma_views_push, views};

verus! {

/// An entity with a number that identifies it.
pub trait Identified: View + Sized {
    /// The number of the entity.
    spec fn number(v: Self::V) -> u64;

    /// The number of the entity.
    fn id(&self) -> (n: u64)
        ensures
            n == Self::number(self@),
    ;
}

impl Identified for Project {
    open spec fn number(v: ProjectView) -> u64 {
        v.id
    }

    fn id(&self) -> (n: u64) {
        self.id
    }
}

impl Identified for User {
    open spec fn number(v: UserView) -> u64 {
        v.id
    }

    fn id(&self) -> (n: u64) {
        self.id
    }
}

/// Whether one of `items` has the number `id`.
pub open spec fn has_number<T: Identified>(items: Seq<T::V>, id: u64) -> bool {
    exists|i: int| 0 <= i < items.len() && T::number(#[trigger] items[i]) == id
}

/// Whether no two of `items` have the same number.
pub open spec fn all_distinct<T: Identified>(items: Seq<T::V>) -> bool {
    forall|i: int, j: int|
        0 <= i < j < items.len() ==> T::number(#[trigger] items[i]) != T::number(
            #[trigger] items[j],
        )
}

/// `items` with each entity once: where several have the same number, the
/// first of them is kept, and what is kept stays in its order.
pub open spec fn distinct<T: Identified>(items: Seq<T::V>) -> Seq<T::V>
    decreases items.len(),
{
    if items.len() == 0 {
        items
    } else {
        let before = distinct::<T>(items.drop_last());
        if has_number::<T>(before, T::number(items.last())) {
            before
        } else {
            before.push(items.last())
        }
    }
}

/// What is kept has the numbers of what was given, no more and no fewer, and
/// none of them twice.
pub proof fn lemma_distinct<T: Identified>(items: Seq<T::V>)
    ensures
        all_distinct::<T>(distinct::<T>(items)),
        forall|id: u64| has_number::<T>(distinct::<T>(items), id) <==> has_number::<T>(items, id),
        distinct::<T>(items).len() <= items.len(),
    decreases items.len(),
{
    let kept = distinct::<T>(items);
    if items.len() > 0 {
        let shorter = items.drop_last();
        let before = distinct::<T>(shorter);
        lemma_distinct::<T>(shorter);
        assert forall|id: u64| has_number::<T>(kept, id) <==> has_number::<T>(items, id) by {
            if has_number::<T>(kept, id) {
                let i = choose|i: int| 0 <= i < kept.len() && T::number(#[trigger] kept[i]) == id;
                if i < before.len() {
                    assert(before[i] == kept[i]);
                    assert(has_number::<T>(before, id));
                    assert(has_number::<T>(shorter, id));
                    let j = choose|j: int|
                        0 <= j < shorter.len() && T::number(#[trigger] shorter[j]) == id;
                    assert(items[j] == shorter[j]);
                } else {
                    assert(kept[i] == items[items.len() - 1]);
                }
            }
            if has_number::<T>(items, id) {
                let j = choose|j: int| 0 <= j < items.len() && T::number(#[trigger] items[j]) == id;
                if j < shorter.len() {
                    assert(shorter[j] == items[j]);
                    assert(has_number::<T>(shorter, id));
                    assert(has_number::<T>(before, id));
                    let i = choose|i: int|
                        0 <= i < before.len() && T::number(#[trigger] before[i]) == id;
                    assert(kept[i] == before[i]);
                } else {
                    assert(items[j] == items.last());
                    if !has_number::<T>(before, id) {
                        assert(kept[before.len() as int] == items.last());
                    } else {
                        let i = choose|i: int|
                            0 <= i < before.len() && T::number(#[trigger] before[i]) == id;
                        assert(kept[i] == before[i]);
                    }
                }
            }
        }
        assert forall|i: int, j: int| 0 <= i < j < kept.len() implies T::number(
            #[trigger] kept[i],
        ) != T::number(#[trigger] kept[j]) by {
            if j < before.len() {
                assert(kept[i] == before[i] && kept[j] == before[j]);
            } else {
                assert(kept[i] == before[i]);
            }
        }
    }
}

/// A list in which no number stands twice is kept as it is.
pub proof fn lemma_distinct_keeps<T: Identified>(items: Seq<T::V>)
    requires
        all_distinct::<T>(items),
    ensures
        distinct::<T>(items) == items,
    decreases items.len(),
{
    if items.len() > 0 {
        let shorter = items.drop_last();
        assert forall|i: int, j: int| 0 <= i < j < shorter.len() implies T::number(
            #[trigger] shorter[i],
        ) != T::number(#[trigger] shorter[j]) by {
            assert(shorter[i] == items[i] && shorter[j] == items[j]);
        }
        lemma_distinct_keeps::<T>(shorter);
        if has_number::<T>(shorter, T::number(items.last())) {
            let i = choose|i: int|
                0 <= i < shorter.len() && T::number(#[trigger] shorter[i]) == T::number(
                    items.last(),
                );
            assert(shorter[i] == items[i]);
            assert(items[items.len() - 1] == items.last());
        }
        assert(shorter.push(items.last()) == items);
    }
}

/// Whether one of `items` has the number `id`.
pub fn contains_number<T: Identified>(items: &Vec<T>, id: u64) -> (found: bool)
    ensures
        found == has_number::<T>(views(items@), id),
{
    let mut i: usize = 0;
    while i < items.len()
        invariant
            i <= items.len(),
            forall|j: int| 0 <= j < i ==> T::number(#[trigger] views(items@)[j]) != id,
        decreases items.len() - i,
    {
        if items[i].id() == id {
            assert(T::number(views(items@)[i as int]) == id);
            return true;
        }
        i += 1;
    }
    false
}

/// `items` with each entity once, the first of each number.
pub fn keep_distinct<T: Identified>(items: Vec<T>) -> (kept: Vec<T>)
    ensures
        views(kept@) == distinct::<T>(views(items@)),
{
    let ghost all = items@;
    let mut kept: Vec<T> = Vec::new();
    assert(views(all.take(0)) == Seq::<T::V>::empty());
    assert(views(kept@) == Seq::<T::V>::empty());
    for item in iter: items
        invariant
            iter.seq() == all,
            views(kept@) == distinct::<T>(views(all.take(iter.index()))),
    {
        let ghost k = iter.index();
        let ghost next = views(all.take(k + 1));
        assert(next.drop_last() == views(all.take(k)));
        assert(next.last() == all[k]@);
        if !contains_number(&kept, item.id()) {
            proof {
                lemma_views_push(kept@, item);
            }
            kept.push(item);
        }
    }
    assert(all.take(all.len() as int) == all);
    kept
}

} // verus!
