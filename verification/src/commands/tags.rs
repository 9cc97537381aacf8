//! Sets of topics, kept as sequences: what a project's topics become when
//! topics are added to them or removed from them.

use vstd::prelude::*;
use crate::text::{
    chars_of, lemma_views_push, split, split_chars, trim, trimmed, views,
};

verus! {

/// The topics that were asked for, made ready: each without the white space
/// around it, and those that are empty then left out.
pub open spec fn cleaned(raw: Seq<Seq<char>>) -> Seq<Seq<char>>
    decreases raw.len(),
{
    if raw.len() == 0 {
        raw
    } else {
        let before = cleaned(raw.drop_last());
        let topic = trimmed(raw.last());
        if topic.len() == 0 {
            before
        } else {
            before.push(topic)
        }
    }
}

/// The topics written in one cell of a table, separated by commas.
pub open spec fn topics_of_cell(cell: Seq<char>) -> Seq<Seq<char>> {
    cleaned(split(cell, ','))
}

/// `topics` as a set in the order of first occurrence: each topic once,
/// where it first stands, and no empty topic. Topics are compared exactly,
/// character by character.
pub open spec fn tidy(topics: Seq<Seq<char>>) -> Seq<Seq<char>>
    decreases topics.len(),
{
    if topics.len() == 0 {
        topics
    } else {
        let before = tidy(topics.drop_last());
        let topic = topics.last();
        if topic.len() == 0 || before.contains(topic) {
            before
        } else {
            before.push(topic)
        }
    }
}

/// Whether `topics` is a set as the service is to have it: no topic twice
/// and none empty.
pub open spec fn is_set(topics: Seq<Seq<char>>) -> bool {
    &&& topics.no_duplicates()
    &&& forall|i: int| 0 <= i < topics.len() ==> (#[trigger] topics[i]).len() > 0
}

/// The topics of a project after `new` have been added to `current`: the
/// union of both in the order of first occurrence, the topics of `current`
/// before those of `new`. No topic stands twice in it and none is empty,
/// whatever `current` and `new` hold.
pub open spec fn with_added(current: Seq<Seq<char>>, new: Seq<Seq<char>>) -> Seq<Seq<char>> {
    tidy(current + new)
}

/// The topics of a project after `removed` have been taken out of `current`:
/// the topics of `current` that are not among `removed`, each once, where it
/// first stands, and no empty one.
pub open spec fn without(current: Seq<Seq<char>>, removed: Seq<Seq<char>>) -> Seq<Seq<char>>
    decreases current.len(),
{
    if current.len() == 0 {
        current
    } else {
        let before = without(current.drop_last(), removed);
        let topic = current.last();
        if topic.len() == 0 || removed.contains(topic) || before.contains(topic) {
            before
        } else {
            before.push(topic)
        }
    }
}

/// Tidying gives a set with the topics that were there: it holds exactly
/// the topics of `topics` that are not empty, none of them twice.
pub proof fn lemma_tidy(topics: Seq<Seq<char>>)
    ensures
        is_set(tidy(topics)),
        forall|t: Seq<char>| #[trigger]
            tidy(topics).contains(t) <==> topics.contains(t) && t.len() > 0,
        tidy(topics).len() <= topics.len(),
    decreases topics.len(),
{
    let result = tidy(topics);
    if topics.len() > 0 {
        let shorter = topics.drop_last();
        let before = tidy(shorter);
        let last = topics.last();
        lemma_tidy(shorter);
        assert forall|t: Seq<char>| #[trigger]
            result.contains(t) <==> topics.contains(t) && t.len() > 0 by {
            if result.contains(t) {
                let i = choose|i: int| 0 <= i < result.len() && result[i] == t;
                if i < before.len() {
                    assert(before[i] == t);
                    assert(before.contains(t));
                    let j = choose|j: int| 0 <= j < shorter.len() && shorter[j] == t;
                    assert(topics[j] == t);
                } else {
                    assert(topics[topics.len() - 1] == t);
                }
            }
            if topics.contains(t) && t.len() > 0 {
                let j = choose|j: int| 0 <= j < topics.len() && topics[j] == t;
                if j < shorter.len() {
                    assert(shorter[j] == t);
                    assert(before.contains(t));
                }
                if before.contains(t) {
                    let i = choose|i: int| 0 <= i < before.len() && before[i] == t;
                    assert(result[i] == t);
                } else {
                    assert(t == last);
                    assert(result[before.len() as int] == t);
                }
            }
        }
        assert forall|i: int| 0 <= i < result.len() implies (#[trigger] result[i]).len() > 0 by {
            if i < before.len() {
                assert(result[i] == before[i]);
            }
        }
        assert forall|i: int, j: int| 0 <= i < result.len() && 0 <= j < result.len() && i
            != j implies result[i] != result[j] by {
            if i < before.len() && j < before.len() {
                assert(result[i] == before[i] && result[j] == before[j]);
            } else if i < before.len() {
                assert(result[i] == before[i]);
                assert(before.contains(before[i]));
            } else {
                assert(result[j] == before[j]);
                assert(before.contains(before[j]));
            }
        }
    }
}

/// A set is left as it is.
pub proof fn lemma_tidy_keeps(topics: Seq<Seq<char>>)
    requires
        is_set(topics),
    ensures
        tidy(topics) == topics,
    decreases topics.len(),
{
    if topics.len() > 0 {
        let shorter = topics.drop_last();
        assert forall|i: int| 0 <= i < shorter.len() implies (#[trigger] shorter[i]).len() > 0 by {
            assert(shorter[i] == topics[i]);
        }
        assert forall|i: int, j: int| 0 <= i < shorter.len() && 0 <= j < shorter.len() && i
            != j implies shorter[i] != shorter[j] by {
            assert(shorter[i] == topics[i] && shorter[j] == topics[j]);
        }
        lemma_tidy_keeps(shorter);
        assert(topics[topics.len() - 1].len() > 0);
        if shorter.contains(topics.last()) {
            let j = choose|j: int| 0 <= j < shorter.len() && shorter[j] == topics.last();
            assert(topics[j] == topics[topics.len() - 1]);
        }
        assert(shorter.push(topics.last()) == topics);
    }
}

/// Topics that are there already add nothing: if every topic of `more` that
/// is not empty stands in `topics`, the two together tidy to what `topics`
/// alone tidies to.
pub proof fn lemma_tidy_absorbs(topics: Seq<Seq<char>>, more: Seq<Seq<char>>)
    requires
        forall|t: Seq<char>| more.contains(t) && t.len() > 0 ==> topics.contains(t),
    ensures
        tidy(topics + more) == tidy(topics),
    decreases more.len(),
{
    if more.len() == 0 {
        assert(topics + more == topics);
    } else {
        let shorter = more.drop_last();
        let last = more.last();
        assert((topics + more).drop_last() == topics + shorter);
        assert((topics + more).last() == last);
        assert forall|t: Seq<char>| shorter.contains(t) && t.len() > 0 implies topics.contains(
            t,
        ) by {
            let j = choose|j: int| 0 <= j < shorter.len() && shorter[j] == t;
            assert(more[j] == t);
        }
        lemma_tidy_absorbs(topics, shorter);
        lemma_tidy(topics);
        if last.len() > 0 {
            assert(more[more.len() - 1] == last);
            assert(more.contains(last));
            assert(tidy(topics).contains(last));
        }
    }
}

/// What stands first stays first: the tidied form of `topics` is the
/// beginning of the tidied form of `topics` followed by `more`.
pub proof fn lemma_tidy_prefix(topics: Seq<Seq<char>>, more: Seq<Seq<char>>)
    ensures
        tidy(topics).len() <= tidy(topics + more).len(),
        tidy(topics + more).take(tidy(topics).len() as int) == tidy(topics),
    decreases more.len(),
{
    if more.len() == 0 {
        assert(topics + more == topics);
        assert(tidy(topics).take(tidy(topics).len() as int) == tidy(topics));
    } else {
        let shorter = more.drop_last();
        assert((topics + more).drop_last() == topics + shorter);
        lemma_tidy_prefix(topics, shorter);
        let before = tidy(topics + shorter);
        assert(tidy(topics + more).take(tidy(topics).len() as int) == before.take(
            tidy(topics).len() as int,
        ));
    }
}

/// Adding gives a set, the union of what was there and what is new, in the
/// order of first occurrence: no topic stands twice in the result and none
/// is empty; it holds exactly the topics of `current` and of `new` that are
/// not empty; and the topics of `current` stand first, in their order.
pub proof fn lemma_added(current: Seq<Seq<char>>, new: Seq<Seq<char>>)
    ensures
        is_set(with_added(current, new)),
        with_added(current, new).no_duplicates(),
        forall|t: Seq<char>| #[trigger]
            with_added(current, new).contains(t) <==> (current.contains(t) || new.contains(t))
                && t.len() > 0,
        tidy(current).len() <= with_added(current, new).len(),
        with_added(current, new).take(tidy(current).len() as int) == tidy(current),
        is_set(current) ==> tidy(current) == current,
{
    lemma_tidy(current + new);
    lemma_tidy_prefix(current, new);
    if is_set(current) {
        lemma_tidy_keeps(current);
    }
    assert forall|t: Seq<char>| #[trigger]
        with_added(current, new).contains(t) <==> (current.contains(t) || new.contains(t))
            && t.len() > 0 by {
        let both = current + new;
        if both.contains(t) {
            let i = choose|i: int| 0 <= i < both.len() && both[i] == t;
            if i < current.len() {
                assert(current[i] == t);
            } else {
                assert(new[i - current.len()] == t);
            }
        }
        if current.contains(t) {
            let i = choose|i: int| 0 <= i < current.len() && current[i] == t;
            assert(both[i] == t);
        }
        if new.contains(t) {
            let i = choose|i: int| 0 <= i < new.len() && new[i] == t;
            assert(both[current.len() + i] == t);
        }
    }
}

/// Adding topics that are all there already changes nothing but what
/// tidying changes: the result is the set of the topics that were there.
pub proof fn lemma_added_present(current: Seq<Seq<char>>, new: Seq<Seq<char>>)
    requires
        forall|t: Seq<char>| new.contains(t) && t.len() > 0 ==> current.contains(t),
    ensures
        with_added(current, new) == tidy(current),
        is_set(current) ==> with_added(current, new) == current,
{
    lemma_tidy_absorbs(current, new);
    if is_set(current) {
        lemma_tidy_keeps(current);
    }
}

/// Adding the same topics a second time changes nothing: the result is what
/// adding them once gave.
pub proof fn lemma_add_idempotent(current: Seq<Seq<char>>, new: Seq<Seq<char>>)
    ensures
        with_added(with_added(current, new), new) == with_added(current, new),
{
    let once = with_added(current, new);
    lemma_added(current, new);
    lemma_tidy_absorbs(once, new);
    lemma_tidy_keeps(once);
}

/// Removing gives a set: it holds exactly the topics of `current` that are
/// not empty and not among `removed`, none of them twice.
pub proof fn lemma_without(current: Seq<Seq<char>>, removed: Seq<Seq<char>>)
    ensures
        is_set(without(current, removed)),
        forall|t: Seq<char>| #[trigger]
            without(current, removed).contains(t) <==> current.contains(t) && t.len() > 0
                && !removed.contains(t),
    decreases current.len(),
{
    let result = without(current, removed);
    if current.len() > 0 {
        let shorter = current.drop_last();
        let before = without(shorter, removed);
        let last = current.last();
        lemma_without(shorter, removed);
        assert forall|t: Seq<char>| #[trigger]
            result.contains(t) <==> current.contains(t) && t.len() > 0 && !removed.contains(
                t,
            ) by {
            if result.contains(t) {
                let i = choose|i: int| 0 <= i < result.len() && result[i] == t;
                if i < before.len() {
                    assert(before[i] == t);
                    assert(before.contains(t));
                    let j = choose|j: int| 0 <= j < shorter.len() && shorter[j] == t;
                    assert(current[j] == t);
                } else {
                    assert(current[current.len() - 1] == t);
                }
            }
            if current.contains(t) && t.len() > 0 && !removed.contains(t) {
                let j = choose|j: int| 0 <= j < current.len() && current[j] == t;
                if j < shorter.len() {
                    assert(shorter[j] == t);
                    assert(before.contains(t));
                }
                if before.contains(t) {
                    let i = choose|i: int| 0 <= i < before.len() && before[i] == t;
                    assert(result[i] == t);
                } else {
                    assert(t == last);
                    assert(result[before.len() as int] == t);
                }
            }
        }
        assert forall|i: int| 0 <= i < result.len() implies (#[trigger] result[i]).len() > 0 by {
            if i < before.len() {
                assert(result[i] == before[i]);
            }
        }
        assert forall|i: int, j: int| 0 <= i < result.len() && 0 <= j < result.len() && i
            != j implies result[i] != result[j] by {
            if i < before.len() && j < before.len() {
                assert(result[i] == before[i] && result[j] == before[j]);
            } else if i < before.len() {
                assert(result[i] == before[i]);
                assert(before.contains(before[i]));
            } else {
                assert(result[j] == before[j]);
                assert(before.contains(before[j]));
            }
        }
    }
}

/// Removing topics of which none is there changes nothing but what tidying
/// changes: the result is the set of the topics that were there, and the
/// very list that was there if that was a set.
pub proof fn lemma_remove_absent(current: Seq<Seq<char>>, removed: Seq<Seq<char>>)
    requires
        forall|t: Seq<char>| removed.contains(t) ==> !current.contains(t),
    ensures
        without(current, removed) == tidy(current),
        is_set(current) ==> without(current, removed) == current,
        forall|t: Seq<char>|
            t.len() > 0 ==> (#[trigger] without(current, removed).contains(t) <==> current.contains(
                t,
            )),
    decreases current.len(),
{
    if current.len() > 0 {
        let shorter = current.drop_last();
        assert forall|t: Seq<char>| removed.contains(t) implies !shorter.contains(t) by {
            if shorter.contains(t) {
                let j = choose|j: int| 0 <= j < shorter.len() && shorter[j] == t;
                assert(current[j] == t);
            }
        }
        lemma_remove_absent(shorter, removed);
        assert(current[current.len() - 1] == current.last());
        assert(current.contains(current.last()));
    }
    if is_set(current) {
        lemma_tidy_keeps(current);
    }
    lemma_tidy(current);
}

/// No topic that was made ready is empty.
pub proof fn lemma_cleaned_not_empty(raw: Seq<Seq<char>>)
    ensures
        forall|i: int| 0 <= i < cleaned(raw).len() ==> (#[trigger] cleaned(raw)[i]).len() > 0,
    decreases raw.len(),
{
    if raw.len() > 0 {
        let before = cleaned(raw.drop_last());
        lemma_cleaned_not_empty(raw.drop_last());
        assert forall|i: int| 0 <= i < cleaned(raw).len() implies (#[trigger] cleaned(
            raw,
        )[i]).len() > 0 by {
            if i < before.len() {
                assert(cleaned(raw)[i] == before[i]);
            }
        }
    }
}

/// Whether `topic` is one of `topics`.
pub fn has_topic(topics: &Vec<String>, topic: &String) -> (found: bool)
    ensures
        found == views(topics@).contains(topic@),
{
    let mut i: usize = 0;
    while i < topics.len()
        invariant
            i <= topics.len(),
            forall|j: int| 0 <= j < i ==> views(topics@)[j] != topic@,
        decreases topics.len() - i,
    {
        if topics[i] == *topic {
            assert(views(topics@)[i as int] == topic@);
            return true;
        }
        i += 1;
    }
    false
}

/// The topics that were asked for, made ready.
pub fn clean_topics(raw: &Vec<String>) -> (topics: Vec<String>)
    ensures
        views(topics@) == cleaned(views(raw@)),
{
    let mut topics: Vec<String> = Vec::new();
    let mut i: usize = 0;
    assert(views(raw@).take(0) == Seq::<Seq<char>>::empty());
    assert(views(topics@) == Seq::<Seq<char>>::empty());
    while i < raw.len()
        invariant
            i <= raw.len(),
            views(topics@) == cleaned(views(raw@).take(i as int)),
        decreases raw.len() - i,
    {
        let topic = trim(raw[i].as_str());
        let ghost next = views(raw@).take(i + 1);
        assert(next.drop_last() == views(raw@).take(i as int));
        assert(next.last() == raw@[i as int]@);
        if !topic.as_str().is_empty() {
            proof {
                lemma_views_push(topics@, topic);
            }
            topics.push(topic);
        }
        i += 1;
    }
    assert(views(raw@).take(raw.len() as int) == views(raw@));
    topics
}

/// The topics written in one cell of a table, separated by commas.
pub fn parse_topics(cell: &str) -> (topics: Vec<String>)
    ensures
        views(topics@) == topics_of_cell(cell@),
{
    let chars = chars_of(cell);
    let pieces = split_chars(&chars, ',');
    clean_topics(&pieces)
}

fn push_new(topics: &mut Vec<String>, topic: &String)
    ensures
        views(final(topics)@) == (if topic@.len() == 0 || views(old(topics)@).contains(topic@) {
            views(old(topics)@)
        } else {
            views(old(topics)@).push(topic@)
        }),
{
    if !topic.as_str().is_empty() && !has_topic(topics, topic) {
        let copy = topic.clone();
        proof {
            lemma_views_push(topics@, copy);
        }
        topics.push(copy);
    }
}

/// The topics of a project after `new` have been added to `current`.
pub fn add_topics(current: &Vec<String>, new: &Vec<String>) -> (topics: Vec<String>)
    ensures
        views(topics@) == with_added(views(current@), views(new@)),
{
    let mut topics: Vec<String> = Vec::new();
    let mut k: usize = 0;
    assert(views(current@).take(0) == Seq::<Seq<char>>::empty());
    assert(views(topics@) == Seq::<Seq<char>>::empty());
    while k < current.len()
        invariant
            k <= current.len(),
            views(topics@) == tidy(views(current@).take(k as int)),
        decreases current.len() - k,
    {
        let ghost next = views(current@).take(k + 1);
        assert(next.drop_last() == views(current@).take(k as int));
        assert(next.last() == current@[k as int]@);
        push_new(&mut topics, &current[k]);
        k += 1;
    }
    assert(views(current@).take(current.len() as int) == views(current@));
    let mut i: usize = 0;
    assert(views(new@).take(0) == Seq::<Seq<char>>::empty());
    assert(views(current@) + views(new@).take(0) == views(current@));
    while i < new.len()
        invariant
            i <= new.len(),
            views(topics@) == tidy(views(current@) + views(new@).take(i as int)),
        decreases new.len() - i,
    {
        let ghost next = views(current@) + views(new@).take(i + 1);
        assert(next.drop_last() == views(current@) + views(new@).take(i as int));
        assert(next.last() == new@[i as int]@);
        push_new(&mut topics, &new[i]);
        i += 1;
    }
    assert(views(new@).take(new.len() as int) == views(new@));
    topics
}

/// The topics of a project after `removed` have been taken out of `current`.
pub fn remove_topics(current: &Vec<String>, removed: &Vec<String>) -> (topics: Vec<String>)
    ensures
        views(topics@) == without(views(current@), views(removed@)),
{
    let mut topics: Vec<String> = Vec::new();
    let mut i: usize = 0;
    assert(views(current@).take(0) == Seq::<Seq<char>>::empty());
    assert(views(topics@) == Seq::<Seq<char>>::empty());
    while i < current.len()
        invariant
            i <= current.len(),
            views(topics@) == without(views(current@).take(i as int), views(removed@)),
        decreases current.len() - i,
    {
        let ghost next = views(current@).take(i + 1);
        assert(next.drop_last() == views(current@).take(i as int));
        assert(next.last() == current@[i as int]@);
        if !has_topic(removed, &current[i]) {
            push_new(&mut topics, &current[i]);
        }
        i += 1;
    }
    assert(views(current@).take(current.len() as int) == views(current@));
    topics
}

} // verus!
