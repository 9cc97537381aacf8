//! Rewriting the content of a file before it is uploaded: literal
//! replacements, applied one after the other to the whole text.

use vstd::prelude::*;
use crate::text::{chars_of, split, split_chars, string_of, views};

verus! {

/// `text` with `new` put before each of its characters and behind the last.
pub open spec fn interleaved(text: Seq<char>, new: Seq<char>) -> Seq<char>
    decreases text.len(),
{
    if text.len() == 0 {
        new
    } else {
        new + seq![text.first()] + interleaved(text.drop_first(), new)
    }
}

/// `text` with every occurrence of `old` replaced by `new`. Occurrences are
/// found from the left and do not overlap: behind a replaced occurrence the
/// search goes on with what follows it. An empty `old` occurs before each
/// character and at the end.
pub open spec fn replaced(text: Seq<char>, old: Seq<char>, new: Seq<char>) -> Seq<char>
    decreases text.len(),
{
    if old.len() == 0 {
        interleaved(text, new)
    } else if text.len() < old.len() {
        text
    } else if text.take(old.len() as int) == old {
        new + replaced(text.skip(old.len() as int), old, new)
    } else {
        seq![text.first()] + replaced(text.drop_first(), old, new)
    }
}

/// `content` after one change. A change is written `old:new`; one that does
/// not have exactly these two parts changes nothing.
pub open spec fn changed(content: Seq<char>, change: Seq<char>) -> Seq<char> {
    let parts = split(change, ':');
    if parts.len() == 2 {
        replaced(content, parts[0], parts[1])
    } else {
        content
    }
}

/// `content` after the changes, applied in order, each to what the one
/// before it left.
pub open spec fn rewritten(content: Seq<char>, changes: Seq<Seq<char>>) -> Seq<char>
    decreases changes.len(),
{
    if changes.len() == 0 {
        content
    } else {
        changed(rewritten(content, changes.drop_last()), changes.last())
    }
}

/// In a text shorter than `old` nothing is replaced, so the search may as
/// well go on behind its first character.
pub proof fn lemma_replaced_short(text: Seq<char>, old: Seq<char>, new: Seq<char>)
    requires
        0 < text.len() < old.len(),
    ensures
        replaced(text, old, new) == seq![text.first()] + replaced(text.drop_first(), old, new),
{
    assert(seq![text.first()] + text.drop_first() == text);
}

fn occurs_at(text: &Vec<char>, at: usize, old: &Vec<char>) -> (yes: bool)
    requires
        at + old.len() <= text.len(),
    ensures
        yes == (text@.skip(at as int).take(old.len() as int) == old@),
{
    let ghost window = text@.skip(at as int).take(old.len() as int);
    let mut k: usize = 0;
    while k < old.len()
        invariant
            k <= old.len(),
            at + old.len() <= text.len(),
            window == text@.skip(at as int).take(old.len() as int),
            forall|j: int| 0 <= j < k ==> window[j] == old@[j],
        decreases old.len() - k,
    {
        if text[at + k] != old[k] {
            assert(window[k as int] != old@[k as int]);
            return false;
        }
        k += 1;
    }
    assert(window =~= old@);
    true
}

fn push_all(out: &mut Vec<char>, items: &Vec<char>)
    ensures
        final(out)@ == old(out)@ + items@,
{
    let mut k: usize = 0;
    while k < items.len()
        invariant
            k <= items.len(),
            out@ == old(out)@ + items@.take(k as int),
        decreases items.len() - k,
    {
        out.push(items[k]);
        assert(items@.take(k + 1) == items@.take(k as int).push(items@[k as int]));
        k += 1;
    }
    assert(items@.take(items.len() as int) == items@);
}

/// `text` with every occurrence of `old` replaced by `new`.
pub fn replace_all(text: &Vec<char>, old: &Vec<char>, new: &Vec<char>) -> (out: Vec<char>)
    ensures
        out@ == replaced(text@, old@, new@),
{
    let mut out: Vec<char> = Vec::new();
    let mut i: usize = 0;
    assert(text@.skip(0) == text@);
    if old.len() == 0 {
        while i < text.len()
            invariant
                i <= text.len(),
                old@.len() == 0,
                out@ + interleaved(text@.skip(i as int), new@) == replaced(text@, old@, new@),
            decreases text.len() - i,
        {
            let ghost rest = text@.skip(i as int);
            let ghost before = out@;
            assert(rest.drop_first() == text@.skip(i + 1));
            push_all(&mut out, new);
            out.push(text[i]);
            assert(out@ + interleaved(text@.skip(i + 1), new@) == before + interleaved(rest, new@));
            i += 1;
        }
        let ghost before = out@;
        push_all(&mut out, new);
        assert(interleaved(text@.skip(i as int), new@) == new@);
        return out;
    }
    while i < text.len()
        invariant
            i <= text.len(),
            old@.len() > 0,
            out@ + replaced(text@.skip(i as int), old@, new@) == replaced(text@, old@, new@),
        decreases text.len() - i,
    {
        let ghost rest = text@.skip(i as int);
        let ghost before = out@;
        if text.len() - i >= old.len() && occurs_at(text, i, old) {
            assert(rest.skip(old.len() as int) == text@.skip(i + old.len()));
            push_all(&mut out, new);
            assert(out@ + replaced(text@.skip(i + old.len()), old@, new@) == before + replaced(
                rest,
                old@,
                new@,
            ));
            i += old.len();
        } else {
            assert(rest.drop_first() == text@.skip(i + 1));
            proof {
                if rest.len() < old.len() {
                    lemma_replaced_short(rest, old@, new@);
                }
            }
            out.push(text[i]);
            assert(out@ + replaced(text@.skip(i + 1), old@, new@) == before + replaced(
                rest,
                old@,
                new@,
            ));
            i += 1;
        }
    }
    assert(replaced(text@.skip(i as int), old@, new@) == Seq::<char>::empty());
    assert(out@ + Seq::<char>::empty() == out@);
    out
}

/// `content` after one change.
pub fn apply_change(content: Vec<char>, change: &str) -> (out: Vec<char>)
    ensures
        out@ == changed(content@, change@),
{
    let text = chars_of(change);
    let parts = split_chars(&text, ':');
    assert(views(parts@).len() == parts.len());
    if parts.len() == 2 {
        let old = chars_of(parts[0].as_str());
        let new = chars_of(parts[1].as_str());
        replace_all(&content, &old, &new)
    } else {
        content
    }
}

/// `content` after the changes, applied in order.
pub fn rewrite(content: &str, changes: &Vec<String>) -> (out: String)
    ensures
        out@ == rewritten(content@, views(changes@)),
{
    let mut text = chars_of(content);
    let mut i: usize = 0;
    assert(views(changes@).take(0) == Seq::<Seq<char>>::empty());
    while i < changes.len()
        invariant
            i <= changes.len(),
            text@ == rewritten(content@, views(changes@).take(i as int)),
        decreases changes.len() - i,
    {
        let ghost next = views(changes@).take(i + 1);
        assert(next.drop_last() == views(changes@).take(i as int));
        assert(next.last() == changes@[i as int]@);
        text = apply_change(text, changes[i].as_str());
        i += 1;
    }
    assert(views(changes@).take(changes.len() as int) == views(changes@));
    string_of(&text)
}

} // verus!
