//! Text building blocks: the generated artifact is Rust source text, and every
//! template is a concatenation of literals, of the caller's texts, and of the
//! repeated groups defined here.

use vstd::prelude::*;
use vstd::string::StringExecFns;

verus! {

/// The character sequences held by a sequence of strings, in order.
pub open spec fn texts(items: Seq<String>) -> Seq<Seq<char>> {
    Seq::new(items.len(), |i: int| items[i]@)
}

/// Every item followed by `end`, concatenated in order: a repeated group.
pub open spec fn each_followed(items: Seq<Seq<char>>, end: Seq<char>) -> Seq<char>
    decreases items.len(),
{
    if items.len() == 0 {
        Seq::empty()
    } else {
        each_followed(items.drop_last(), end) + items.last() + end
    }
}

/// Item by item, `left[i]`, then `mid`, then `right[i]`.
pub open spec fn paired(left: Seq<Seq<char>>, mid: Seq<char>, right: Seq<Seq<char>>) -> Seq<
    Seq<char>,
> {
    Seq::new(left.len(), |i: int| left[i] + mid + right[i])
}

/// Every item preceded by `before` and followed by `after`, concatenated in
/// order.
pub open spec fn each_enclosed(items: Seq<Seq<char>>, before: Seq<char>, after: Seq<char>) -> Seq<
    char,
>
    decreases items.len(),
{
    if items.len() == 0 {
        Seq::empty()
    } else {
        each_enclosed(items.drop_last(), before, after) + before + items.last() + after
    }
}

/// A repeated group over no items is empty, and over one more item it grows by
/// that item and the terminator.
pub proof fn lemma_each_followed_push(items: Seq<Seq<char>>, item: Seq<char>, end: Seq<char>)
    ensures
        each_followed(Seq::<Seq<char>>::empty(), end) == Seq::<char>::empty(),
        each_followed(items.push(item), end) == each_followed(items, end) + item + end,
{
    assert(items.push(item).drop_last() =~= items);
}

/// Concatenates every item of `items`, each followed by `end`.
pub fn concat_each(items: &Vec<String>, end: &str) -> (out: String)
    ensures
        out@ == each_followed(texts(items@), end@),
{
    let mut out = String::new();
    let mut i: usize = 0;
    while i < items.len()
        invariant
            i <= items.len(),
            out@ == each_followed(texts(items@).take(i as int), end@),
        decreases items.len() - i,
    {
        out.append(items[i].as_str());
        out.append(end);
        proof {
            let all = texts(items@);
            assert(all.take(i + 1) =~= all.take(i as int).push(items@[i as int]@));
            lemma_each_followed_push(all.take(i as int), items@[i as int]@, end@);
        }
        i += 1;
    }
    proof {
        assert(texts(items@).take(i as int) =~= texts(items@));
    }
    out
}

/// Builds, item by item, `left[i]` then `mid` then `right[i]`.
pub(crate) fn pair_each(left: &Vec<String>, mid: &str, right: &Vec<String>) -> (out: Vec<String>)
    requires
        left@.len() == right@.len(),
    ensures
        out@.len() == left@.len(),
        texts(out@) == paired(texts(left@), mid@, texts(right@)),
{
    let mut out: Vec<String> = Vec::new();
    let mut i: usize = 0;
    while i < left.len()
        invariant
            i <= left.len(),
            left@.len() == right@.len(),
            out@.len() == i,
            forall|j: int| 0 <= j < i ==> #[trigger] out@[j]@ == left@[j]@ + mid@ + right@[j]@,
        decreases left.len() - i,
    {
        let mut item = left[i].clone();
        item.append(mid);
        item.append(right[i].as_str());
        out.push(item);
        i += 1;
    }
    proof {
        assert(texts(out@) =~= paired(texts(left@), mid@, texts(right@)));
    }
    out
}

/// Concatenates every item of `items`, each between `before` and `after`.
pub fn enclose_each(items: &Vec<String>, before: &str, after: &str) -> (out: String)
    ensures
        out@ == each_enclosed(texts(items@), before@, after@),
{
    let mut out = String::new();
    let mut i: usize = 0;
    while i < items.len()
        invariant
            i <= items.len(),
            out@ == each_enclosed(texts(items@).take(i as int), before@, after@),
        decreases items.len() - i,
    {
        out.append(before);
        out.append(items[i].as_str());
        out.append(after);
        proof {
            let all = texts(items@);
            assert(all.take(i + 1).drop_last() =~= all.take(i as int));
        }
        i += 1;
    }
    proof {
        assert(texts(items@).take(i as int) =~= texts(items@));
    }
    out
}

/// Copies `items` without the one at position `i`.
pub(crate) fn without(items: &Vec<String>, i: usize) -> (out: Vec<String>)
    requires
        i < items@.len(),
    ensures
        out@.len() == items@.len() - 1,
        texts(out@) == texts(items@).remove(i as int),
{
    let mut out: Vec<String> = Vec::new();
    let mut j: usize = 0;
    while j < items.len()
        invariant
            j <= items.len(),
            i < items@.len(),
            out@.len() == (if j <= i { j as int } else { j - 1 }),
            forall|k: int|
                0 <= k < out@.len() ==> #[trigger] out@[k]@ == (if k < i {
                    items@[k]@
                } else {
                    items@[k + 1]@
                }),
        decreases items.len() - j,
    {
        if j != i {
            out.push(items[j].clone());
        }
        j += 1;
    }
    proof {
        assert(texts(out@) =~= texts(items@).remove(i as int));
    }
    out
}

} // verus!
