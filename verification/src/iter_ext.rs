//! Shorthands for what is done with an iterator again and again.
//!
//! Every method here runs its iterator to the end. The contracts therefore
//! ask for an iterator that ends, and speak of `remaining()`: the items that
//! the iterator yields from now on.

use std::collections::HashSet;
use std::fmt::Display;
use std::hash::Hash;
use vstd::prelude::*;
use vstd::std_specs::hash::{group_hash_axioms, obeys_key_model};
use vstd::std_specs::iter::IteratorSpec;
use vstd::string::StringExecFns;
use vstd::string::to_string_from_display_ensures;

verus! {

/// `texts` one after the other, with `sep` between each two of them.
pub open spec fn joined(texts: Seq<String>, sep: Seq<char>) -> Seq<char>
    decreases texts.len(),
{
    if texts.len() == 0 {
        Seq::empty()
    } else if texts.len() == 1 {
        texts[0]@
    } else {
        joined(texts.drop_last(), sep) + sep + texts.last()@
    }
}

/// Whether `texts` holds, item for item, what the `items` display.
pub open spec fn displays<T: Display>(items: Seq<T>, texts: Seq<String>) -> bool {
    &&& texts.len() == items.len()
    &&& forall|i: int|
        0 <= i < items.len() ==> to_string_from_display_ensures::<T>(&items[i], #[trigger] texts[i])
}

/// The indices of those `items` that are marked in `kept`, in their order.
pub open spec fn kept_indices<T>(items: Seq<(usize, T)>, kept: Seq<bool>) -> Seq<usize>
    recommends
        kept.len() == items.len(),
    decreases items.len(),
{
    if items.len() == 0 {
        Seq::empty()
    } else {
        let earlier = kept_indices(items.drop_last(), kept.drop_last());
        if kept.last() {
            earlier.push(items.last().0)
        } else {
            earlier
        }
    }
}

/// Whether `kept` holds, item for item, an answer of `predicate`.
pub open spec fn answers<T, F: Fn(T) -> bool>(
    predicate: F,
    items: Seq<(usize, T)>,
    kept: Seq<bool>,
) -> bool {
    &&& kept.len() == items.len()
    &&& forall|i: int|
        0 <= i < items.len() ==> call_ensures(predicate, (items[i].1,), #[trigger] kept[i])
}

/// Collecting and showing the items of any iterator.
pub trait IterExt<T>: Iterator<Item = T> + Sized {
    /// All items of the iterator, in the order in which it yields them.
    fn collect_vec(self) -> (items: Vec<T>)
        requires
            self.obeys_prophetic_iter_laws(),
            self.decrease() is Some,
        ensures
            items@ == self.remaining(),
    ;

    /// The set of the iterator's items.
    fn collect_hashset(self) -> (items: HashSet<T>) where T: Eq + Hash
        requires
            self.obeys_prophetic_iter_laws(),
            self.decrease() is Some,
        ensures
            obeys_key_model::<T>() ==> items@ == self.remaining().to_set(),
    ;

    /// Delimits the items of the iterator with `sep` and returns a single
    /// string.
    fn display(self, sep: &str) -> (text: String) where T: Display
        requires
            self.obeys_prophetic_iter_laws(),
            self.decrease() is Some,
        ensures
            exists|texts: Seq<String>|
                displays(self.remaining(), texts) && text@ == joined(texts, sep@),
    ;
}

impl<T, I: Iterator<Item = T>> IterExt<T> for I {
    fn collect_vec(self) -> (items: Vec<T>) {
        let mut iter = self;
        let mut items: Vec<T> = Vec::new();
        loop
            invariant
                iter.obeys_prophetic_iter_laws(),
                iter.decrease() is Some,
                items@ + iter.remaining() == self.remaining(),
            ensures
                items@ == self.remaining(),
            decreases iter.decrease()->0,
        {
            match iter.next() {
                Some(item) => {
                    items.push(item);
                },
                None => {
                    break ;
                },
            }
        }
        items
    }

    fn collect_hashset(self) -> (items: HashSet<T>) where T: Eq + Hash {
        broadcast use group_hash_axioms;

        let mut iter = self;
        let mut items: HashSet<T> = HashSet::new();
        let ghost mut seen: Seq<T> = Seq::empty();
        loop
            invariant
                iter.obeys_prophetic_iter_laws(),
                iter.decrease() is Some,
                seen + iter.remaining() == self.remaining(),
                obeys_key_model::<T>() ==> items@ == seen.to_set(),
            ensures
                obeys_key_model::<T>() ==> items@ == self.remaining().to_set(),
            decreases iter.decrease()->0,
        {
            match iter.next() {
                Some(item) => {
                    proof {
                        assert(seen.push(item).to_set() =~= seen.to_set().insert(item)) by {
                            lemma_push_to_set(seen, item);
                        }
                        seen = seen.push(item);
                    }
                    items.insert(item);
                },
                None => {
                    break ;
                },
            }
        }
        items
    }

    fn display(self, sep: &str) -> (text: String) where T: Display {
        let mut iter = self;
        let mut text = String::new();
        let mut first = true;
        let ghost mut seen: Seq<T> = Seq::empty();
        let ghost mut texts: Seq<String> = Seq::empty();
        loop
            invariant
                iter.obeys_prophetic_iter_laws(),
                iter.decrease() is Some,
                seen + iter.remaining() == self.remaining(),
                displays(seen, texts),
                first <==> seen.len() == 0,
                text@ == joined(texts, sep@),
            ensures
                displays(self.remaining(), texts),
                text@ == joined(texts, sep@),
            decreases iter.decrease()->0,
        {
            match iter.next() {
                Some(item) => {
                    let shown = item.to_string();
                    if !first {
                        text.append(sep);
                    }
                    text.append(shown.as_str());
                    first = false;
                    proof {
                        let longer = texts.push(shown);
                        assert(longer.drop_last() == texts);
                        seen = seen.push(item);
                        texts = longer;
                    }
                },
                None => {
                    break ;
                },
            }
        }
        text
    }
}

/// Finding items in any iterator over numbered items, such as
/// `iter().enumerate()`.
pub trait IterExtPositions<T>: Iterator<Item = (usize, T)> + Sized {
    /// Returns the indices of elements where `predicate` returns true.
    fn positions<F: Fn(T) -> bool>(self, predicate: F) -> (indices: Vec<usize>)
        requires
            self.obeys_prophetic_iter_laws(),
            self.decrease() is Some,
            forall|i: int|
                0 <= i < self.remaining().len() ==> call_requires(
                    predicate,
                    (#[trigger] self.remaining()[i].1,),
                ),
        ensures
            exists|kept: Seq<bool>|
                answers(predicate, self.remaining(), kept) && indices@ == kept_indices(
                    self.remaining(),
                    kept,
                ),
    ;
}

impl<T, I: Iterator<Item = (usize, T)>> IterExtPositions<T> for I {
    fn positions<F: Fn(T) -> bool>(self, predicate: F) -> (indices: Vec<usize>) {
        let mut iter = self;
        let mut indices: Vec<usize> = Vec::new();
        let ghost mut seen: Seq<(usize, T)> = Seq::empty();
        let ghost mut kept: Seq<bool> = Seq::empty();
        loop
            invariant
                iter.obeys_prophetic_iter_laws(),
                iter.decrease() is Some,
                seen + iter.remaining() == self.remaining(),
                forall|i: int|
                    0 <= i < self.remaining().len() ==> call_requires(
                        predicate,
                        (#[trigger] self.remaining()[i].1,),
                    ),
                answers(predicate, seen, kept),
                indices@ == kept_indices(seen, kept),
            ensures
                answers(predicate, self.remaining(), kept),
                indices@ == kept_indices(self.remaining(), kept),
            decreases iter.decrease()->0,
        {
            match iter.next() {
                Some((index, element)) => {
                    assert(self.remaining()[seen.len() as int] == (index, element));
                    let keep = predicate(element);
                    if keep {
                        indices.push(index);
                    }
                    proof {
                        let longer = seen.push((index, element));
                        assert(longer.drop_last() == seen);
                        assert(kept.push(keep).drop_last() == kept);
                        seen = longer;
                        kept = kept.push(keep);
                    }
                },
                None => {
                    break ;
                },
            }
        }
        indices
    }
}

/// The set of a sequence with one more item is the set of the sequence with
/// that item added.
proof fn lemma_push_to_set<T>(items: Seq<T>, item: T)
    ensures
        items.push(item).to_set() == items.to_set().insert(item),
{
    let longer = items.push(item);
    assert forall|x: T| longer.to_set().contains(x) <==> items.to_set().insert(item).contains(
        x,
    ) by {
        if items.to_set().contains(x) {
            let i = choose|i: int| 0 <= i < items.len() && items[i] == x;
            assert(longer[i] == x);
        }
        if x == item {
            assert(longer[items.len() as int] == x);
        }
    }
}

} // verus!
