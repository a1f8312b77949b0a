//! Facts about lists of texts and of rows: where a text first stands in a
//! list, and what filtering leaves of a list.

use vstd::prelude::*;

verus! {

/// The texts that a list of strings stands for.
pub open spec fn texts(strings: Seq<String>) -> Seq<Seq<char>> {
    strings.map_values(|string: String| string@)
}

/// The first position at or after `from` where `keys` holds `key`; the
/// length of `keys` where there is none.
pub open spec fn position_from(keys: Seq<Seq<char>>, key: Seq<char>, from: int) -> int
    decreases keys.len() - from,
{
    if from < 0 || from >= keys.len() {
        keys.len() as int
    } else if keys[from] == key {
        from
    } else {
        position_from(keys, key, from + 1)
    }
}

/// The first position where `keys` holds `key`; the length of `keys` where
/// there is none.
pub open spec fn position(keys: Seq<Seq<char>>, key: Seq<char>) -> int {
    position_from(keys, key, 0)
}

/// No two positions of `keys` hold the same text.
pub open spec fn distinct(keys: Seq<Seq<char>>) -> bool {
    forall|i: int, j: int| 0 <= i < j < keys.len() ==> keys[i] != keys[j]
}

/// `position_from` lands on the first match and skips none.
pub proof fn lemma_position_from(keys: Seq<Seq<char>>, key: Seq<char>, from: int)
    requires
        0 <= from <= keys.len(),
    ensures
        from <= position_from(keys, key, from) <= keys.len(),
        position_from(keys, key, from) < keys.len() ==> keys[position_from(keys, key, from)]
            == key,
        forall|j: int| from <= j < position_from(keys, key, from) ==> keys[j] != key,
    decreases keys.len() - from,
{
    if from < keys.len() && keys[from] != key {
        lemma_position_from(keys, key, from + 1);
    }
}

/// `position` is the first match: it is within the table exactly when the
/// key occurs, and nothing before it matches.
pub proof fn lemma_position(keys: Seq<Seq<char>>, key: Seq<char>)
    ensures
        0 <= position(keys, key) <= keys.len(),
        position(keys, key) < keys.len() <==> keys.contains(key),
        position(keys, key) < keys.len() ==> keys[position(keys, key)] == key,
        forall|j: int| 0 <= j < position(keys, key) ==> keys[j] != key,
{
    lemma_position_from(keys, key, 0);
    let p = position(keys, key);
    if keys.contains(key) {
        let i = choose|i: int| 0 <= i < keys.len() && keys[i] == key;
        assert(p <= i);
    }
}

/// A position that holds the key and has no match before it is the one
/// `position` names.
pub proof fn lemma_position_is(keys: Seq<Seq<char>>, key: Seq<char>, at: int)
    requires
        0 <= at <= keys.len(),
        at < keys.len() ==> keys[at] == key,
        forall|j: int| 0 <= j < at ==> keys[j] != key,
    ensures
        position(keys, key) == at,
{
    lemma_position_from(keys, key, 0);
}

/// Filtering by a test that every element passes changes nothing.
pub proof fn lemma_filter_keeps_all<A>(items: Seq<A>, pred: spec_fn(A) -> bool)
    requires
        forall|i: int| 0 <= i < items.len() ==> pred(#[trigger] items[i]),
    ensures
        items.filter(pred) == items,
    decreases items.len(),
{
    reveal(Seq::filter);
    if items.len() > 0 {
        lemma_filter_keeps_all(items.drop_last(), pred);
        assert(items.drop_last().push(items.last()) == items);
    }
}

/// Filtering by a test that exactly one element fails removes that element.
pub proof fn lemma_filter_drops_one<A>(items: Seq<A>, pred: spec_fn(A) -> bool, at: int)
    requires
        0 <= at < items.len(),
        !pred(items[at]),
        forall|i: int| 0 <= i < items.len() && i != at ==> pred(#[trigger] items[i]),
    ensures
        items.filter(pred) == items.remove(at),
    decreases items.len(),
{
    reveal(Seq::filter);
    let front = items.drop_last();
    if at == items.len() - 1 {
        lemma_filter_keeps_all(front, pred);
        assert(items.remove(at) == front);
    } else {
        lemma_filter_drops_one(front, pred, at);
        assert(front.remove(at).push(items.last()) == items.remove(at));
    }
}

/// Two tests that agree on every element filter alike.
pub proof fn lemma_filter_agrees<A>(
    items: Seq<A>,
    first: spec_fn(A) -> bool,
    second: spec_fn(A) -> bool,
)
    requires
        forall|i: int| 0 <= i < items.len() ==> first(#[trigger] items[i]) == second(items[i]),
    ensures
        items.filter(first) == items.filter(second),
    decreases items.len(),
{
    reveal(Seq::filter);
    if items.len() > 0 {
        lemma_filter_agrees(items.drop_last(), first, second);
    }
}

/// Filtering by one test and then by another is filtering by a test that
/// holds exactly where both do.
pub proof fn lemma_filter_refine<A>(
    items: Seq<A>,
    first: spec_fn(A) -> bool,
    second: spec_fn(A) -> bool,
    both: spec_fn(A) -> bool,
)
    requires
        forall|i: int|
            0 <= i < items.len() ==> both(#[trigger] items[i]) == (first(items[i]) && second(
                items[i],
            )),
    ensures
        items.filter(first).filter(second) == items.filter(both),
    decreases items.len(),
{
    reveal(Seq::filter);
    if items.len() > 0 {
        let front = items.drop_last();
        lemma_filter_refine(front, first, second, both);
        if first(items.last()) {
            assert(front.filter(first).push(items.last()).drop_last() == front.filter(first));
        }
    }
}

/// A text is in a list with one more text exactly if it is that text or
/// was in the list.
pub proof fn lemma_contains_push(keys: Seq<Seq<char>>, last: Seq<char>, key: Seq<char>)
    ensures
        keys.push(last).contains(key) <==> keys.contains(key) || key == last,
{
    let longer = keys.push(last);
    if keys.contains(key) {
        let i = choose|i: int| 0 <= i < keys.len() && keys[i] == key;
        assert(longer[i] == key);
    }
    if key == last {
        assert(longer[keys.len() as int] == key);
    }
    if longer.contains(key) {
        let i = choose|i: int| 0 <= i < longer.len() && longer[i] == key;
        if i < keys.len() {
            assert(keys[i] == key);
        }
    }
}

} // verus!
