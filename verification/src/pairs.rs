//! Lists of texts, and lists of pairs that are searched by a text.

use vstd::prelude::*;

use crate::text::same;

verus! {

/// The second part of the first pair with a given first part.
pub open spec fn lookup<V>(pairs: Seq<(Seq<char>, V)>, key: Seq<char>) -> Option<V>
    decreases pairs.len(),
{
    if pairs.len() == 0 {
        None
    } else if pairs[0].0 == key {
        Some(pairs[0].1)
    } else {
        lookup(pairs.drop_first(), key)
    }
}

/// Finds the first pair with a given first part.
pub fn find<'a, T: DeepView>(pairs: &'a Vec<(String, T)>, key: &str) -> (r: Option<&'a T>)
    ensures
        r.deep_view() == lookup(pairs.deep_view(), key@),
{
    let ghost all = pairs.deep_view();
    let mut i: usize = 0;
    assert(all.skip(0) == all);
    while i < pairs.len()
        invariant
            i <= pairs.len(),
            all == pairs.deep_view(),
            lookup(all, key@) == lookup(all.skip(i as int), key@),
        decreases pairs.len() - i,
    {
        assert(all.skip(i as int)[0] == (pairs@[i as int].0@, pairs@[i as int].1.deep_view()));
        assert(all.skip(i as int).drop_first() == all.skip(i + 1));
        if same(pairs[i].0.as_str(), key) {
            return Some(&pairs[i].1);
        }
        i += 1;
    }
    None
}

/// Whether a text is in a list.
pub fn is_listed(list: &Vec<&str>, text: &str) -> (r: bool)
    ensures
        r == list.deep_view().contains(text@),
{
    let ghost all = list.deep_view();
    let mut i: usize = 0;
    while i < list.len()
        invariant
            i <= list.len(),
            all == list.deep_view(),
            forall|k: int| 0 <= k < i ==> all[k] != text@,
        decreases list.len() - i,
    {
        assert(all[i as int] == list@[i as int]@);
        if same(list[i], text) {
            return true;
        }
        i += 1;
    }
    false
}

/// The pairs after one more is written: in place of the first with the same first
/// part, or else at the end.
pub open spec fn with_pair<V>(pairs: Seq<(Seq<char>, V)>, key: Seq<char>, value: V) -> Seq<(Seq<char>, V)>
    decreases pairs.len(),
{
    if pairs.len() == 0 {
        seq![(key, value)]
    } else if pairs[0].0 == key {
        seq![(key, value)] + pairs.drop_first()
    } else {
        seq![pairs[0]] + with_pair(pairs.drop_first(), key, value)
    }
}

/// Writing past pairs with other first parts leaves them in front.
proof fn with_pair_from<V>(pairs: Seq<(Seq<char>, V)>, key: Seq<char>, value: V, i: int)
    requires
        0 <= i <= pairs.len(),
        forall|k: int| 0 <= k < i ==> (#[trigger] pairs[k]).0 != key,
    ensures
        with_pair(pairs, key, value) == pairs.take(i) + with_pair(pairs.skip(i), key, value),
    decreases i,
{
    if i == 0 {
        assert(pairs.skip(0) =~= pairs);
        assert(pairs.take(0) + with_pair(pairs, key, value) =~= with_pair(pairs, key, value));
    } else {
        let rest = pairs.drop_first();
        assert forall|k: int| 0 <= k < i - 1 implies (#[trigger] rest[k]).0 != key by {
            assert(rest[k] == pairs[k + 1]);
        }
        with_pair_from(rest, key, value, i - 1);
        assert(pairs[0].0 != key);
        assert(rest.skip(i - 1) =~= pairs.skip(i));
        assert(seq![pairs[0]] + (rest.take(i - 1) + with_pair(rest.skip(i - 1), key, value)) =~= pairs.take(i)
            + with_pair(pairs.skip(i), key, value));
    }
}

/// Writes a pair: in place of the first with the same first part, if there is one.
pub fn set_pair<T: DeepView>(pairs: Vec<(String, T)>, key: String, value: T) -> (r: Vec<(String, T)>)
    ensures
        r.deep_view() == with_pair(pairs.deep_view(), key@, value.deep_view()),
{
    let ghost all = pairs.deep_view();
    let ghost member = (key@, value.deep_view());
    let mut out = pairs;
    let mut i: usize = 0;
    while i < out.len() && !same(out[i].0.as_str(), key.as_str())
        invariant
            i <= out.len(),
            all == out.deep_view(),
            forall|k: int| 0 <= k < i ==> (#[trigger] all[k]).0 != key@,
        decreases out.len() - i,
    {
        assert(all[i as int].0 == out@[i as int].0@);
        i += 1;
    }
    proof {
        with_pair_from(all, key@, value.deep_view(), i as int);
    }
    if i < out.len() {
        assert(all[i as int].0 == out@[i as int].0@);
        out.set(i, (key, value));
        proof {
            assert(out.deep_view() =~= all.update(i as int, member));
            assert(all.skip(i as int).drop_first() =~= all.skip(i + 1));
            assert(all.take(i as int) + (seq![member] + all.skip(i + 1)) =~= all.update(i as int, member));
        }
    } else {
        out.push((key, value));
        proof {
            assert(out.deep_view() =~= all.push(member));
            assert(all.take(i as int) + seq![member] =~= all.push(member));
        }
    }
    out
}

/// Whether no two pairs have one first part.
pub open spec fn distinct_keys<V>(pairs: Seq<(Seq<char>, V)>) -> bool {
    forall|i: int, j: int| 0 <= i < j < pairs.len() ==> (#[trigger] pairs[i]).0 != (#[trigger] pairs[j]).0
}

/// Writing a pair leaves the first parts distinct.
pub proof fn writing_keeps_keys_distinct<V>(pairs: Seq<(Seq<char>, V)>, key: Seq<char>, value: V)
    requires
        distinct_keys(pairs),
    ensures
        distinct_keys(with_pair(pairs, key, value)),
{
    if exists|i: int| 0 <= i < pairs.len() && (#[trigger] pairs[i]).0 == key {
        let i = choose|i: int| 0 <= i < pairs.len() && (#[trigger] pairs[i]).0 == key;
        with_pair_from(pairs, key, value, i);
        assert(with_pair(pairs, key, value) =~= pairs.update(i, (key, value)));
    } else {
        with_pair_from(pairs, key, value, pairs.len() as int);
        assert(with_pair(pairs, key, value) =~= pairs.push((key, value)));
    }
}

/// The pairs with each first part once: of two with one first part the later value
/// stays, in the place of the earlier.
pub open spec fn collected<V>(pairs: Seq<(Seq<char>, V)>) -> Seq<(Seq<char>, V)>
    decreases pairs.len(),
{
    if pairs.len() == 0 {
        Seq::empty()
    } else {
        with_pair(collected(pairs.drop_last()), pairs.last().0, pairs.last().1)
    }
}

/// Collected pairs have distinct first parts.
pub proof fn collected_keys_are_distinct<V>(pairs: Seq<(Seq<char>, V)>)
    ensures
        distinct_keys(collected(pairs)),
    decreases pairs.len(),
{
    if pairs.len() > 0 {
        collected_keys_are_distinct(pairs.drop_last());
        writing_keeps_keys_distinct(collected(pairs.drop_last()), pairs.last().0, pairs.last().1);
    }
}

/// Pairs with distinct first parts are collected as they are.
pub proof fn distinct_pairs_are_collected_unchanged<V>(pairs: Seq<(Seq<char>, V)>)
    requires
        distinct_keys(pairs),
    ensures
        collected(pairs) == pairs,
    decreases pairs.len(),
{
    if pairs.len() > 0 {
        let front = pairs.drop_last();
        distinct_pairs_are_collected_unchanged(front);
        with_pair_from(front, pairs.last().0, pairs.last().1, front.len() as int);
        assert(collected(pairs) =~= pairs);
    }
}

/// Collects pairs, as a map does.
pub fn collect<T: DeepView>(pairs: Vec<(String, T)>) -> (r: Vec<(String, T)>)
    ensures
        r.deep_view() == collected(pairs.deep_view()),
{
    let ghost all = pairs.deep_view();
    let mut rest = pairs;
    let mut turned: Vec<(String, T)> = Vec::new();
    while rest.len() > 0
        invariant
            rest.len() + turned.len() == all.len(),
            forall|k: int| 0 <= k < rest.len() ==> (#[trigger] rest.deep_view()[k]) == all[k],
            forall|k: int| 0 <= k < turned.len() ==> (#[trigger] turned.deep_view()[k]) == all[all.len() - 1 - k],
        decreases rest.len(),
    {
        let ghost before = turned.deep_view();
        let ghost shrinking = rest.deep_view();
        match rest.pop() {
            Some(pair) => {
                let ghost last = pair.deep_view();
                turned.push(pair);
                proof {
                    assert(shrinking[shrinking.len() - 1] == last);
                    assert(rest.deep_view() =~= shrinking.drop_last());
                    assert(turned.deep_view() =~= before.push(last));
                }
            },
            None => {},
        }
    }
    let mut out: Vec<(String, T)> = Vec::new();
    assert(all.take(0) =~= Seq::empty());
    assert(out.deep_view() =~= Seq::empty());
    while turned.len() > 0
        invariant
            turned.len() <= all.len(),
            forall|k: int| 0 <= k < turned.len() ==> (#[trigger] turned.deep_view()[k]) == all[all.len() - 1 - k],
            out.deep_view() == collected(all.take(all.len() - turned.len())),
        decreases turned.len(),
    {
        let ghost shrinking = turned.deep_view();
        let ghost done = all.len() - turned.len();
        match turned.pop() {
            Some((key, value)) => {
                proof {
                    assert(shrinking[shrinking.len() - 1] == (key@, value.deep_view()));
                    assert(turned.deep_view() =~= shrinking.drop_last());
                    assert(all.take(done + 1).drop_last() =~= all.take(done));
                    assert(all.take(done + 1).last() == all[done]);
                }
                out = set_pair(out, key, value);
            },
            None => {},
        }
    }
    assert(all.take(all.len() as int) =~= all);
    out
}

/// A written pair is found under its first part, and the others as before.
pub proof fn written_pair_is_found<V>(pairs: Seq<(Seq<char>, V)>, key: Seq<char>, value: V, other: Seq<char>)
    ensures
        lookup(with_pair(pairs, key, value), other) == (if other == key {
            Some(value)
        } else {
            lookup(pairs, other)
        }),
    decreases pairs.len(),
{
    let after = with_pair(pairs, key, value);
    if pairs.len() == 0 {
        assert(after.drop_first() =~= pairs);
        assert(lookup(pairs, other) is None);
    } else if pairs[0].0 == key {
        assert(after.drop_first() =~= pairs.drop_first());
    } else {
        written_pair_is_found(pairs.drop_first(), key, value, other);
        assert(after.drop_first() =~= with_pair(pairs.drop_first(), key, value));
    }
}

/// The second part of the last pair with a given first part.
pub open spec fn last_lookup<V>(pairs: Seq<(Seq<char>, V)>, key: Seq<char>) -> Option<V>
    decreases pairs.len(),
{
    if pairs.len() == 0 {
        None
    } else if pairs.last().0 == key {
        Some(pairs.last().1)
    } else {
        last_lookup(pairs.drop_last(), key)
    }
}

/// The last pair with a first part is found after the first pair, or else is that.
pub proof fn last_lookup_from_front<V>(pairs: Seq<(Seq<char>, V)>, key: Seq<char>)
    requires
        pairs.len() > 0,
    ensures
        last_lookup(pairs, key) == (match last_lookup(pairs.drop_first(), key) {
            Some(value) => Some(value),
            None => if pairs[0].0 == key {
                Some(pairs[0].1)
            } else {
                None
            },
        }),
    decreases pairs.len(),
{
    if pairs.len() > 1 {
        let front = pairs.drop_last();
        last_lookup_from_front(front, key);
        assert(front.drop_first() =~= pairs.drop_first().drop_last());
        assert(pairs.drop_first().last() == pairs.last());
    } else {
        assert(pairs.drop_first() =~= Seq::empty());
        assert(pairs.drop_last() =~= Seq::empty());
        assert(last_lookup(Seq::<(Seq<char>, V)>::empty(), key) is None);
    }
}

/// Collected pairs hold the last value under each first part.
pub proof fn collected_pairs_hold_last_values<V>(pairs: Seq<(Seq<char>, V)>, key: Seq<char>)
    ensures
        lookup(collected(pairs), key) == last_lookup(pairs, key),
    decreases pairs.len(),
{
    if pairs.len() > 0 {
        let front = pairs.drop_last();
        collected_pairs_hold_last_values(front, key);
        written_pair_is_found(collected(front), pairs.last().0, pairs.last().1, key);
    }
}

/// What is found under a first part is the second part of the first pair with it; where
/// nothing is found, no pair has it.
pub proof fn found_pairs_are_the_first<V>(pairs: Seq<(Seq<char>, V)>, key: Seq<char>)
    ensures
        match lookup(pairs, key) {
            Some(value) => exists|i: int|
                0 <= i < pairs.len() && (#[trigger] pairs[i]).0 == key && pairs[i].1 == value && forall|j: int|
                    0 <= j < i ==> (#[trigger] pairs[j]).0 != key,
            None => forall|i: int| 0 <= i < pairs.len() ==> (#[trigger] pairs[i]).0 != key,
        },
    decreases pairs.len(),
{
    if pairs.len() > 0 && pairs[0].0 != key {
        let rest = pairs.drop_first();
        found_pairs_are_the_first(rest, key);
        if let Some(value) = lookup(rest, key) {
            let i = choose|i: int|
                0 <= i < rest.len() && (#[trigger] rest[i]).0 == key && rest[i].1 == value && forall|j: int|
                    0 <= j < i ==> (#[trigger] rest[j]).0 != key;
            assert(pairs[i + 1] == rest[i]);
            assert forall|j: int| 0 <= j < i + 1 implies (#[trigger] pairs[j]).0 != key by {
                if j > 0 {
                    assert(rest[j - 1] == pairs[j]);
                }
            }
        } else {
            assert forall|i: int| 0 <= i < pairs.len() implies (#[trigger] pairs[i]).0 != key by {
                if i > 0 {
                    assert(rest[i - 1] == pairs[i]);
                }
            }
        }
    } else if pairs.len() > 0 {
        assert(pairs[0].0 == key);
    }
}

/// What is found last under a first part is the second part of the last pair with it; where
/// nothing is found, no pair has it.
pub proof fn last_found_pairs_are_the_last<V>(pairs: Seq<(Seq<char>, V)>, key: Seq<char>)
    ensures
        match last_lookup(pairs, key) {
            Some(value) => exists|i: int|
                0 <= i < pairs.len() && (#[trigger] pairs[i]).0 == key && pairs[i].1 == value && forall|j: int|
                    i < j < pairs.len() ==> (#[trigger] pairs[j]).0 != key,
            None => forall|i: int| 0 <= i < pairs.len() ==> (#[trigger] pairs[i]).0 != key,
        },
    decreases pairs.len(),
{
    if pairs.len() > 0 && pairs.last().0 != key {
        let front = pairs.drop_last();
        let n = pairs.len() - 1;
        assert(pairs[n] == pairs.last());
        last_found_pairs_are_the_last(front, key);
        if let Some(value) = last_lookup(front, key) {
            let i = choose|i: int|
                0 <= i < front.len() && (#[trigger] front[i]).0 == key && front[i].1 == value && forall|j: int|
                    i < j < front.len() ==> (#[trigger] front[j]).0 != key;
            assert(pairs[i] == front[i]);
            assert forall|j: int| i < j < pairs.len() implies (#[trigger] pairs[j]).0 != key by {
                if j < n {
                    assert(front[j] == pairs[j]);
                }
            }
        } else {
            assert forall|i: int| 0 <= i < pairs.len() implies (#[trigger] pairs[i]).0 != key by {
                if i < n {
                    assert(front[i] == pairs[i]);
                }
            }
        }
    } else if pairs.len() > 0 {
        assert(pairs[pairs.len() - 1].0 == key);
    }
}

/// A pair among others with distinct first parts is found under its first part.
pub proof fn distinct_pairs_are_found<V>(pairs: Seq<(Seq<char>, V)>, i: int)
    requires
        distinct_keys(pairs),
        0 <= i < pairs.len(),
    ensures
        lookup(pairs, pairs[i].0) == Some(pairs[i].1),
{
    found_pairs_are_the_first(pairs, pairs[i].0);
    if let Some(value) = lookup(pairs, pairs[i].0) {
        let j = choose|j: int| 0 <= j < pairs.len() && (#[trigger] pairs[j]).0 == pairs[i].0 && pairs[j].1 == value;
        if j < i {
            assert(pairs[j].0 != pairs[i].0);
        } else if i < j {
            assert(pairs[i].0 != pairs[j].0);
        }
    }
}

} // verus!
