//! Attributes, as every kind of record carries them.

use crate::text::{chars_of, same_text};
use vstd::prelude::*;

verus! {

/// An attribute: a key, and the value in the form that it is printed in.
#[derive(Debug)]
pub struct KeyValue {
    pub key: String,
    pub value: String,
}

/// Attributes as mathematical values: pairs of key and value.
pub open spec fn pairs(attributes: Seq<KeyValue>) -> Seq<(Seq<char>, Seq<char>)> {
    Seq::new(attributes.len(), |i: int| (attributes[i].key@, attributes[i].value@))
}

/// The order of texts: by the first character in which they differ, a
/// text before those that it begins.
pub open spec fn text_lt(a: Seq<char>, b: Seq<char>) -> bool
    decreases a.len(),
{
    if b.len() == 0 {
        false
    } else if a.len() == 0 {
        true
    } else if a[0] != b[0] {
        a[0] < b[0]
    } else {
        text_lt(a.skip(1), b.skip(1))
    }
}

/// Whether `a` comes before `b` in the order of texts.
pub fn text_less(a: &str, b: &str) -> (less: bool)
    ensures
        less == text_lt(a@, b@),
{
    let x = chars_of(a);
    let y = chars_of(b);
    let mut i: usize = 0;
    assert(x@.skip(0) == x@);
    assert(y@.skip(0) == y@);
    loop
        invariant
            i <= x.len(),
            i <= y.len(),
            x@ == a@,
            y@ == b@,
            text_lt(a@, b@) == text_lt(x@.skip(i as int), y@.skip(i as int)),
        decreases x.len() - i,
    {
        if i == y.len() {
            return false;
        }
        if i == x.len() {
            return true;
        }
        if x[i] != y[i] {
            return x[i] < y[i];
        }
        assert(x@.skip(i as int).skip(1) == x@.skip(i + 1));
        assert(y@.skip(i as int).skip(1) == y@.skip(i + 1));
        i += 1;
    }
}

/// Attributes that are ordered by key after one more was put in: the new
/// value takes the place of the one under the same key, where there is
/// one, and else goes before the first greater key.
pub open spec fn put(
    ordered: Seq<(Seq<char>, Seq<char>)>,
    key: Seq<char>,
    value: Seq<char>,
) -> Seq<(Seq<char>, Seq<char>)>
    decreases ordered.len(),
{
    if ordered.len() == 0 {
        seq![(key, value)]
    } else if ordered[0].0 == key {
        seq![(key, value)] + ordered.skip(1)
    } else if text_lt(key, ordered[0].0) {
        seq![(key, value)] + ordered
    } else {
        seq![ordered[0]] + put(ordered.skip(1), key, value)
    }
}

/// Attributes collected into the order of their keys, with one value for
/// each key: the one that was given last.
pub open spec fn collected(attributes: Seq<(Seq<char>, Seq<char>)>) -> Seq<
    (Seq<char>, Seq<char>),
>
    decreases attributes.len(),
{
    if attributes.len() == 0 {
        Seq::empty()
    } else {
        put(collected(attributes.drop_last()), attributes.last().0, attributes.last().1)
    }
}

/// Whether the keys go up from each attribute to the next, so that no key
/// occurs twice.
pub open spec fn is_ordered(attributes: Seq<(Seq<char>, Seq<char>)>) -> bool {
    forall|i: int, j: int|
        0 <= i < j < attributes.len() ==> text_lt(
            (#[trigger] attributes[i]).0,
            (#[trigger] attributes[j]).0,
        )
}

/// Of two different texts one comes before the other.
pub proof fn lemma_text_order_is_total(a: Seq<char>, b: Seq<char>)
    ensures
        a == b || text_lt(a, b) || text_lt(b, a),
        !(text_lt(a, b) && text_lt(b, a)),
        !text_lt(a, a),
    decreases a.len(),
{
    if a.len() > 0 && b.len() > 0 && a[0] == b[0] {
        lemma_text_order_is_total(a.skip(1), b.skip(1));
        if a.skip(1) == b.skip(1) {
            assert(b =~= seq![b[0]] + b.skip(1));
        }
    }
    if a.len() > 0 {
        lemma_text_order_is_total(a.skip(1), a.skip(1));
    }
}

/// What comes before a text comes before everything after that text.
pub proof fn lemma_text_order_is_transitive(a: Seq<char>, b: Seq<char>, c: Seq<char>)
    requires
        text_lt(a, b),
        text_lt(b, c),
    ensures
        text_lt(a, c),
    decreases a.len(),
{
    if a.len() > 0 && a[0] == b[0] && b[0] == c[0] {
        lemma_text_order_is_transitive(a.skip(1), b.skip(1), c.skip(1));
    }
}

/// Putting an attribute into ordered attributes leaves them ordered, and
/// every key of the outcome is the new key or one of the keys before.
pub proof fn lemma_put_keeps_order(
    ordered: Seq<(Seq<char>, Seq<char>)>,
    key: Seq<char>,
    value: Seq<char>,
)
    requires
        is_ordered(ordered),
    ensures
        is_ordered(put(ordered, key, value)),
        forall|i: int|
            0 <= i < put(ordered, key, value).len() ==> (#[trigger] put(ordered, key, value)[i]).0
                == key || exists|j: int|
                0 <= j < ordered.len() && ordered[j].0 == put(ordered, key, value)[i].0,
    decreases ordered.len(),
{
    let out = put(ordered, key, value);
    if ordered.len() > 0 && ordered[0].0 != key {
        if text_lt(key, ordered[0].0) {
            assert forall|i: int, j: int| 0 <= i < j < out.len() implies text_lt(
                (#[trigger] out[i]).0,
                (#[trigger] out[j]).0,
            ) by {
                if i == 0 && j > 1 {
                    lemma_text_order_is_transitive(key, ordered[0].0, ordered[j - 1].0);
                }
            }
        } else {
            lemma_put_keeps_order(ordered.skip(1), key, value);
            lemma_text_order_is_total(key, ordered[0].0);
        }
    }
}

/// Collected attributes are ordered by key: no key occurs twice.
pub proof fn lemma_collected_is_ordered(attributes: Seq<(Seq<char>, Seq<char>)>)
    ensures
        is_ordered(collected(attributes)),
    decreases attributes.len(),
{
    if attributes.len() > 0 {
        lemma_collected_is_ordered(attributes.drop_last());
        lemma_put_keeps_order(
            collected(attributes.drop_last()),
            attributes.last().0,
            attributes.last().1,
        );
    }
}

fn put_attribute(ordered: &mut Vec<KeyValue>, key: &str, value: &str)
    ensures
        pairs(final(ordered)@) == put(pairs(old(ordered)@), key@, value@),
{
    let ghost before = pairs(ordered@);
    let mut i: usize = 0;
    assert(before.skip(0) == before);
    while i < ordered.len()
        invariant
            i <= ordered.len(),
            pairs(ordered@) == before,
            before == pairs(old(ordered)@),
            put(before, key@, value@) == before.take(i as int) + put(
                before.skip(i as int),
                key@,
                value@,
            ),
        decreases ordered.len() - i,
    {
        let ghost rest = before.skip(i as int);
        if same_text(ordered[i].key.as_str(), key) {
            ordered.set(i, KeyValue { key: key.to_owned(), value: value.to_owned() });
            return ;
        }
        if text_less(key, ordered[i].key.as_str()) {
            ordered.insert(i, KeyValue { key: key.to_owned(), value: value.to_owned() });
            return ;
        }
        assert(rest.skip(1) == before.skip(i + 1));
        i += 1;
    }
    ordered.push(KeyValue { key: key.to_owned(), value: value.to_owned() });
}

/// Collects attributes into the order of their keys. Where a key occurs
/// more than once, its last value stays.
pub fn cnv_attributes(attributes: &Vec<KeyValue>) -> (out: Vec<KeyValue>)
    ensures
        pairs(out@) == collected(pairs(attributes@)),
        is_ordered(pairs(out@)),
{
    proof {
        lemma_collected_is_ordered(pairs(attributes@));
    }
    let mut out: Vec<KeyValue> = Vec::new();
    let mut i: usize = 0;
    while i < attributes.len()
        invariant
            i <= attributes.len(),
            pairs(out@) == collected(pairs(attributes@).take(i as int)),
        decreases attributes.len() - i,
    {
        let ghost all = pairs(attributes@);
        assert(all.take(i + 1).drop_last() == all.take(i as int));
        put_attribute(&mut out, attributes[i].key.as_str(), attributes[i].value.as_str());
        i += 1;
    }
    assert(pairs(attributes@).take(i as int) == pairs(attributes@));
    out
}

} // verus!
