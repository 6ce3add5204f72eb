//! Lists of strings: the order of strings, and sorted lists without
//! duplicates.

use crate::text::{chars_of, views};
use vstd::prelude::*;
use vstd::string::*;

verus! {

/// Whether `a` comes before `b` in the order of strings: character by
/// character by code point, a proper prefix before its extensions.
pub open spec fn spec_less(a: Seq<char>, b: Seq<char>) -> bool
    decreases a.len(),
{
    if b.len() == 0 {
        false
    } else if a.len() == 0 {
        true
    } else if a[0] != b[0] {
        (a[0] as u32) < (b[0] as u32)
    } else {
        spec_less(a.skip(1), b.skip(1))
    }
}

/// Whether a list is sorted without duplicates: every string comes before
/// all that follow it.
pub open spec fn spec_sorted(items: Seq<Seq<char>>) -> bool {
    forall|i: int, j: int| 0 <= i < j < items.len() ==> spec_less(items[i], items[j])
}

/// Of two different strings one comes before the other.
pub proof fn lemma_less_total(a: Seq<char>, b: Seq<char>)
    ensures
        a != b ==> spec_less(a, b) || spec_less(b, a),
    decreases a.len(),
{
    if a.len() == 0 || b.len() == 0 {
        if a.len() == 0 && b.len() == 0 {
            assert(a =~= b);
        }
    } else if a[0] == b[0] {
        lemma_less_total(a.skip(1), b.skip(1));
        if a.skip(1) == b.skip(1) {
            assert(a =~= seq![a[0]] + a.skip(1));
            assert(b =~= seq![b[0]] + b.skip(1));
        }
    } else {
        vstd::utf8::char_u32_cast(a[0], a[0] as u32);
        vstd::utf8::char_u32_cast(b[0], b[0] as u32);
    }
}

/// The order of strings is transitive.
pub proof fn lemma_less_transitive(a: Seq<char>, b: Seq<char>, c: Seq<char>)
    requires
        spec_less(a, b),
        spec_less(b, c),
    ensures
        spec_less(a, c),
    decreases a.len(),
{
    if a.len() > 0 && a[0] == b[0] && b[0] == c[0] {
        lemma_less_transitive(a.skip(1), b.skip(1), c.skip(1));
    }
}

/// Whether `a` comes before `b` in the order of strings.
pub fn less(a: &str, b: &str) -> (out: bool)
    ensures
        out == spec_less(a@, b@),
{
    let x = chars_of(a);
    let y = chars_of(b);
    let mut i: usize = 0;
    proof {
        assert(x@.skip(0) =~= x@);
        assert(y@.skip(0) =~= y@);
    }
    while i < x.len() && i < y.len()
        invariant
            i <= x.len(),
            i <= y.len(),
            x@ == a@,
            y@ == b@,
            spec_less(a@, b@) == spec_less(x@.skip(i as int), y@.skip(i as int)),
        decreases x.len() - i,
    {
        proof {
            assert(x@.skip(i as int)[0] == x@[i as int]);
            assert(y@.skip(i as int)[0] == y@[i as int]);
            assert(x@.skip(i as int).skip(1) =~= x@.skip(i + 1));
            assert(y@.skip(i as int).skip(1) =~= y@.skip(i + 1));
        }
        if x[i] != y[i] {
            return (x[i] as u32) < (y[i] as u32);
        }
        i += 1;
    }
    i < y.len()
}

/// Puts `item` into a sorted list, at its place, unless the list holds it.
pub fn insert_sorted(items: &mut Vec<String>, item: String)
    requires
        spec_sorted(views(old(items)@)),
    ensures
        spec_sorted(views(final(items)@)),
        forall|x: Seq<char>|
            #![trigger views(final(items)@).contains(x)]
            views(final(items)@).contains(x) <==> (views(old(items)@).contains(x) || x == item@),
{
    let ghost before = views(items@);
    let mut at: usize = 0;
    while at < items.len() && less(items[at].as_str(), item.as_str())
        invariant
            at <= items.len(),
            before == views(items@),
            forall|k: int| 0 <= k < at ==> spec_less(#[trigger] before[k], item@),
        decreases items.len() - at,
    {
        at += 1;
    }
    if at < items.len() && crate::text::str_eq(items[at].as_str(), item.as_str()) {
        assert(before[at as int] == item@);
        return ;
    }
    proof {
        if at < items.len() {
            lemma_less_total(before[at as int], item@);
        }
        assert forall|k: int| at <= k < before.len() implies spec_less(item@, #[trigger] before[k]) by {
            if k > at {
                lemma_less_transitive(item@, before[at as int], before[k]);
            }
        }
    }
    items.insert(at, item);
    proof {
        let after = views(items@);
        assert(after =~= before.insert(at as int, item@));
        assert forall|i: int, j: int| 0 <= i < j < after.len() implies spec_less(
            after[i],
            after[j],
        ) by {
            if j < at {
            } else if j == at {
                assert(after[i] == before[i]);
            } else if i < at {
                assert(after[j] == before[j - 1]);
                assert(after[i] == before[i]);
                lemma_less_transitive(before[i], item@, before[j - 1]);
            } else if i == at {
                assert(after[j] == before[j - 1]);
            } else {
                assert(after[i] == before[i - 1]);
                assert(after[j] == before[j - 1]);
            }
        }
        assert forall|x: Seq<char>| after.contains(x) <==> (before.contains(x) || x == item@) by {
            if after.contains(x) {
                let k = choose|k: int| 0 <= k < after.len() && after[k] == x;
                if k < at {
                    assert(before[k] == x);
                } else if k > at {
                    assert(before[k - 1] == x);
                }
            }
            if before.contains(x) {
                let k = choose|k: int| 0 <= k < before.len() && before[k] == x;
                if k < at {
                    assert(after[k] == x);
                } else {
                    assert(after[k + 1] == x);
                }
            }
            if x == item@ {
                assert(after[at as int] == x);
            }
        }
    }
}

/// Puts every string of `added` into a sorted list.
pub fn insert_all_sorted(items: &mut Vec<String>, added: &Vec<String>)
    requires
        spec_sorted(views(old(items)@)),
    ensures
        spec_sorted(views(final(items)@)),
        forall|x: Seq<char>|
            #![trigger views(final(items)@).contains(x)]
            views(final(items)@).contains(x) <==> (views(old(items)@).contains(x) || views(
                added@,
            ).contains(x)),
{
    let ghost before = views(items@);
    let ghost new = views(added@);
    let mut i: usize = 0;
    proof {
        assert(new.take(0) =~= Seq::<Seq<char>>::empty());
    }
    while i < added.len()
        invariant
            i <= added.len(),
            new == views(added@),
            spec_sorted(views(items@)),
            forall|x: Seq<char>|
                views(items@).contains(x) <==> (before.contains(x) || new.take(i as int).contains(
                    x,
                )),
        decreases added.len() - i,
    {
        let ghost held = views(items@);
        insert_sorted(items, added[i].clone());
        proof {
            let item = added@[i as int]@;
            assert(new[i as int] == item);
            let shorter = new.take(i as int);
            let longer = new.take(i + 1);
            assert(longer =~= shorter.push(item));
            assert forall|x: Seq<char>| longer.contains(x) <==> (shorter.contains(x) || x
                == item) by {
                if longer.contains(x) {
                    let k = choose|k: int| 0 <= k < longer.len() && longer[k] == x;
                    if k < i {
                        assert(shorter[k] == x);
                    }
                }
                if shorter.contains(x) {
                    let k = choose|k: int| 0 <= k < shorter.len() && shorter[k] == x;
                    assert(longer[k] == x);
                }
                if x == item {
                    assert(longer[i as int] == x);
                }
            }
            assert forall|x: Seq<char>|
                views(items@).contains(x) <==> (before.contains(x) || longer.contains(x)) by {
                assert(held.contains(x) <==> (before.contains(x) || shorter.contains(x)));
                assert(views(items@).contains(x) <==> (held.contains(x) || x == item));
                assert(longer.contains(x) <==> (shorter.contains(x) || x == item));
            }
        }
        i += 1;
    }
    proof {
        assert(new.take(i as int) =~= new);
        assert(before == views(old(items)@));
        assert forall|x: Seq<char>|
            views(items@).contains(x) <==> (before.contains(x) || new.contains(x)) by {
            assert(views(items@).contains(x) <==> (before.contains(x) || new.take(
                i as int,
            ).contains(x)));
        }
    }
}

/// No string comes before itself.
pub proof fn lemma_less_irreflexive(a: Seq<char>)
    ensures
        !spec_less(a, a),
    decreases a.len(),
{
    if a.len() > 0 {
        lemma_less_irreflexive(a.skip(1));
    }
}

/// A sorted list is told by what it holds: two sorted lists that hold the
/// same strings are the same list.
pub proof fn law_sorted_list_is_unique(a: Seq<Seq<char>>, b: Seq<Seq<char>>)
    requires
        spec_sorted(a),
        spec_sorted(b),
        forall|x: Seq<char>| #![trigger a.contains(x)] a.contains(x) <==> b.contains(x),
    ensures
        a == b,
    decreases a.len(),
{
    if a.len() == 0 {
        if b.len() > 0 {
            assert(b.contains(b[0]));
            assert(a.contains(b[0]));
        }
        assert(a =~= b);
    } else {
        assert(a.contains(a[0]));
        assert(b.contains(a[0]));
        let j = choose|j: int| 0 <= j < b.len() && b[j] == a[0];
        assert(b.contains(b[0]));
        assert(a.contains(b[0]));
        let i = choose|i: int| 0 <= i < a.len() && a[i] == b[0];
        if j > 0 {
            // b[0] comes before b[j], which is a[0]; a[0] is a[i] or comes before
            // it, and a[i] is b[0]: so b[0] would come before itself.
            assert(spec_less(b[0], b[j]));
            if i > 0 {
                assert(spec_less(a[0], a[i]));
                lemma_less_transitive(b[0], a[0], b[0]);
            }
            lemma_less_irreflexive(b[0]);
        }
        assert(a[0] == b[0]);
        let rest_a = a.skip(1);
        let rest_b = b.skip(1);
        assert forall|x: Seq<char>| #![trigger rest_a.contains(x)] rest_a.contains(x)
            <==> rest_b.contains(x) by {
            lemma_less_irreflexive(a[0]);
            if rest_a.contains(x) {
                let k = choose|k: int| 0 <= k < rest_a.len() && rest_a[k] == x;
                assert(a[k + 1] == x);
                assert(spec_less(a[0], a[k + 1]));
                assert(a.contains(x));
                assert(b.contains(x));
                let m = choose|m: int| 0 <= m < b.len() && b[m] == x;
                assert(m > 0);
                assert(rest_b[m - 1] == x);
            }
            if rest_b.contains(x) {
                let k = choose|k: int| 0 <= k < rest_b.len() && rest_b[k] == x;
                assert(b[k + 1] == x);
                assert(spec_less(b[0], b[k + 1]));
                assert(b.contains(x));
                assert(a.contains(x));
                let m = choose|m: int| 0 <= m < a.len() && a[m] == x;
                assert(m > 0);
                assert(rest_a[m - 1] == x);
            }
        }
        assert(spec_sorted(rest_a)) by {
            assert forall|p: int, q: int| 0 <= p < q < rest_a.len() implies spec_less(
                rest_a[p],
                rest_a[q],
            ) by {
                assert(spec_less(a[p + 1], a[q + 1]));
            }
        }
        assert(spec_sorted(rest_b)) by {
            assert forall|p: int, q: int| 0 <= p < q < rest_b.len() implies spec_less(
                rest_b[p],
                rest_b[q],
            ) by {
                assert(spec_less(b[p + 1], b[q + 1]));
            }
        }
        law_sorted_list_is_unique(rest_a, rest_b);
        assert(a =~= seq![a[0]] + rest_a);
        assert(b =~= seq![b[0]] + rest_b);
    }
}

} // verus!
