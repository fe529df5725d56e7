//! The order of names, and lists of names kept in it.
//!
//! Names are ordered by their UTF-8 bytes, which is the order that `str` has.

use vstd::prelude::*;
use vstd::string::*;

verus! {

/// How one name stands to another in the order of names.
#[derive(Clone, Copy, Debug, PartialEq, Eq, Structural)]
pub enum NameOrder {
    /// The first name comes before the second.
    Before,
    /// Both names are the same.
    Same,
    /// The first name comes after the second.
    After,
}

/// `a` and `b` agree on their first `n` bytes, and then `a` either ends or
/// continues with the smaller byte.
pub open spec fn bytes_differ_at(a: Seq<u8>, b: Seq<u8>, n: int) -> bool {
    &&& 0 <= n <= a.len()
    &&& n < b.len()
    &&& forall|k: int| 0 <= k < n ==> #[trigger] a[k] == b[k]
    &&& n == a.len() || a[n] < b[n]
}

/// Lexicographic order of byte sequences.
pub open spec fn bytes_before(a: Seq<u8>, b: Seq<u8>) -> bool {
    exists|n: int| bytes_differ_at(a, b, n)
}

/// `a` comes strictly before `b` in the order of names.
pub open spec fn before(a: Seq<char>, b: Seq<char>) -> bool {
    bytes_before(vstd::utf8::encode_utf8(a), vstd::utf8::encode_utf8(b))
}

/// `a` comes before `b` or is the same name.
pub open spec fn at_or_before(a: Seq<char>, b: Seq<char>) -> bool {
    a == b || before(a, b)
}

/// A list of names in order, where the same name may occur again.
pub open spec fn ordered(names: Seq<Seq<char>>) -> bool {
    forall|i: int, j: int|
        0 <= i < j < names.len() ==> at_or_before(#[trigger] names[i], #[trigger] names[j])
}

/// A list of names in order, each of which occurs once.
pub open spec fn strictly_ordered(names: Seq<Seq<char>>) -> bool {
    forall|i: int, j: int|
        0 <= i < j < names.len() ==> before(#[trigger] names[i], #[trigger] names[j])
}

/// The texts that a list of strings holds.
pub open spec fn texts(names: Seq<String>) -> Seq<Seq<char>> {
    Seq::new(names.len(), |i: int| names[i]@)
}

/// `res` lists the names of `names`, as often as they occur there, in order.
pub open spec fn is_ordering_of(res: Seq<Seq<char>>, names: Seq<Seq<char>>) -> bool {
    ordered(res) && res.to_multiset() == names.to_multiset()
}

/// The names of `names`, as often as they occur there, in order.
pub open spec fn in_order(names: Seq<Seq<char>>) -> Seq<Seq<char>> {
    names.sort_by(|a: Seq<char>, b: Seq<char>| at_or_before(a, b))
}

/// No name comes before itself.
pub proof fn lemma_before_irreflexive(a: Seq<char>)
    ensures
        !before(a, a),
{
}

/// The order of names is transitive.
pub proof fn lemma_before_transitive(a: Seq<char>, b: Seq<char>, c: Seq<char>)
    requires
        before(a, b),
        before(b, c),
    ensures
        before(a, c),
{
    let (x, y, z) = (
        vstd::utf8::encode_utf8(a),
        vstd::utf8::encode_utf8(b),
        vstd::utf8::encode_utf8(c),
    );
    let m = choose|n: int| bytes_differ_at(x, y, n);
    let n = choose|n: int| bytes_differ_at(y, z, n);
    let k = if m <= n { m } else { n };
    assert(bytes_differ_at(x, z, k));
}

/// Of two names that differ, exactly one comes before the other.
pub proof fn lemma_before_total(a: Seq<char>, b: Seq<char>)
    ensures
        a != b ==> before(a, b) || before(b, a),
        !(before(a, b) && before(b, a)),
{
    if before(a, b) && before(b, a) {
        lemma_before_transitive(a, b, a);
        lemma_before_irreflexive(a);
    }
    if a != b {
        let (x, y) = (vstd::utf8::encode_utf8(a), vstd::utf8::encode_utf8(b));
        if x == y {
            vstd::utf8::encode_utf8_decode_utf8(a);
            vstd::utf8::encode_utf8_decode_utf8(b);
        }
        let n = lemma_first_difference(x, y, 0);
        assert(bytes_differ_at(x, y, n) || bytes_differ_at(y, x, n));
    }
}

proof fn lemma_first_difference(x: Seq<u8>, y: Seq<u8>, from: int) -> (n: int)
    requires
        x != y,
        0 <= from <= x.len(),
        from <= y.len(),
        forall|k: int| 0 <= k < from ==> #[trigger] x[k] == y[k],
    ensures
        bytes_differ_at(x, y, n) || bytes_differ_at(y, x, n),
    decreases x.len() - from,
{
    if from == x.len() || from == y.len() || x[from] != y[from] {
        if from == x.len() && from == y.len() {
            assert(x =~= y);
        }
        from
    } else {
        lemma_first_difference(x, y, from + 1)
    }
}

/// Names that stand in order on both sides of a third stand in order.
proof fn lemma_at_or_before_transitive(a: Seq<char>, b: Seq<char>, c: Seq<char>)
    requires
        at_or_before(a, b),
        at_or_before(b, c),
    ensures
        at_or_before(a, c),
{
    if a != b && b != c {
        lemma_before_transitive(a, b, c);
    }
}

proof fn lemma_order_is_total()
    ensures
        vstd::relations::total_ordering(|a: Seq<char>, b: Seq<char>| at_or_before(a, b)),
{
    let leq = |a: Seq<char>, b: Seq<char>| at_or_before(a, b);
    assert forall|x: Seq<char>, y: Seq<char>| #[trigger] leq(x, y) && #[trigger] leq(y, x) implies x
        == y by {
        lemma_before_total(x, y);
    }
    assert forall|x: Seq<char>, y: Seq<char>, z: Seq<char>| #[trigger]
        leq(x, y) && #[trigger] leq(y, z) implies leq(x, z) by {
        lemma_at_or_before_transitive(x, y, z);
    }
    assert forall|x: Seq<char>, y: Seq<char>| #[trigger] leq(x, y) || #[trigger] leq(y, x) by {
        lemma_before_total(x, y);
    }
}

/// There is one way to put names in order: two orderings of the same names,
/// however these are listed, are the same list.
pub proof fn law_ordering_is_unique(a: Seq<Seq<char>>, b: Seq<Seq<char>>)
    requires
        ordered(a),
        ordered(b),
        a.to_multiset() == b.to_multiset(),
    ensures
        a == b,
{
    let leq = |a: Seq<char>, b: Seq<char>| at_or_before(a, b);
    lemma_order_is_total();
    assert(vstd::relations::sorted_by(a, leq));
    assert(vstd::relations::sorted_by(b, leq));
    vstd::seq_lib::lemma_sorted_unique(a, b, leq);
}

/// Putting names in order keeps each as often as it occurs.
pub proof fn lemma_in_order(names: Seq<Seq<char>>)
    ensures
        is_ordering_of(in_order(names), names),
{
    let leq = |a: Seq<char>, b: Seq<char>| at_or_before(a, b);
    lemma_order_is_total();
    names.lemma_sort_by_ensures(leq);
    let res = in_order(names);
    assert(vstd::relations::sorted_by(res, leq));
    assert forall|i: int, j: int| 0 <= i < j < res.len() implies at_or_before(
        #[trigger] res[i],
        #[trigger] res[j],
    ) by {
        assert(leq(res[i], res[j]));
    }
}

/// Put two names in order.
pub fn name_order(a: &str, b: &str) -> (res: NameOrder)
    ensures
        res == NameOrder::Before <==> before(a@, b@),
        res == NameOrder::Same <==> a@ == b@,
        res == NameOrder::After <==> before(b@, a@),
{
    let x: &[u8] = a.as_bytes();
    let y: &[u8] = b.as_bytes();
    proof {
        lemma_before_total(a@, b@);
        lemma_before_irreflexive(a@);
    }
    let mut i: usize = 0;
    while i < x.len() && i < y.len()
        invariant
            x@ == vstd::utf8::encode_utf8(a@),
            y@ == vstd::utf8::encode_utf8(b@),
            i <= x@.len(),
            i <= y@.len(),
            forall|k: int| 0 <= k < i ==> #[trigger] x@[k] == y@[k],
            !(before(a@, b@) && before(b@, a@)),
            !before(a@, a@),
        decreases x@.len() - i,
    {
        if x[i] < y[i] {
            assert(bytes_differ_at(x@, y@, i as int));
            return NameOrder::Before;
        }
        if y[i] < x[i] {
            assert(bytes_differ_at(y@, x@, i as int));
            return NameOrder::After;
        }
        i = i + 1;
    }
    if i < y.len() {
        assert(bytes_differ_at(x@, y@, i as int));
        NameOrder::Before
    } else if i < x.len() {
        assert(bytes_differ_at(y@, x@, i as int));
        NameOrder::After
    } else {
        proof {
            assert(x@ =~= y@);
            vstd::utf8::encode_utf8_decode_utf8(a@);
            vstd::utf8::encode_utf8_decode_utf8(b@);
        }
        NameOrder::Same
    }
}

/// Whether two texts are the same.
pub fn same_text(a: &str, b: &str) -> (res: bool)
    ensures
        res == (a@ == b@),
{
    matches!(name_order(a, b), NameOrder::Same)
}

/// Put a list of names in order, keeping each as often as it occurs.
pub fn sort_names(names: Vec<String>) -> (res: Vec<String>)
    ensures
        texts(res@) == in_order(texts(names@)),
{
    let mut rest: Vec<String> = names;
    let mut res: Vec<String> = Vec::new();
    proof {
        assert(texts(res@) + texts(rest@) =~= texts(names@));
    }
    while rest.len() > 0
        invariant
            ordered(texts(res@)),
            (texts(res@) + texts(rest@)).to_multiset() == texts(names@).to_multiset(),
        decreases rest@.len(),
    {
        let ghost rest_before = rest@;
        let ghost res_before = res@;
        let last: usize = rest.len() - 1;
        let name: String = rest.remove(last);
        let mut at: usize = res.len();
        while at > 0 && matches!(name_order(name.as_str(), res[at - 1].as_str()), NameOrder::Before)
            invariant
                res@ == res_before,
                at <= res@.len(),
                ordered(texts(res@)),
                forall|k: int| at <= k < res@.len() ==> before(name@, #[trigger] texts(res@)[k]),
            decreases at,
        {
            at = at - 1;
            assert(texts(res@)[at as int] == res@[at as int]@);
        }
        proof {
            let below = texts(res@);
            lemma_insert_keeps_order(below, name@, at as int);
        }
        res.insert(at, name);
        proof {
            let below = texts(res_before);
            assert(texts(res@) =~= below.insert(at as int, name@));
            assert(texts(rest_before) =~= texts(rest@).push(name@));
            lemma_insert_multiset(below, texts(rest@), name@, at as int);
        }
    }
    proof {
        assert(texts(res@) + texts(rest@) =~= texts(res@));
        lemma_in_order(texts(names@));
        law_ordering_is_unique(texts(res@), in_order(texts(names@)));
    }
    res
}

proof fn lemma_insert_keeps_order(names: Seq<Seq<char>>, name: Seq<char>, at: int)
    requires
        ordered(names),
        0 <= at <= names.len(),
        at > 0 ==> !before(name, names[at - 1]),
        forall|k: int| at <= k < names.len() ==> before(name, #[trigger] names[k]),
    ensures
        ordered(names.insert(at, name)),
{
    let res = names.insert(at, name);
    assert forall|i: int, j: int| 0 <= i < j < res.len() implies at_or_before(
        #[trigger] res[i],
        #[trigger] res[j],
    ) by {
        if j == at {
            lemma_before_total(name, names[at - 1]);
            if i < at - 1 {
                assert(at_or_before(names[i], names[at - 1]));
                lemma_at_or_before_transitive(names[i], names[at - 1], name);
            }
        } else if i == at {
            assert(before(name, names[j - 1]));
        } else {
            let p = if i < at { i } else { i - 1 };
            let q = if j < at { j } else { j - 1 };
            assert(at_or_before(names[p], names[q]));
        }
    }
}

proof fn lemma_insert_multiset(
    below: Seq<Seq<char>>,
    rest: Seq<Seq<char>>,
    name: Seq<char>,
    at: int,
)
    requires
        0 <= at <= below.len(),
    ensures
        (below.insert(at, name) + rest).to_multiset() == (below + rest.push(name)).to_multiset(),
{
    broadcast use vstd::seq_lib::group_to_multiset_ensures;

    let whole = below + rest;
    assert(below.insert(at, name) + rest =~= whole.insert(at, name));
    assert(below + rest.push(name) =~= whole.push(name));
    assert(whole.insert(at, name).to_multiset() =~= whole.to_multiset().insert(name));
}

/// Of two names that first differ in one byte, the one with the smaller byte
/// comes first.
pub proof fn law_first_difference_decides(
    a: Seq<char>,
    b: Seq<char>,
    common: Seq<u8>,
    x: u8,
    y: u8,
    rest_of_a: Seq<u8>,
    rest_of_b: Seq<u8>,
)
    requires
        vstd::utf8::encode_utf8(a) == common.push(x) + rest_of_a,
        vstd::utf8::encode_utf8(b) == common.push(y) + rest_of_b,
        x != y,
    ensures
        before(a, b) <==> x < y,
        before(b, a) <==> y < x,
{
    let (m, n) = (vstd::utf8::encode_utf8(a), vstd::utf8::encode_utf8(b));
    let k = common.len() as int;
    assert(m[k] == x && n[k] == y);
    assert forall|i: int| 0 <= i < k implies #[trigger] m[i] == n[i] by {
        assert(m[i] == common[i] && n[i] == common[i]);
    }
    if x < y {
        assert(bytes_differ_at(m, n, k));
    } else {
        assert(bytes_differ_at(n, m, k));
    }
    lemma_before_total(a, b);
}

/// A name comes before every longer name that begins with it.
pub proof fn law_beginning_comes_first(a: Seq<char>, b: Seq<char>, rest: Seq<u8>)
    requires
        vstd::utf8::encode_utf8(b) == vstd::utf8::encode_utf8(a) + rest,
        rest.len() > 0,
    ensures
        before(a, b),
{
    assert(bytes_differ_at(
        vstd::utf8::encode_utf8(a),
        vstd::utf8::encode_utf8(b),
        vstd::utf8::encode_utf8(a).len() as int,
    ));
}

/// Names put in order are the same names, as often as before, and none stands
/// behind one that it comes before.
pub proof fn law_in_order_keeps_every_name(names: Seq<Seq<char>>)
    ensures
        in_order(names).len() == names.len(),
        in_order(names).to_multiset() == names.to_multiset(),
        forall|i: int, j: int|
            0 <= i < j < names.len() ==> !before(
                #[trigger] in_order(names)[j],
                #[trigger] in_order(names)[i],
            ),
{
    broadcast use vstd::seq_lib::group_to_multiset_ensures;

    let res = in_order(names);
    lemma_in_order(names);
    assert(res.len() == res.to_multiset().len());
    assert(names.len() == names.to_multiset().len());
    assert forall|i: int, j: int| 0 <= i < j < names.len() implies !before(
        #[trigger] res[j],
        #[trigger] res[i],
    ) by {
        assert(at_or_before(res[i], res[j]));
        lemma_before_total(res[i], res[j]);
        lemma_before_irreflexive(res[i]);
    }
}

/// The texts of a list of strings are those of its strings, in place.
pub proof fn law_texts_stand_in_place(names: Seq<String>)
    ensures
        texts(names).len() == names.len(),
        forall|i: int| 0 <= i < names.len() ==> #[trigger] texts(names)[i] == names[i]@,
{
}

/// An ordering of names holds each as often as they do, and is the one that
/// putting them in order gives.
pub proof fn law_ordering_is_what_putting_in_order_gives(
    res: Seq<Seq<char>>,
    names: Seq<Seq<char>>,
)
    ensures
        is_ordering_of(res, names) <==> res == in_order(names),
{
    lemma_in_order(names);
    if is_ordering_of(res, names) {
        law_ordering_is_unique(res, in_order(names));
    }
}

} // verus!
