//! Order: comparing texts and sorting.

use crate::text::chars_of;
use vstd::prelude::*;

verus! {

/// Whether `a` stands before `b` in the order of code points: at the first
/// place where they differ, or because `a` ends there.
pub open spec fn text_before(a: Seq<char>, b: Seq<char>) -> bool
    decreases a.len(),
{
    if b.len() == 0 {
        false
    } else if a.len() == 0 {
        true
    } else if a[0] != b[0] {
        a[0] < b[0]
    } else {
        text_before(a.skip(1), b.skip(1))
    }
}

/// The order of texts is total: two texts that do not differ in it are equal.
pub proof fn text_order_total(a: Seq<char>, b: Seq<char>)
    ensures
        text_before(a, b) || text_before(b, a) || a == b,
        !(text_before(a, b) && text_before(b, a)),
        !text_before(a, a),
    decreases a.len(),
{
    if a.len() > 0 && b.len() > 0 && a[0] == b[0] {
        text_order_total(a.skip(1), b.skip(1));
        if a.skip(1) == b.skip(1) {
            assert(a =~= seq![a[0]] + a.skip(1));
            assert(b =~= seq![b[0]] + b.skip(1));
        }
    }
    if a.len() == 0 && b.len() == 0 {
        assert(a =~= b);
    }
    if a.len() > 0 {
        text_order_total(a.skip(1), a.skip(1));
    }
}

/// The order of texts is transitive.
pub proof fn text_order_transitive(a: Seq<char>, b: Seq<char>, c: Seq<char>)
    requires
        text_before(a, b),
        text_before(b, c),
    ensures
        text_before(a, c),
    decreases a.len(),
{
    if a.len() > 0 && b.len() > 0 && c.len() > 0 && a[0] == b[0] && b[0] == c[0] {
        text_order_transitive(a.skip(1), b.skip(1), c.skip(1));
    }
}

/// Whether `a` stands before `b` in the order of code points.
pub fn is_before(a: &str, b: &str) -> (r: bool)
    ensures
        r == text_before(a@, b@),
{
    let left = chars_of(a);
    let right = chars_of(b);
    let mut k: usize = 0;
    assert(a@.skip(0) =~= a@);
    assert(b@.skip(0) =~= b@);
    while k < left.len() && k < right.len()
        invariant
            left@ == a@,
            right@ == b@,
            k <= left@.len(),
            k <= right@.len(),
            text_before(a@.skip(k as int), b@.skip(k as int)) == text_before(a@, b@),
        decreases left@.len() - k,
    {
        if left[k] != right[k] {
            return left[k] < right[k];
        }
        assert(a@.skip(k as int).skip(1) =~= a@.skip(k + 1));
        assert(b@.skip(k as int).skip(1) =~= b@.skip(k + 1));
        k += 1;
    }
    k < right.len()
}

/// What can be put in order: `precedes` is a strict weak order, and
/// `comes_first` decides it.
pub trait Ranked: Sized {
    spec fn precedes(self, other: Self) -> bool;

    proof fn order_laws(a: Self, b: Self, c: Self)
        ensures
            !(a.precedes(b) && b.precedes(a)),
            a.precedes(b) && b.precedes(c) ==> a.precedes(c),
            a.precedes(c) ==> a.precedes(b) || b.precedes(c),
    ;

    fn comes_first(&self, other: &Self) -> (r: bool)
        ensures
            r == self.precedes(*other),
    ;
}

/// Nothing stands behind what it precedes.
pub open spec fn in_order<T: Ranked>(s: Seq<T>) -> bool {
    forall|i: int, j: int| 0 <= i < j < s.len() ==> !(#[trigger] s[j]).precedes(#[trigger] s[i])
}

/// What neither precedes `x` nor is preceded by it.
pub open spec fn same_rank<T: Ranked>(x: T) -> spec_fn(T) -> bool {
    |y: T| !x.precedes(y) && !y.precedes(x)
}

/// `r` is `s` put in order, with items of the same rank left in the order in
/// which they stand in `s`.
pub open spec fn is_sorted_from<T: Ranked>(s: Seq<T>, r: Seq<T>) -> bool {
    &&& r.to_multiset() == s.to_multiset()
    &&& in_order(r)
    &&& forall|x: T| #[trigger] r.filter(same_rank(x)) == s.filter(same_rank(x))
}

proof fn lemma_filter_push<T>(s: Seq<T>, x: T, p: spec_fn(T) -> bool)
    ensures
        s.push(x).filter(p) == if p(x) {
            s.filter(p).push(x)
        } else {
            s.filter(p)
        },
{
    reveal(Seq::filter);
    assert(s.push(x).drop_last() =~= s);
}

proof fn lemma_take_right<T: Ranked>(l: Seq<T>, r: Seq<T>, b: Seq<T>)
    requires
        r.len() > 0,
        in_order(l),
        in_order(r),
        in_order(b.reverse()),
        l.len() == 0 || !r.last().precedes(l.last()),
        forall|i: int, j: int|
            0 <= i < r.len() && 0 <= j < b.len() ==> !(#[trigger] b[j]).precedes(#[trigger] r[i]),
    ensures
        l + r.drop_last() + b.push(r.last()).reverse() == l + r + b.reverse(),
        in_order(b.push(r.last()).reverse()),
        forall|i: int| 0 <= i < l.len() ==> !r.last().precedes(#[trigger] l[i]),
        forall|i: int| 0 <= i < r.len() - 1 ==> !r.last().precedes(#[trigger] r[i]),
{
    let x = r.last();
    let nb = b.push(x).reverse();
    assert(nb =~= seq![x] + b.reverse());
    assert(l + r.drop_last() + nb =~= l + r + b.reverse());
    assert forall|i: int, j: int| 0 <= i < j < nb.len() implies !(#[trigger] nb[j]).precedes(
        #[trigger] nb[i],
    ) by {
        if i == 0 {
            assert(nb[j] == b[b.len() - j]);
            assert(x == r[r.len() - 1]);
        } else {
            assert(nb[i] == b.reverse()[i - 1]);
            assert(nb[j] == b.reverse()[j - 1]);
        }
    }
    assert forall|i: int| 0 <= i < l.len() implies !x.precedes(#[trigger] l[i]) by {
        T::order_laws(x, l.last(), l[i]);
        if i < l.len() - 1 {
            assert(!l[l.len() - 1].precedes(l[i]));
        }
    }
}

proof fn lemma_take_left<T: Ranked>(l: Seq<T>, r: Seq<T>, b: Seq<T>)
    requires
        l.len() > 0,
        in_order(l),
        in_order(r),
        in_order(b.reverse()),
        r.len() == 0 || r.last().precedes(l.last()),
        forall|i: int, j: int|
            0 <= i < l.len() && 0 <= j < b.len() ==> !(#[trigger] b[j]).precedes(#[trigger] l[i]),
    ensures
        (l.drop_last() + r + b.push(l.last()).reverse()).to_multiset() == (l + r
            + b.reverse()).to_multiset(),
        forall|x: T|
            #[trigger] (l.drop_last() + r + b.push(l.last()).reverse()).filter(same_rank(x)) == (l
                + r + b.reverse()).filter(same_rank(x)),
        in_order(b.push(l.last()).reverse()),
        forall|i: int| 0 <= i < r.len() ==> !l.last().precedes(#[trigger] r[i]),
        forall|i: int| 0 <= i < l.len() - 1 ==> !l.last().precedes(#[trigger] l[i]),
{
    let y = l.last();
    let front = l.drop_last();
    let nb = b.push(y).reverse();
    let one = seq![y];
    assert(nb =~= one + b.reverse());
    assert(l =~= front + one);
    assert forall|i: int, j: int| 0 <= i < j < nb.len() implies !(#[trigger] nb[j]).precedes(
        #[trigger] nb[i],
    ) by {
        if i == 0 {
            assert(nb[j] == b[b.len() - j]);
            assert(y == l[l.len() - 1]);
        } else {
            assert(nb[i] == b.reverse()[i - 1]);
            assert(nb[j] == b.reverse()[j - 1]);
        }
    }
    assert forall|i: int| 0 <= i < r.len() implies (#[trigger] r[i]).precedes(y) by {
        if i < r.len() - 1 {
            assert(!r[r.len() - 1].precedes(r[i]));
        }
        T::order_laws(r.last(), r[i], y);
    }
    assert forall|i: int| 0 <= i < r.len() implies !y.precedes(#[trigger] r[i]) by {
        T::order_laws(r[i], y, y);
    }
    assert(front + r + nb =~= front + (r + one) + b.reverse());
    assert(l + r + b.reverse() =~= front + (one + r) + b.reverse());
    vstd::seq_lib::lemma_multiset_commutative(front + (r + one), b.reverse());
    vstd::seq_lib::lemma_multiset_commutative(front + (one + r), b.reverse());
    vstd::seq_lib::lemma_multiset_commutative(front, r + one);
    vstd::seq_lib::lemma_multiset_commutative(front, one + r);
    vstd::seq_lib::lemma_multiset_commutative(r, one);
    vstd::seq_lib::lemma_multiset_commutative(one, r);
    assert((front + (r + one) + b.reverse()).to_multiset() =~= (front + (one + r)
        + b.reverse()).to_multiset());
    assert forall|x: T|
        #[trigger] (front + r + nb).filter(same_rank(x)) == (l + r + b.reverse()).filter(
            same_rank(x),
        ) by {
        let p = same_rank(x);
        Seq::filter_distributes_over_add(front + (r + one), b.reverse(), p);
        Seq::filter_distributes_over_add(front + (one + r), b.reverse(), p);
        Seq::filter_distributes_over_add(front, r + one, p);
        Seq::filter_distributes_over_add(front, one + r, p);
        Seq::filter_distributes_over_add(r, one, p);
        Seq::filter_distributes_over_add(one, r, p);
        lemma_filter_push(Seq::<T>::empty(), y, p);
        assert(one =~= Seq::<T>::empty().push(y));
        reveal(Seq::filter);
        assert(Seq::<T>::empty().filter(p) =~= Seq::<T>::empty());
        if p(y) {
            assert forall|i: int| 0 <= i < r.len() implies !p(#[trigger] r[i]) by {
                T::order_laws(r[i], x, y);
            }
            r.lemma_all_neg_filter_empty(p);
            assert(r.filter(p) =~= Seq::<T>::empty());
        }
        assert((r + one).filter(p) =~= (one + r).filter(p));
    }
}

/// Merging takes the greater of the two last items, and on a tie the right one.
fn merge<T: Ranked>(left: Vec<T>, right: Vec<T>) -> (r: Vec<T>)
    requires
        in_order(left@),
        in_order(right@),
    ensures
        is_sorted_from(left@ + right@, r@),
{
    let mut l = left;
    let mut r = right;
    let ghost whole = left@ + right@;
    let mut back: Vec<T> = Vec::new();
    proof {
        assert(back@.reverse() =~= Seq::<T>::empty());
        assert(l@ + r@ + back@.reverse() =~= whole);
    }
    while l.len() > 0 || r.len() > 0
        invariant
            in_order(l@),
            in_order(r@),
            in_order(back@.reverse()),
            (l@ + r@ + back@.reverse()).to_multiset() == whole.to_multiset(),
            forall|x: T|
                #[trigger] (l@ + r@ + back@.reverse()).filter(same_rank(x)) == whole.filter(
                    same_rank(x),
                ),
            forall|i: int, j: int|
                0 <= i < l@.len() && 0 <= j < back@.len() ==> !(#[trigger] back@[j]).precedes(
                    #[trigger] l@[i],
                ),
            forall|i: int, j: int|
                0 <= i < r@.len() && 0 <= j < back@.len() ==> !(#[trigger] back@[j]).precedes(
                    #[trigger] r@[i],
                ),
        decreases l@.len() + r@.len(),
    {
        let ghost l0 = l@;
        let ghost r0 = r@;
        let ghost b0 = back@;
        let from_right = if l.len() == 0 {
            true
        } else if r.len() == 0 {
            false
        } else {
            !r[r.len() - 1].comes_first(&l[l.len() - 1])
        };
        if from_right {
            if let Some(x) = r.pop() {
                proof {
                    lemma_take_right(l0, r0, b0);
                }
                back.push(x);
            }
        } else {
            if let Some(x) = l.pop() {
                proof {
                    lemma_take_left(l0, r0, b0);
                }
                back.push(x);
            }
        }
    }
    let ghost b = back@;
    assert(l@ + r@ + b.reverse() =~= b.reverse());
    let mut out: Vec<T> = Vec::new();
    while back.len() > 0
        invariant
            out@ + back@.reverse() =~= b.reverse(),
        decreases back@.len(),
    {
        if let Some(x) = back.pop() {
            out.push(x);
        }
    }
    assert(out@ =~= b.reverse());
    out
}

/// Sorts, and leaves items of the same rank in the order in which they stand.
pub fn sort<T: Ranked>(items: Vec<T>) -> (r: Vec<T>)
    ensures
        is_sorted_from(items@, r@),
    decreases items@.len(),
{
    if items.len() <= 1 {
        return items;
    }
    let ghost whole = items@;
    let mut left = items;
    let middle: usize = left.len() / 2;
    let right = left.split_off(middle);
    let ghost l0 = left@;
    let ghost r0 = right@;
    let l = sort(left);
    let r = sort(right);
    let merged = merge(l, r);
    proof {
        assert(l0 + r0 =~= whole);
        vstd::seq_lib::lemma_multiset_commutative(l0, r0);
        vstd::seq_lib::lemma_multiset_commutative(l@, r@);
        assert(merged@.to_multiset() =~= whole.to_multiset());
        assert forall|x: T|
            #[trigger] merged@.filter(same_rank(x)) == whole.filter(same_rank(x)) by {
            Seq::filter_distributes_over_add(l0, r0, same_rank(x));
            Seq::filter_distributes_over_add(l@, r@, same_rank(x));
            assert((l@ + r@).filter(same_rank(x)) == whole.filter(same_rank(x))) by {
                assert(l@.filter(same_rank(x)) == l0.filter(same_rank(x)));
                assert(r@.filter(same_rank(x)) == r0.filter(same_rank(x)));
            }
        }
    }
    merged
}

/// Two sequences that are in order and hold the same items of each rank in the
/// same order are equal: sorting leaves no choice.
pub proof fn sorted_is_unique<T: Ranked>(a: Seq<T>, b: Seq<T>)
    requires
        in_order(a),
        in_order(b),
        forall|x: T| #[trigger] a.filter(same_rank(x)) == b.filter(same_rank(x)),
    ensures
        a == b,
    decreases a.len(),
{
    if a.len() == 0 {
        if b.len() > 0 {
            lemma_last_of_rank(b, b.last());
            assert(a.filter(same_rank(b.last())) == b.filter(same_rank(b.last())));
            reveal(Seq::filter);
        }
        assert(a =~= b);
    } else {
        let x = a.last();
        lemma_last_of_rank(a, x);
        assert(a.filter(same_rank(x)) == b.filter(same_rank(x)));
        if b.len() == 0 {
            reveal(Seq::filter);
            assert(false);
        }
        let y = b.last();
        lemma_last_of_rank(b, y);
        assert(a.filter(same_rank(y)) == b.filter(same_rank(y)));
        // Neither of the two last items precedes the other.
        lemma_greatest(b, x);
        lemma_greatest(a, y);
        lemma_last_of_rank(b, x);
        assert(x == y);
        let a0 = a.drop_last();
        let b0 = b.drop_last();
        assert forall|z: T| #[trigger] a0.filter(same_rank(z)) == b0.filter(same_rank(z)) by {
            let p = same_rank(z);
            assert(a.filter(p) == b.filter(p));
            assert(a0.push(x) =~= a);
            assert(b0.push(x) =~= b);
            lemma_filter_push(a0, x, p);
            lemma_filter_push(b0, x, p);
            if p(x) {
                assert(a.filter(p).drop_last() =~= a0.filter(p));
                assert(b.filter(p).drop_last() =~= b0.filter(p));
            }
        }
        sorted_is_unique(a0, b0);
        assert(a =~= a0.push(x));
        assert(b =~= b0.push(x));
    }
}

proof fn lemma_last_of_rank<T: Ranked>(s: Seq<T>, x: T)
    requires
        s.len() > 0,
        same_rank(x)(s.last()) || x == s.last(),
    ensures
        s.filter(same_rank(x)).len() > 0,
        s.filter(same_rank(x)).last() == s.last(),
{
    T::order_laws(x, x, x);
    assert(s.drop_last().push(s.last()) =~= s);
    lemma_filter_push(s.drop_last(), s.last(), same_rank(x));
}

/// The last item of an ordered sequence does not precede an item whose rank
/// occurs in it.
proof fn lemma_greatest<T: Ranked>(s: Seq<T>, x: T)
    requires
        in_order(s),
        s.len() > 0,
        s.filter(same_rank(x)).len() > 0,
    ensures
        !s.last().precedes(x),
{
    let p = same_rank(x);
    let y = s.filter(p)[0];
    assert(s.filter(p).contains(y));
    s.lemma_filter_pred(p, 0);
    s.lemma_filter_contains_rev(p, y);
    let i = choose|i: int| 0 <= i < s.len() && s[i] == y;
    T::order_laws(s.last(), y, x);
    if i < s.len() - 1 {
        assert(!s[s.len() - 1].precedes(s[i]));
    } else {
        T::order_laws(y, y, y);
    }
}

} // verus!
