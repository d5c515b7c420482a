//! The comparator traits: a [`Comparator`] is a total order over raw key
//! bytes, and a [`LexicographicComparator`] derives that order element-wise,
//! scanning both keys up to the shorter length, deciding at the first
//! differing position, and letting the shorter key collate first when one
//! key is a prefix of the other.
//!
//! The order a comparator computes must exactly match the order the store
//! was configured with; a mismatch silently misorders range reads and is a
//! documented caller responsibility, not a detectable error.

use core::cmp::Ordering;
use vstd::prelude::*;

verus! {

/// Define a custom key comparison function for a database.
///
/// The comparison function is called whenever it is necessary to compare a
/// key specified by the application with a key currently stored in the
/// database. If no comparison function is specified, the keys are compared
/// lexically, with shorter keys collating before longer keys.
///
/// Every implementation carries proof obligations making the order a valid
/// total order: two keys compare `Equal` exactly when they are the same
/// bytes, `Less` is the mirror of `Greater`, and `Less` is transitive.
pub trait Comparator {
    /// The mathematical order this comparator computes.
    spec fn spec_compare(a: Seq<u8>, b: Seq<u8>) -> Ordering;

    /// Compares the raw bytes representation of two keys.
    fn compare(a: &[u8], b: &[u8]) -> (r: Ordering)
        ensures
            r == Self::spec_compare(a@, b@),
    ;

    /// The order is consistent with equality: two keys compare `Equal`
    /// exactly when they hold the same bytes.
    proof fn lemma_compare_equal(a: Seq<u8>, b: Seq<u8>)
        ensures
            Self::spec_compare(a, b) == Ordering::Equal <==> a == b,
    ;

    /// The order is antisymmetric: `a` sorts below `b` exactly when `b`
    /// sorts above `a`.
    proof fn lemma_compare_antisymmetric(a: Seq<u8>, b: Seq<u8>)
        ensures
            Self::spec_compare(a, b) == Ordering::Less <==> Self::spec_compare(b, a)
                == Ordering::Greater,
    ;

    /// The order is transitive.
    proof fn lemma_compare_transitive(a: Seq<u8>, b: Seq<u8>, c: Seq<u8>)
        requires
            Self::spec_compare(a, b) == Ordering::Less,
            Self::spec_compare(b, c) == Ordering::Less,
        ensures
            Self::spec_compare(a, c) == Ordering::Less,
    ;
}

/// Define a lexicographic comparator, which is a special case of
/// [`Comparator`].
///
/// Types that implement [`LexicographicComparator`] automatically have
/// [`Comparator`] implemented as well, where [`Comparator::compare`] is
/// implemented per the definition of lexicographic ordering with
/// [`LexicographicComparator::compare_elem`].
///
/// This trait is introduced to support prefix iterators, which implicitly
/// assume that the underlying key comparator is lexicographic: `successor`
/// and `predecessor` return `None` exactly at the order's extremum, which
/// lets a caller compute exact prefix-range boundary keys.
pub trait LexicographicComparator: Sized {
    /// The mathematical order on single bytes this comparator derives
    /// its key order from.
    spec fn spec_compare_elem(a: u8, b: u8) -> Ordering;

    /// Compare a single byte; this function is used to implement
    /// [`Comparator::compare`] by definition of lexicographic ordering.
    fn compare_elem(a: u8, b: u8) -> (r: Ordering)
        ensures
            r == Self::spec_compare_elem(a, b),
    ;

    /// The immediate successor of `elem` in the element order, if any.
    spec fn spec_successor(elem: u8) -> Option<u8>;

    /// Advances the given `elem` to its immediate lexicographic successor,
    /// if possible. Returns `None` if `elem` is already at its maximum
    /// value with respect to the lexicographic order defined by this
    /// comparator.
    fn successor(elem: u8) -> (r: Option<u8>)
        ensures
            r == Self::spec_successor(elem),
    ;

    /// The immediate predecessor of `elem` in the element order, if any.
    spec fn spec_predecessor(elem: u8) -> Option<u8>;

    /// Moves the given `elem` to its immediate lexicographic predecessor,
    /// if possible. Returns `None` if `elem` is already at its minimum
    /// value with respect to the lexicographic order defined by this
    /// comparator.
    fn predecessor(elem: u8) -> (r: Option<u8>)
        ensures
            r == Self::spec_predecessor(elem),
    ;

    /// The greatest byte in the element order.
    spec fn spec_max_elem() -> u8;

    /// Returns the maximum byte value per the comparator's lexicographic
    /// order.
    fn max_elem() -> (r: u8)
        ensures
            r == Self::spec_max_elem(),
    ;

    /// The least byte in the element order.
    spec fn spec_min_elem() -> u8;

    /// Returns the minimum byte value per the comparator's lexicographic
    /// order.
    fn min_elem() -> (r: u8)
        ensures
            r == Self::spec_min_elem(),
    ;

    /// The element order is consistent with equality: two bytes compare
    /// `Equal` exactly when they are the same byte.
    proof fn lemma_elem_equal(a: u8, b: u8)
        ensures
            Self::spec_compare_elem(a, b) == Ordering::Equal <==> a == b,
    ;

    /// The element order is antisymmetric.
    proof fn lemma_elem_antisymmetric(a: u8, b: u8)
        ensures
            Self::spec_compare_elem(a, b) == Ordering::Less <==> Self::spec_compare_elem(b, a)
                == Ordering::Greater,
    ;

    /// The element order is transitive.
    proof fn lemma_elem_transitive(a: u8, b: u8, c: u8)
        requires
            Self::spec_compare_elem(a, b) == Ordering::Less,
            Self::spec_compare_elem(b, c) == Ordering::Less,
        ensures
            Self::spec_compare_elem(a, c) == Ordering::Less,
    ;

    /// The maximum element has no successor.
    proof fn lemma_successor_at_max()
        ensures
            Self::spec_successor(Self::spec_max_elem()) is None,
    ;

    /// The minimum element has no predecessor.
    proof fn lemma_predecessor_at_min()
        ensures
            Self::spec_predecessor(Self::spec_min_elem()) is None,
    ;

    /// Every element below the maximum has a successor, that successor
    /// sorts strictly above the element, and stepping back down returns
    /// the element itself.
    proof fn lemma_successor_below_max(elem: u8)
        requires
            elem != Self::spec_max_elem(),
        ensures
            Self::spec_successor(elem) matches Some(s) && Self::spec_predecessor(s) == Some(elem)
                && Self::spec_compare_elem(elem, s) == Ordering::Less,
    ;

    /// Every element above the minimum has a predecessor, that predecessor
    /// sorts strictly below the element, and stepping back up returns the
    /// element itself.
    proof fn lemma_predecessor_above_min(elem: u8)
        requires
            elem != Self::spec_min_elem(),
        ensures
            Self::spec_predecessor(elem) matches Some(p) && Self::spec_successor(p) == Some(elem)
                && Self::spec_compare_elem(p, elem) == Ordering::Less,
    ;

    /// The successor is immediate: it sorts at or below every element
    /// that sorts strictly above the element, so nothing lies strictly
    /// between an element and its successor.
    proof fn lemma_successor_immediate(elem: u8, mid: u8)
        requires
            elem != Self::spec_max_elem(),
            Self::spec_compare_elem(elem, mid) == Ordering::Less,
        ensures
            Self::spec_successor(elem) matches Some(s) && (s == mid || Self::spec_compare_elem(
                s,
                mid,
            ) == Ordering::Less),
    ;
}

/// The lexicographic order over byte sequences derived from `C`'s element
/// order: scan both sequences position by position up to the shorter
/// length; at the first differing position the element order decides; if
/// no difference is found within the shorter length, the shorter sequence
/// sorts first.
pub open spec fn lex_compare<C: LexicographicComparator>(a: Seq<u8>, b: Seq<u8>) -> Ordering
    decreases a.len(),
{
    if a.len() == 0 && b.len() == 0 {
        Ordering::Equal
    } else if a.len() == 0 {
        Ordering::Less
    } else if b.len() == 0 {
        Ordering::Greater
    } else if a[0] != b[0] {
        C::spec_compare_elem(a[0], b[0])
    } else {
        lex_compare::<C>(a.drop_first(), b.drop_first())
    }
}

/// At the first position where the two sequences differ, the element
/// order decides the lexicographic order.
pub proof fn lemma_lex_compare_first_diff<C: LexicographicComparator>(
    a: Seq<u8>,
    b: Seq<u8>,
    i: int,
)
    requires
        0 <= i < a.len(),
        i < b.len(),
        a[i] != b[i],
        forall|j: int| 0 <= j < i ==> a[j] == b[j],
    ensures
        lex_compare::<C>(a, b) == C::spec_compare_elem(a[i], b[i]),
    decreases i,
{
    if i == 0 {
    } else {
        assert(a[0] == b[0]);
        assert forall|j: int| 0 <= j < i - 1 implies a.drop_first()[j] == b.drop_first()[j] by {
            assert(a[j + 1] == b[j + 1]);
        }
        lemma_lex_compare_first_diff::<C>(a.drop_first(), b.drop_first(), i - 1);
    }
}

/// When the two sequences agree on every position up to the shorter
/// length, their lengths decide the lexicographic order: the shorter
/// sequence sorts first and sequences of equal length are equal.
pub proof fn lemma_lex_compare_common_prefix<C: LexicographicComparator>(a: Seq<u8>, b: Seq<u8>)
    requires
        forall|j: int| 0 <= j < a.len() && j < b.len() ==> a[j] == b[j],
    ensures
        a.len() < b.len() ==> lex_compare::<C>(a, b) == Ordering::Less,
        a.len() > b.len() ==> lex_compare::<C>(a, b) == Ordering::Greater,
        a.len() == b.len() ==> lex_compare::<C>(a, b) == Ordering::Equal && a == b,
    decreases a.len(),
{
    if a.len() == 0 || b.len() == 0 {
        if a.len() == b.len() {
            assert(a =~= b);
        }
    } else {
        assert forall|j: int|
            0 <= j < a.drop_first().len() && j < b.drop_first().len() implies a.drop_first()[j]
            == b.drop_first()[j] by {
            assert(a[j + 1] == b[j + 1]);
        }
        lemma_lex_compare_common_prefix::<C>(a.drop_first(), b.drop_first());
        if a.len() == b.len() {
            assert(a =~= b);
        }
    }
}

/// The lexicographic order is consistent with equality.
pub proof fn lemma_lex_compare_equal<C: LexicographicComparator>(a: Seq<u8>, b: Seq<u8>)
    ensures
        lex_compare::<C>(a, b) == Ordering::Equal <==> a == b,
    decreases a.len(),
{
    if a.len() == 0 && b.len() == 0 {
        assert(a =~= b);
    } else if a.len() == 0 || b.len() == 0 {
    } else if a[0] != b[0] {
        C::lemma_elem_equal(a[0], b[0]);
    } else {
        lemma_lex_compare_equal::<C>(a.drop_first(), b.drop_first());
        if a.drop_first() == b.drop_first() {
            assert(a =~= a.drop_first().insert(0, a[0]));
            assert(b =~= b.drop_first().insert(0, b[0]));
        } else if a == b {
            assert(a.drop_first() =~= b.drop_first());
        }
    }
}

/// The lexicographic order is antisymmetric.
pub proof fn lemma_lex_compare_antisymmetric<C: LexicographicComparator>(a: Seq<u8>, b: Seq<u8>)
    ensures
        lex_compare::<C>(a, b) == Ordering::Less <==> lex_compare::<C>(b, a) == Ordering::Greater,
    decreases a.len(),
{
    if a.len() == 0 || b.len() == 0 {
    } else if a[0] != b[0] {
        C::lemma_elem_antisymmetric(a[0], b[0]);
    } else {
        lemma_lex_compare_antisymmetric::<C>(a.drop_first(), b.drop_first());
    }
}

/// The lexicographic order is transitive.
pub proof fn lemma_lex_compare_transitive<C: LexicographicComparator>(
    a: Seq<u8>,
    b: Seq<u8>,
    c: Seq<u8>,
)
    requires
        lex_compare::<C>(a, b) == Ordering::Less,
        lex_compare::<C>(b, c) == Ordering::Less,
    ensures
        lex_compare::<C>(a, c) == Ordering::Less,
    decreases a.len(),
{
    if a.len() == 0 {
        if c.len() == 0 {
            if b.len() == 0 {
                assert(lex_compare::<C>(b, c) == Ordering::Equal);
            } else {
                assert(lex_compare::<C>(b, c) == Ordering::Greater);
            }
        }
    } else {
        assert(b.len() > 0);
        assert(c.len() > 0);
        if a[0] != b[0] {
            C::lemma_elem_equal(a[0], b[0]);
            if b[0] != c[0] {
                if a[0] != c[0] {
                    C::lemma_elem_transitive(a[0], b[0], c[0]);
                } else {
                    C::lemma_elem_transitive(a[0], b[0], c[0]);
                    C::lemma_elem_equal(a[0], c[0]);
                }
            } else {
                assert(a[0] != c[0]);
            }
        } else {
            if b[0] != c[0] {
                assert(a[0] != c[0]);
            } else {
                lemma_lex_compare_transitive::<C>(a.drop_first(), b.drop_first(), c.drop_first());
            }
        }
    }
}

/// The lexicographic order of single-byte keys is the element order.
pub proof fn lemma_lex_compare_single<C: LexicographicComparator>(x: u8, y: u8)
    ensures
        x != y ==> lex_compare::<C>(seq![x], seq![y]) == C::spec_compare_elem(x, y),
        x == y ==> lex_compare::<C>(seq![x], seq![y]) == Ordering::Equal,
{
    if x == y {
        assert(seq![x] =~= seq![y]);
        lemma_lex_compare_equal::<C>(seq![x], seq![y]);
    }
}

/// For every element not at the order's maximum: its successor exists,
/// stepping back down returns the element, the element's single-byte key
/// sorts strictly below its successor's, and no single-byte key lies
/// strictly between the two — which is what lets a prefix range's exact
/// upper boundary be computed by stepping the last byte.
pub proof fn lemma_successor_adjacent_keys<C: LexicographicComparator>(e: u8)
    requires
        e != C::spec_max_elem(),
    ensures
        C::spec_successor(e) matches Some(s) && {
            &&& C::spec_predecessor(s) == Some(e)
            &&& lex_compare::<C>(seq![e], seq![s]) == Ordering::Less
            &&& forall|m: u8|
                !(lex_compare::<C>(seq![e], seq![m]) == Ordering::Less && lex_compare::<C>(
                    seq![m],
                    seq![s],
                ) == Ordering::Less)
        },
{
    C::lemma_successor_below_max(e);
    let s = C::spec_successor(e)->0;
    C::lemma_elem_equal(e, s);
    lemma_lex_compare_single::<C>(e, s);
    assert forall|m: u8|
        !(lex_compare::<C>(seq![e], seq![m]) == Ordering::Less && lex_compare::<C>(
            seq![m],
            seq![s],
        ) == Ordering::Less) by {
        if lex_compare::<C>(seq![e], seq![m]) == Ordering::Less && lex_compare::<C>(
            seq![m],
            seq![s],
        ) == Ordering::Less {
            lemma_lex_compare_single::<C>(e, m);
            lemma_lex_compare_single::<C>(m, s);
            assert(C::spec_compare_elem(e, m) == Ordering::Less);
            assert(C::spec_compare_elem(m, s) == Ordering::Less);
            C::lemma_successor_immediate(e, m);
            C::lemma_elem_equal(m, s);
            C::lemma_elem_antisymmetric(s, m);
        }
    }
}

impl<C: LexicographicComparator> Comparator for C {
    open spec fn spec_compare(a: Seq<u8>, b: Seq<u8>) -> Ordering {
        lex_compare::<C>(a, b)
    }

    fn compare(a: &[u8], b: &[u8]) -> (r: Ordering) {
        let a_len = a.len();
        let b_len = b.len();
        let min_len = if a_len < b_len {
            a_len
        } else {
            b_len
        };
        let mut idx: usize = 0;
        while idx < min_len
            invariant
                idx <= min_len,
                min_len <= a@.len(),
                min_len <= b@.len(),
                min_len == a@.len() || min_len == b@.len(),
                forall|j: int| 0 <= j < idx ==> a@[j] == b@[j],
            decreases min_len - idx,
        {
            if a[idx] != b[idx] {
                let r = C::compare_elem(a[idx], b[idx]);
                proof {
                    lemma_lex_compare_first_diff::<C>(a@, b@, idx as int);
                }
                return r;
            }
            idx = idx + 1;
        }
        proof {
            lemma_lex_compare_common_prefix::<C>(a@, b@);
        }
        if a_len < b_len {
            Ordering::Less
        } else if a_len > b_len {
            Ordering::Greater
        } else {
            Ordering::Equal
        }
    }

    proof fn lemma_compare_equal(a: Seq<u8>, b: Seq<u8>) {
        lemma_lex_compare_equal::<C>(a, b);
    }

    proof fn lemma_compare_antisymmetric(a: Seq<u8>, b: Seq<u8>) {
        lemma_lex_compare_antisymmetric::<C>(a, b);
    }

    proof fn lemma_compare_transitive(a: Seq<u8>, b: Seq<u8>, c: Seq<u8>) {
        lemma_lex_compare_transitive::<C>(a, b, c);
    }
}

/// The comparator used when no custom one is registered: plain byte order,
/// with shorter keys collating before longer keys.
pub struct DefaultComparator;

impl LexicographicComparator for DefaultComparator {
    open spec fn spec_compare_elem(a: u8, b: u8) -> Ordering {
        if a < b {
            Ordering::Less
        } else if a == b {
            Ordering::Equal
        } else {
            Ordering::Greater
        }
    }

    fn compare_elem(a: u8, b: u8) -> (r: Ordering) {
        if a < b {
            Ordering::Less
        } else if a == b {
            Ordering::Equal
        } else {
            Ordering::Greater
        }
    }

    open spec fn spec_successor(elem: u8) -> Option<u8> {
        if elem == 255 {
            None
        } else {
            Some((elem + 1) as u8)
        }
    }

    fn successor(elem: u8) -> (r: Option<u8>) {
        if elem == 255 {
            None
        } else {
            Some(elem + 1)
        }
    }

    open spec fn spec_predecessor(elem: u8) -> Option<u8> {
        if elem == 0 {
            None
        } else {
            Some((elem - 1) as u8)
        }
    }

    fn predecessor(elem: u8) -> (r: Option<u8>) {
        if elem == 0 {
            None
        } else {
            Some(elem - 1)
        }
    }

    open spec fn spec_max_elem() -> u8 {
        255
    }

    fn max_elem() -> (r: u8) {
        255
    }

    open spec fn spec_min_elem() -> u8 {
        0
    }

    fn min_elem() -> (r: u8) {
        0
    }

    proof fn lemma_elem_equal(a: u8, b: u8) {
    }

    proof fn lemma_elem_antisymmetric(a: u8, b: u8) {
    }

    proof fn lemma_elem_transitive(a: u8, b: u8, c: u8) {
    }

    proof fn lemma_successor_at_max() {
    }

    proof fn lemma_predecessor_at_min() {
    }

    proof fn lemma_successor_below_max(elem: u8) {
    }

    proof fn lemma_predecessor_above_min(elem: u8) {
    }

    proof fn lemma_successor_immediate(elem: u8, mid: u8) {
    }
}

} // verus!
