use std::cmp::Ordering;

use heed::{Comparator, DefaultComparator, LexicographicComparator};

#[test]
fn default_compare_first_difference_decides() {
    assert_eq!(DefaultComparator::compare(b"abc", b"abd"), Ordering::Less);
    assert_eq!(DefaultComparator::compare(b"abz", b"aby"), Ordering::Greater);
    assert_eq!(DefaultComparator::compare(b"zaa", b"abz"), Ordering::Greater);
}

#[test]
fn default_compare_equal_keys() {
    assert_eq!(DefaultComparator::compare(b"", b""), Ordering::Equal);
    assert_eq!(DefaultComparator::compare(b"same", b"same"), Ordering::Equal);
}

#[test]
fn default_compare_shorter_prefix_sorts_first() {
    assert_eq!(DefaultComparator::compare(b"ab", b"abc"), Ordering::Less);
    assert_eq!(DefaultComparator::compare(b"abc", b"ab"), Ordering::Greater);
    assert_eq!(DefaultComparator::compare(b"", b"a"), Ordering::Less);
}

#[test]
fn default_compare_is_transitive_on_samples() {
    let keys: [&[u8]; 6] = [b"", b"a", b"ab", b"b", b"ba", b"\xff"];
    for x in keys.iter() {
        for y in keys.iter() {
            for z in keys.iter() {
                if DefaultComparator::compare(x, y) == Ordering::Less
                    && DefaultComparator::compare(y, z) == Ordering::Less
                {
                    assert_eq!(DefaultComparator::compare(x, z), Ordering::Less);
                }
            }
            // antisymmetry on the same samples
            let xy = DefaultComparator::compare(x, y);
            let yx = DefaultComparator::compare(y, x);
            assert_eq!(xy == Ordering::Less, yx == Ordering::Greater);
            assert_eq!(xy == Ordering::Equal, x == y);
        }
    }
}

#[test]
fn successor_of_max_is_none() {
    assert_eq!(DefaultComparator::successor(DefaultComparator::max_elem()), None);
}

#[test]
fn predecessor_of_min_is_none() {
    assert_eq!(DefaultComparator::predecessor(DefaultComparator::min_elem()), None);
}

#[test]
fn predecessor_undoes_successor() {
    for elem in 0u8..=254 {
        let s = DefaultComparator::successor(elem).unwrap();
        assert_eq!(DefaultComparator::predecessor(s), Some(elem));
    }
    for elem in 1u8..=255 {
        let p = DefaultComparator::predecessor(elem).unwrap();
        assert_eq!(DefaultComparator::successor(p), Some(elem));
    }
}

#[test]
fn default_extrema() {
    assert_eq!(DefaultComparator::max_elem(), 255);
    assert_eq!(DefaultComparator::min_elem(), 0);
    assert_eq!(DefaultComparator::compare_elem(3, 7), Ordering::Less);
    assert_eq!(DefaultComparator::compare_elem(7, 7), Ordering::Equal);
    assert_eq!(DefaultComparator::compare_elem(9, 7), Ordering::Greater);
}
