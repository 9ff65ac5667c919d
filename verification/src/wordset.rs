//! Sets of words: distinct words, and the sizes of two word sets, their
//! intersection and their union, kept as vectors without repeats.
use vstd::prelude::*;
use vstd::set_lib::lemma_set_intersect_union_lens;
use crate::text::{chars_eq, extend_chars, lemma_views_push, views};

verus! {

/// The set of words in a list of words.
pub open spec fn word_set(ws: Seq<Seq<char>>) -> Set<Seq<char>> {
    ws.to_set()
}

/// A fresh copy of a character vector.
pub fn copy_chars(v: &Vec<char>) -> (r: Vec<char>)
    ensures
        r@ == v@,
{
    let mut r: Vec<char> = Vec::new();
    extend_chars(&mut r, v);
    r
}

/// Whether `w` is one of the words of `list`.
pub fn has_word(list: &Vec<Vec<char>>, w: &Vec<char>) -> (r: bool)
    ensures
        r == views(list@).contains(w@),
{
    let mut i: usize = 0;
    while i < list.len()
        invariant
            i <= list.len(),
            forall|j: int| 0 <= j < i ==> views(list@)[j] != w@,
        decreases list.len() - i,
    {
        if chars_eq(&list[i], w) {
            assert(views(list@)[i as int] == w@);
            return true;
        }
        i += 1;
    }
    false
}

/// The distinct words of `v`, in order of first occurrence.
pub fn distinct_words(v: &Vec<Vec<char>>) -> (r: Vec<Vec<char>>)
    ensures
        views(r@).no_duplicates(),
        views(r@).to_set() == views(v@).to_set(),
{
    let mut r: Vec<Vec<char>> = Vec::new();
    let mut i: usize = 0;
    while i < v.len()
        invariant
            i <= v.len(),
            views(r@).no_duplicates(),
            forall|x: Seq<char>| views(r@).contains(x) <==> views(v@).take(i as int).contains(x),
        decreases v.len() - i,
    {
        let ghost old_r = views(r@);
        let ghost prev = views(v@).take(i as int);
        let ghost next = views(v@).take(i + 1);
        proof {
            assert(next =~= prev.push(v@[i as int]@));
        }
        if !has_word(&r, &v[i]) {
            let w = copy_chars(&v[i]);
            proof {
                lemma_views_push(r@, w);
            }
            r.push(w);
            proof {
                assert forall|x: Seq<char>| views(r@).contains(x) <==> next.contains(x) by {
                    if views(r@).contains(x) {
                        let k = choose|k: int| 0 <= k < views(r@).len() && views(r@)[k] == x;
                        if k < old_r.len() {
                            assert(old_r[k] == x);
                            assert(old_r.contains(x));
                            assert(prev.contains(x));
                            let m = choose|m: int| 0 <= m < prev.len() && prev[m] == x;
                            assert(next[m] == x);
                        } else {
                            assert(next[i as int] == x);
                        }
                    }
                    if next.contains(x) && x != v@[i as int]@ {
                        let k = choose|k: int|
                            0 <= k < next.len() && next[k]
                                == x;
                        assert(prev[k] == x);
                        assert(prev.contains(x));
                        assert(old_r.contains(x));
                        let m = choose|m: int| 0 <= m < old_r.len() && old_r[m] == x;
                        assert(views(r@)[m] == x);
                    }
                    if x == v@[i as int]@ {
                        assert(views(r@)[views(r@).len() - 1] == x);
                        assert(next[i as int] == x);
                    }
                }
            }
        } else {
            proof {
                assert forall|x: Seq<char>| views(r@).contains(x) <==> next.contains(x) by {
                    if next.contains(x) && x != v@[i as int]@ {
                        let k = choose|k: int|
                            0 <= k < next.len() && next[k]
                                == x;
                        assert(prev[k] == x);
                    }
                    if views(r@).contains(x) {
                        assert(prev.contains(x));
                        let k = choose|k: int|
                            0 <= k < prev.len() && prev[k] == x;
                        assert(next[k] == x);
                    }
                }
            }
        }
        i += 1;
    }
    proof {
        assert(views(v@).take(v@.len() as int) =~= views(v@));
        assert(views(r@).to_set() =~= views(v@).to_set());
    }
    r
}

/// Sizes of two word sets and of their intersection.
pub struct Overlap {
    pub left: usize,
    pub right: usize,
    pub common: usize,
}

/// Sizes of the word sets of `a` and `b` and of their intersection.
pub fn word_overlap(a: &Vec<Vec<char>>, b: &Vec<Vec<char>>) -> (r: Overlap)
    ensures
        r.left == word_set(views(a@)).len(),
        r.right == word_set(views(b@)).len(),
        r.common == word_set(views(a@)).intersect(word_set(views(b@))).len(),
        word_set(views(a@)).union(word_set(views(b@))).len() == r.left + r.right - r.common,
        r.common <= r.left,
        r.common <= r.right,
        r.left <= a@.len(),
        r.right <= b@.len(),
{
    let da = distinct_words(a);
    let db = distinct_words(b);
    let ghost sa = views(da@);
    let ghost sb = views(db@);
    let mut common: Vec<Vec<char>> = Vec::new();
    let mut i: usize = 0;
    while i < da.len()
        invariant
            i <= da.len(),
            sa == views(da@),
            sb == views(db@),
            sa.no_duplicates(),
            views(common@).no_duplicates(),
            forall|x: Seq<char>|
                #[trigger] views(common@).contains(x) <==> (sa.take(i as int).contains(x)
                    && sb.contains(x)),
        decreases da.len() - i,
    {
        let ghost old_c = views(common@);
        let ghost pa = sa.take(i as int);
        let ghost na = sa.take(i + 1);
        proof {
            assert(na =~= pa.push(da@[i as int]@));
        }
        if has_word(&db, &da[i]) {
            let w = copy_chars(&da[i]);
            proof {
                lemma_views_push(common@, w);
                assert(!old_c.contains(w@)) by {
                    if old_c.contains(w@) {
                        assert(pa.contains(w@));
                        let k = choose|k: int|
                            0 <= k < pa.len() && pa[k] == w@;
                        assert(sa[k] == sa[i as int]);
                    }
                }
            }
            common.push(w);
            proof {
                assert forall|x: Seq<char>|
                    views(common@).contains(x) <==> (na.contains(x) && sb.contains(
                        x,
                    )) by {
                    if views(common@).contains(x) {
                        let k = choose|k: int|
                            0 <= k < views(common@).len() && views(common@)[k] == x;
                        if k < old_c.len() {
                            assert(old_c[k] == x);
                            assert(old_c.contains(x));
                            assert(pa.contains(x));
                            let m = choose|m: int|
                                0 <= m < pa.len() && pa[m] == x;
                            assert(na[m] == x);
                        } else {
                            assert(na[i as int] == x);
                        }
                    }
                    if na.contains(x) && sb.contains(x) {
                        let k = choose|k: int|
                            0 <= k < na.len() && na[k] == x;
                        if k < i {
                            assert(pa[k] == x);
                            assert(old_c.contains(x));
                            let m = choose|m: int| 0 <= m < old_c.len() && old_c[m] == x;
                            assert(views(common@)[m] == x);
                        } else {
                            assert(views(common@)[views(common@).len() - 1] == x);
                        }
                    }
                }
            }
        } else {
            proof {
                assert forall|x: Seq<char>|
                    views(common@).contains(x) <==> (na.contains(x) && sb.contains(
                        x,
                    )) by {
                    if views(common@).contains(x) {
                        assert(old_c.contains(x));
                        assert(pa.contains(x));
                        let m = choose|m: int|
                            0 <= m < pa.len() && pa[m] == x;
                        assert(na[m] == x);
                    }
                    if na.contains(x) && sb.contains(x) {
                        let k = choose|k: int|
                            0 <= k < na.len() && na[k] == x;
                        if k < i {
                            assert(pa[k] == x);
                        } else {
                            assert(sa[i as int] == x);
                        }
                    }
                }
            }
        }
        i += 1;
    }
    proof {
        assert(sa.take(sa.len() as int) =~= sa);
        let A = word_set(views(a@));
        let B = word_set(views(b@));
        assert forall|x: Seq<char>| views(common@).to_set().contains(x) <==> A.intersect(B).contains(x) by {
            if A.contains(x) {
                assert(views(da@).to_set().contains(x));
            }
            if B.contains(x) {
                assert(views(db@).to_set().contains(x));
            }
        }
        assert(views(common@).to_set() =~= A.intersect(B));
        views(common@).unique_seq_to_set();
        sa.unique_seq_to_set();
        sb.unique_seq_to_set();
        lemma_set_intersect_union_lens(A, B);
        vstd::set_lib::lemma_len_intersect(A, B);
        vstd::set_lib::lemma_len_intersect(B, A);
        assert(B.intersect(A) =~= A.intersect(B));
        views(a@).lemma_cardinality_of_set();
        views(b@).lemma_cardinality_of_set();
    }
    Overlap { left: da.len(), right: db.len(), common: common.len() }
}

/// A Jaccard similarity `shared / total` of two word sets: the size of the
/// intersection over the size of the union.
#[derive(Debug, Clone, Copy, PartialEq, Eq, Structural)]
pub struct Similarity {
    pub shared: u128,
    pub total: u128,
}

/// Jaccard similarity of the word sets of two word lists (`0 / 0` when both are empty).
pub open spec fn jaccard(a: Seq<Seq<char>>, b: Seq<Seq<char>>) -> Similarity {
    Similarity {
        shared: word_set(a).intersect(word_set(b)).len() as u128,
        total: word_set(a).union(word_set(b)).len() as u128,
    }
}

/// Jaccard similarity of the word sets of two word lists.
pub fn jaccard_words(a: &Vec<Vec<char>>, b: &Vec<Vec<char>>) -> (r: Similarity)
    ensures
        r == jaccard(views(a@), views(b@)),
        r.shared <= r.total,
        r.total == 0 <==> (word_set(views(a@)).len() == 0 && word_set(views(b@)).len() == 0),
{
    let o = word_overlap(a, b);
    Similarity { shared: o.common as u128, total: o.left as u128 + (o.right - o.common) as u128 }
}

} // verus!
