use core::cmp::Ordering;
use core::marker::PhantomData;

use vstd::prelude::*;
use vstd::slice::slice_subrange;

use crate::decode::{FSize, FromData, SafeStream};

verus! {

/// The elements that `bytes` holds, each decoded from its own run of
/// `T::spec_raw_size()` bytes; bytes left over after the last whole element
/// are not part of any.
pub open spec fn decode_elements<T: FromData>(bytes: Seq<u8>) -> Seq<T> {
    let n = T::spec_raw_size();
    Seq::new(bytes.len() / n, |i: int| T::spec_decode(bytes.subrange(i * n, i * n + n)))
}

/// Orders `Less` before `Equal` before `Greater`.
pub open spec fn ordering_rank(o: Ordering) -> int {
    match o {
        Ordering::Less => 0,
        Ordering::Equal => 1,
        Ordering::Greater => 2,
    }
}

/// `f`, which compares an element with some target, answers along `s` first
/// `Less`, then `Equal`, then `Greater`, and answers each element one way.
pub open spec fn sorted_by<T, F: Fn(&T) -> Ordering>(s: Seq<T>, f: F) -> bool {
    forall|i: int, j: int, a: Ordering, b: Ordering|
        0 <= i <= j < s.len() && #[trigger] f.ensures((&s[i],), a) && #[trigger] f.ensures(
            (&s[j],),
            b,
        ) ==> ordering_rank(a) <= ordering_rank(b)
}

/// What a search of `s` with `f` may return: an element that `f` finds equal,
/// or nothing, and when `s` is sorted by `f`, nothing only when no element is
/// found equal.
pub open spec fn search_outcome<T, F: Fn(&T) -> Ordering>(s: Seq<T>, f: F, r: Option<T>) -> bool {
    match r {
        Some(v) => exists|i: int|
            0 <= i < s.len() && s[i] == v && #[trigger] f.ensures((&s[i],), Ordering::Equal),
        None => sorted_by(s, f) ==> forall|i: int|
            0 <= i < s.len() ==> !#[trigger] f.ensures((&s[i],), Ordering::Equal),
    }
}

/// How `a` compares with `b`.
pub open spec fn compare_int(a: int, b: int) -> Ordering {
    if a < b {
        Ordering::Less
    } else if a == b {
        Ordering::Equal
    } else {
        Ordering::Greater
    }
}

/// Searching elements whose keys do not decrease, with a comparison of each
/// element's key against a target: when exactly one element has the target
/// as its key, the search returns that element; when none has, it returns
/// nothing.
pub proof fn lemma_search_sorted_keys<T, F: Fn(&T) -> Ordering>(
    s: Seq<T>,
    key: spec_fn(T) -> int,
    target: int,
    f: F,
    r: Option<T>,
)
    requires
        forall|i: int, j: int| 0 <= i <= j < s.len() ==> key(s[i]) <= key(s[j]),
        forall|x: T, o: Ordering| #[trigger] f.ensures((&x,), o) <==> o == compare_int(key(x), target),
        search_outcome(s, f, r),
    ensures
        forall|i: int|
            0 <= i < s.len() && key(#[trigger] s[i]) == target && (forall|j: int|
                0 <= j < s.len() && key(s[j]) == target ==> j == i) ==> r == Some(s[i]),
        (forall|i: int| 0 <= i < s.len() ==> key(#[trigger] s[i]) != target) ==> r is None,
{
    assert forall|i: int, j: int, a: Ordering, b: Ordering|
        0 <= i <= j < s.len() && #[trigger] f.ensures((&s[i],), a) && #[trigger] f.ensures(
            (&s[j],),
            b,
        ) implies ordering_rank(a) <= ordering_rank(b) by {
        assert(key(s[i]) <= key(s[j]));
    }
    assert(sorted_by(s, f));
    if r is Some {
        let k = choose|k: int|
            0 <= k < s.len() && s[k] == r->0 && #[trigger] f.ensures((&s[k],), Ordering::Equal);
        assert(key(s[k]) == target);
    }
    assert forall|i: int|
        0 <= i < s.len() && key(#[trigger] s[i]) == target && (forall|j: int|
            0 <= j < s.len() && key(s[j]) == target ==> j == i) implies r == Some(s[i]) by {
        assert(f.ensures((&s[i],), Ordering::Equal));
        let k = choose|k: int|
            0 <= k < s.len() && s[k] == r->0 && #[trigger] f.ensures((&s[k],), Ordering::Equal);
        assert(key(s[k]) == target);
    }
}

/// A view of a run of encoded `T` values that decodes an element each time it
/// is asked for.
pub struct LazyArray<'a, T> {
    data: &'a [u8],
    phantom: PhantomData<T>,
}

impl<'a, T> Clone for LazyArray<'a, T> {
    fn clone(&self) -> (r: Self)
        ensures
            r == *self,
    {
        LazyArray { data: self.data, phantom: PhantomData }
    }
}

impl<'a, T> Copy for LazyArray<'a, T> {

}

impl<'a, T: FromData> View for LazyArray<'a, T> {
    type V = Seq<T>;

    open spec fn view(&self) -> Seq<T> {
        decode_elements::<T>(self.bytes())
    }
}

impl<'a, T: FromData> LazyArray<'a, T> {
    /// The bytes the array is a view of.
    pub closed spec fn bytes(&self) -> Seq<u8> {
        self.data@
    }

    /// Creates a view of the elements that `data` holds.
    pub fn new(data: &'a [u8]) -> (r: Self)
        ensures
            r.bytes() == data@,
    {
        LazyArray { data, phantom: PhantomData }
    }

    /// Decodes the element at `index`.
    fn item(&self, index: usize) -> (r: T)
        requires
            index < self@.len(),
        ensures
            r == self@[index as int],
    {
        let size = T::raw_size();
        let ghost len = self.data.len();
        assert(index * size + size <= len) by (nonlinear_arith)
            requires
                index < len / size,
                size > 0,
        {
            assert(index + 1 <= len / size);
            assert((index + 1) * size <= (len / size) * size);
            assert((len / size) * size <= len);
        }
        let start = index * size;
        let window = slice_subrange(self.data, start, start + size);
        let mut s = SafeStream::new(window);
        assert(window@.subrange(0, size as int) =~= window@);
        T::parse(&mut s)
    }

    /// Decodes the element at `index`, which must be below `len()`.
    pub fn at<L: FSize>(&self, index: L) -> (r: T)
        requires
            index.spec_value() < self@.len(),
        ensures
            r == self@[index.spec_value() as int],
    {
        self.item(index.to_usize())
    }

    /// Decodes the element at `index`, or returns `None` past the end.
    pub fn get<L: FSize>(&self, index: L) -> (r: Option<T>)
        ensures
            r == if index.spec_value() < self@.len() {
                Some(self@[index.spec_value() as int])
            } else {
                None::<T>
            },
    {
        let i = index.to_usize();
        if i < self.len() {
            Some(self.item(i))
        } else {
            None
        }
    }

    /// Decodes the last element, or returns `None` when the array is empty.
    pub fn last(&self) -> (r: Option<T>)
        ensures
            r == if self@.len() > 0 {
                Some(self@.last())
            } else {
                None::<T>
            },
    {
        let n = self.len();
        if n > 0 {
            Some(self.item(n - 1))
        } else {
            None
        }
    }

    /// The number of whole elements in the bytes.
    pub fn len(&self) -> (r: usize)
        ensures
            r == self@.len(),
            r == self.bytes().len() / T::spec_raw_size(),
    {
        self.data.len() / T::raw_size()
    }

    /// Whether the array holds no element.
    pub fn is_empty(&self) -> (r: bool)
        ensures
            r == (self@.len() == 0),
    {
        self.len() == 0
    }

    /// Searches for an element that `f` finds equal to its target, where `f`
    /// tells how an element compares with the target. Each probe halves the
    /// range that is left; the last candidate is returned only if `f` finds
    /// it equal. On elements sorted by `f` this finds an equal one whenever
    /// there is one; which one, among several, is left open.
    pub fn binary_search_by<F>(&self, f: F) -> (r: Option<T>)
        where
            F: Fn(&T) -> Ordering,
        requires
            forall|x: &T| #[trigger] f.requires((x,)),
        ensures
            search_outcome(self@, f, r),
    {
        let mut size = self.len();
        if size == 0 {
            return None;
        }
        let ghost s = self@;
        let mut base: usize = 0;
        while size > 1
            invariant
                s == self@,
                forall|x: &T| #[trigger] f.requires((x,)),
                1 <= size,
                base + size <= s.len() <= usize::MAX,
                sorted_by(s, f) && (exists|j: int|
                    0 <= j < s.len() && #[trigger] f.ensures((&s[j],), Ordering::Equal)) ==> exists|
                    j: int,
                |
                    base <= j < base + size && #[trigger] f.ensures((&s[j],), Ordering::Equal),
            decreases size,
        {
            let half = size / 2;
            let mid = base + half;
            let probe = self.item(mid);
            let cmp = f(&probe);
            match cmp {
                Ordering::Greater => {},
                _ => {
                    base = mid;
                },
            }
            size = size - half;
        }
        let value = self.item(base);
        let cmp = f(&value);
        match cmp {
            Ordering::Equal => Some(value),
            _ => None,
        }
    }

    /// An iterator that decodes the elements in order, starting at the first.
    pub fn into_iter(self) -> (r: LazyArrayIter<'a, T>)
        ensures
            r.array() == self,
            r.index() == 0,
    {
        LazyArrayIter { data: self, offset: 0 }
    }
}

/// Decodes the elements of a `LazyArray` one by one, in index order.
pub struct LazyArrayIter<'a, T> {
    data: LazyArray<'a, T>,
    offset: usize,
}

impl<'a, T: FromData> LazyArrayIter<'a, T> {
    /// The array being walked.
    pub closed spec fn array(&self) -> LazyArray<'a, T> {
        self.data
    }

    /// The index of the element that `next` returns.
    pub closed spec fn index(&self) -> int {
        self.offset as int
    }

    /// Decodes the next element, or returns `None` once all have been
    /// returned.
    pub fn next(&mut self) -> (r: Option<T>)
        ensures
            final(self).array() == old(self).array(),
            old(self).index() < old(self).array()@.len() ==> r == Some(
                old(self).array()@[old(self).index()],
            ) && final(self).index() == old(self).index() + 1,
            old(self).index() >= old(self).array()@.len() ==> r is None && final(self).index()
                == old(self).index(),
    {
        if self.offset < self.data.len() {
            let item = self.data.item(self.offset);
            self.offset = self.offset + 1;
            Some(item)
        } else {
            None
        }
    }
}

} // verus!
