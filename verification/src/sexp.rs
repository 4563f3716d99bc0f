//! S-expression handles.
//!
//! A handle is the address of a value that lives in the R runtime. The
//! runtime itself is reached only by the program around this library; what
//! stands here is the bookkeeping done on the numbers it reports: the walk
//! over the elements of a vector and the check that a vector holds the
//! elements asked for.
use vstd::prelude::*;
use crate::internal::SEXPTYPE;

verus! {

/// S-Expression that wraps mutable R variable: the address of a value in
/// the runtime that has been protected from its garbage collector.
pub struct SEXP(usize);

impl View for SEXP {
    type V = usize;

    /// The address of the value.
    closed spec fn view(&self) -> usize {
        self.0
    }
}

impl SEXP {
    /// Wraps the address of a value that the runtime has been told to keep.
    pub fn from_raw(addr: usize) -> (s: SEXP)
        ensures
            s@ == addr,
    {
        SEXP(addr)
    }
}

/// Values that can be handed to the runtime: they give the address of an R
/// value.
pub trait AsR {
    #[allow(non_snake_case)]
    fn asR(&self) -> usize;
}

impl AsR for SEXP {
    /// The address that this handle wraps.
    #[allow(non_snake_case)]
    fn asR(&self) -> (r: usize)
        ensures
            r == self@,
    {
        self.0
    }
}

/// The indices `from`, `from + 1`, ..., `to - 1`; empty where `to <= from`.
pub open spec fn index_range(from: int, to: int) -> Seq<int> {
    if from < to {
        Seq::new((to - from) as nat, |i: int| from + i)
    } else {
        Seq::empty()
    }
}

/// The walk over `from .. to` hands out `max(to - from, 0)` indices, the
/// `k`-th of them `from + k`: each index of the range once, in increasing
/// order, and nothing outside it.
pub proof fn index_range_each_once_in_order(from: int, to: int)
    ensures
        index_range(from, to).len() == (if from < to { to - from } else { 0 }),
        forall|k: int| 0 <= k < index_range(from, to).len() ==> #[trigger] index_range(from, to)[k] == from + k,
        forall|j: int, k: int| 0 <= j < k < index_range(from, to).len()
            ==> index_range(from, to)[j] < index_range(from, to)[k],
        forall|x: int| index_range(from, to).contains(x) <==> from <= x < to,
{
    let s = index_range(from, to);
    assert forall|x: int| s.contains(x) <==> from <= x < to by {
        if from <= x < to {
            assert(s[x - from] == x);
        }
    }
}

/// Iterator over values: walks the element indices of a vector, in order,
/// from the first to the last.
pub struct RIterator {
    current: i32,
    length: i32,
    sexp: usize,
}

impl RIterator {

    /// The address of the vector walked over.
    pub closed spec fn source(self) -> usize {
        self.sexp
    }

    /// The index that the iterator hands out next, while any is left.
    pub closed spec fn spec_current(self) -> int {
        self.current as int
    }

    /// The number of elements of the vector walked over.
    pub closed spec fn spec_length(self) -> int {
        self.length as int
    }

    /// The indices that the iterator has still to hand out, in order: those
    /// from the current one up to, not including, the length.
    pub open spec fn remaining(self) -> Seq<int> {
        index_range(self.spec_current(), self.spec_length())
    }

    /// The counters are in bounds: `0 <= current <= length`.
    pub open spec fn counters_in_bounds(self) -> bool {
        0 <= self.spec_current() <= self.spec_length()
    }

    /// Hands out the next element index, or `None` once every index has
    /// been handed out; an exhausted iterator stays as it is.
    pub fn next_index(&mut self) -> (r: Option<i32>)
        ensures
            final(self).source() == old(self).source(),
            old(self).remaining().len() > 0 ==> {
                &&& r matches Some(i) && i as int == old(self).remaining()[0]
                &&& final(self).remaining() == old(self).remaining().drop_first()
            },
            old(self).remaining().len() == 0 ==> r is None && *final(self) == *old(self),
            final(self).spec_length() == old(self).spec_length(),
            old(self).spec_current() < old(self).spec_length() ==> {
                &&& r == Some(old(self).spec_current() as i32)
                &&& final(self).spec_current() == old(self).spec_current() + 1
            },
            old(self).spec_current() >= old(self).spec_length() ==> r is None && *final(self)
                == *old(self),
            old(self).counters_in_bounds() ==> final(self).counters_in_bounds(),
    {
        if self.current < self.length {
            let c = self.current;
            self.current = self.current + 1;
            proof {
                let o = index_range(c as int, self.length as int);
                let n = index_range(self.current as int, self.length as int);
                assert(n =~= o.drop_first());
            }
            Some(c)
        } else {
            None
        }
    }

    /// The address of the vector walked over.
    pub fn sexp(&self) -> (s: usize)
        ensures
            s == self.source(),
    {
        self.sexp
    }
}

/// An iterator with counters `current` and `length` hands out, call after
/// call, `current`, `current + 1`, ..., `length - 1`, each once and in
/// increasing order, `max(length - current, 0)` indices in all, and then
/// `None` on every later call.
pub proof fn iterator_walks_counter_range(it: RIterator)
    ensures
        it.remaining().len() == (if it.spec_current() < it.spec_length() {
            it.spec_length() - it.spec_current()
        } else {
            0
        }),
        forall|k: int|
            0 <= k < it.remaining().len() ==> #[trigger] it.remaining()[k] == it.spec_current() + k,
        forall|x: int| it.remaining().contains(x) <==> it.spec_current() <= x < it.spec_length(),
{
    index_range_each_once_in_order(it.spec_current(), it.spec_length());
}

impl SEXP {
    /// The iterator over the elements of this vector, of which the runtime
    /// reports `length` elements: it hands out `0`, `1`, ..., `length - 1`.
    pub fn into_iter(self, length: i32) -> (it: RIterator)
        ensures
            it.source() == self@,
            it.remaining() == index_range(0, length as int),
            it.spec_current() == 0,
            it.spec_length() == length,
            0 <= length ==> it.counters_in_bounds(),
    {
        let SEXP(ptr) = self;
        RIterator { current: 0, length: length, sexp: ptr }
    }
}

/// The number of elements through which a vector may be read as elements
/// of the type `expected`: `Some(length)` where the runtime reports the type
/// by `type_code` equal to the number of `expected`, `None` otherwise.
pub fn typed_len(expected: SEXPTYPE, type_code: i32, length: i32) -> (r: Option<usize>)
    requires
        0 <= length,
    ensures
        r == (if type_code as int == expected.spec_code() {
            Some(length as usize)
        } else {
            None
        }),
{
    if type_code == expected.code() {
        Some(length as usize)
    } else {
        None
    }
}

/// /O(1)/ Whether a vector may be read as reals, and through how many
/// elements: `Some(length)` where the runtime reports the type `REALSXP`.
pub fn double(type_code: i32, length: i32) -> (r: Option<usize>)
    requires
        0 <= length,
    ensures
        r == (if type_code as int == SEXPTYPE::REALSXP.spec_code() {
            Some(length as usize)
        } else {
            None
        }),
{
    typed_len(SEXPTYPE::REALSXP, type_code, length)
}

/// /O(1)/ Whether a vector may be read as integers, and through how many
/// elements: `Some(length)` where the runtime reports the type `INTSXP`.
pub fn integer(type_code: i32, length: i32) -> (r: Option<usize>)
    requires
        0 <= length,
    ensures
        r == (if type_code as int == SEXPTYPE::INTSXP.spec_code() {
            Some(length as usize)
        } else {
            None
        }),
{
    typed_len(SEXPTYPE::INTSXP, type_code, length)
}

} // verus!
