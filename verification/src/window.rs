//! Fixed-capacity rolling windows.
//!
//! A window owns a buffer of a fixed period size, eagerly populated at
//! construction, and a circular write cursor. Every push overwrites the
//! oldest slot and hands the displaced value back to the caller. The
//! chronological view runs newest-to-oldest.

use vstd::prelude::*;

verus! {

/// One push at the model level, over the newest-to-oldest view: the new
/// value enters at the front and the oldest value falls off the back.
pub open spec fn spec_push<T>(s: Seq<T>, v: T) -> Seq<T> {
    seq![v] + s.drop_last()
}

/// A whole run of pushes, oldest push first.
pub open spec fn push_all<T>(s: Seq<T>, vs: Seq<T>) -> Seq<T>
    decreases vs.len(),
{
    if vs.len() == 0 {
        s
    } else {
        push_all(spec_push(s, vs[0]), vs.drop_first())
    }
}

/// After any run of pushes, the newest-to-oldest view is the reverse of
/// the push order, filled out with the starting contents: so once at
/// least `N` values have been pushed into a window of period `N`, the
/// view is exactly the reverse of the last `N` pushes.
pub proof fn lemma_push_history<T>(s: Seq<T>, vs: Seq<T>)
    requires
        s.len() >= 1,
    ensures
        push_all(s, vs) == (vs.reverse() + s).take(s.len() as int),
    decreases vs.len(),
{
    let n = s.len() as int;
    if vs.len() == 0 {
        assert(push_all(s, vs) =~= (vs.reverse() + s).take(n));
    } else {
        let s1 = spec_push(s, vs[0]);
        let vs1 = vs.drop_first();
        lemma_push_history(s1, vs1);
        assert(push_all(s, vs) == (vs1.reverse() + s1).take(n));
        assert((vs1.reverse() + s1).take(n) =~= (vs.reverse() + s).take(n)) by {
            assert forall|j: int| 0 <= j < n implies (vs1.reverse() + s1)[j] == (vs.reverse()
                + s)[j] by {
                let m = vs1.len() as int;
                if j < m {
                    assert(vs1.reverse()[j] == vs1[m - 1 - j]);
                    assert(vs.reverse()[j] == vs[vs.len() - 1 - j]);
                    assert(vs1[m - 1 - j] == vs[m - j]);
                } else if j == m {
                    assert((vs1.reverse() + s1)[j] == s1[0]);
                    assert(vs.reverse()[j] == vs[0]);
                } else {
                    assert((vs1.reverse() + s1)[j] == s1[j - m]);
                    assert(s1[j - m] == s.drop_last()[j - m - 1]);
                    assert((vs.reverse() + s)[j] == s[j - m - 1]);
                }
            }
        }
    }
}

/// The displaced values: after at least `N` pushes into a window of
/// period `N`, the oldest element is the value pushed exactly `N`
/// pushes ago.
pub proof fn lemma_oldest_after_pushes<T>(s: Seq<T>, vs: Seq<T>)
    requires
        s.len() >= 1,
        vs.len() >= s.len(),
    ensures
        push_all(s, vs).last() == vs[vs.len() - s.len()],
{
    let n = s.len() as int;
    lemma_push_history(s, vs);
    assert(push_all(s, vs)[n - 1] == vs.reverse()[n - 1]);
    assert(vs.reverse()[n - 1] == vs[vs.len() - n]);
}

/// The behaviour the two window flavours share: a fully populated
/// buffer of a fixed period size, a chronological newest-to-oldest
/// view, and a push that overwrites the oldest element and returns it.
pub trait Window<T: Copy>: Sized {
    /// The window's structural invariant.
    spec fn win_wf(&self) -> bool;

    /// The window's elements in chronological order, newest first.
    spec fn ordered_view(&self) -> Seq<T>;

    /// The period size of the window.
    fn period(&self) -> (r: usize)
        requires
            self.win_wf(),
        ensures
            r == self.ordered_view().len(),
            r >= 1,
    ;

    /// Writes `value` over the oldest element, returning the freshly
    /// written value together with the displaced one.
    fn push(&mut self, value: T) -> (r: (T, T))
        requires
            old(self).win_wf(),
        ensures
            final(self).win_wf(),
            r.0 == value,
            r.1 == old(self).ordered_view().last(),
            final(self).ordered_view() == spec_push(old(self).ordered_view(), value),
    ;

    /// The most recently written element.
    fn newest(&self) -> (r: &T)
        requires
            self.win_wf(),
        ensures
            *r == self.ordered_view()[0],
    ;

    /// The least recently written element: the next to be overwritten.
    fn oldest(&self) -> (r: &T)
        requires
            self.win_wf(),
        ensures
            *r == self.ordered_view().last(),
    ;
}

/// A rolling window whose period is chosen at construction time.
pub struct DynamicWindow<T> {
    data: Vec<T>,
    period: usize,
    index: usize,
}

impl<T> DynamicWindow<T> {
    /// The buffer in storage order, with no chronological meaning.
    pub closed spec fn storage(self) -> Seq<T> {
        self.data@
    }

    /// The write cursor: the slot holding the oldest element, and the
    /// next slot to be overwritten.
    pub closed spec fn cursor(self) -> int {
        self.index as int
    }

    pub open spec fn period_spec(self) -> int {
        self.storage().len() as int
    }

    pub closed spec fn wf(self) -> bool {
        &&& self.period as int == self.data@.len()
        &&& self.period >= 1
        &&& self.index < self.period
    }

    /// The storage slot holding the element `k` steps behind the newest.
    pub open spec fn slot(self, k: int) -> int {
        if self.cursor() - 1 - k >= 0 {
            self.cursor() - 1 - k
        } else {
            self.cursor() - 1 - k + self.period_spec()
        }
    }

    /// The window's elements in chronological order, newest first.
    pub open spec fn ordered(self) -> Seq<T> {
        Seq::new(self.storage().len(), |k: int| self.storage()[self.slot(k)])
    }

    /// Builds a window of `period` slots (`period >= 1`), populating
    /// slot `i` with `closure(i)` for `i` in `0..period`. Slots are
    /// pushed one at a time into a growable buffer, so if the generator
    /// panics partway, every element already built is dropped exactly
    /// once by the buffer's own destructor.
    pub fn new<F: Fn(usize) -> T>(closure: F, period: usize) -> (r: Self)
        requires
            period >= 1,
            forall|i: usize| i < period ==> closure.requires((i,)),
        ensures
            r.wf(),
            r.period_spec() == period,
            r.cursor() == 0,
            forall|i: int| 0 <= i < period ==> closure.ensures((i as usize,),
                #[trigger] r.storage()[i]),
    {
        let mut data: Vec<T> = Vec::new();
        let mut i: usize = 0;
        while i < period
            invariant
                i <= period,
                data@.len() == i,
                forall|i: usize| i < period ==> closure.requires((i,)),
                forall|k: int| 0 <= k < i ==> closure.ensures((k as usize,),
                    #[trigger] data@[k]),
            decreases period - i,
        {
            let v = closure(i);
            data.push(v);
            i = i + 1;
        }
        DynamicWindow { data, period, index: 0 }
    }

    /// The period size of the window.
    pub fn period(&self) -> (r: usize)
        requires
            self.wf(),
        ensures
            r == self.period_spec(),
    {
        self.period
    }

    /// The most recently written element.
    pub fn newest(&self) -> (r: &T)
        requires
            self.wf(),
        ensures
            *r == self.ordered()[0],
    {
        let idx = if self.index == 0 { self.period - 1 } else { self.index - 1 };
        &self.data[idx]
    }

    /// The least recently written element: the next to be overwritten.
    pub fn oldest(&self) -> (r: &T)
        requires
            self.wf(),
        ensures
            *r == self.ordered().last(),
    {
        proof {
            assert(self.slot(self.period_spec() - 1) == self.cursor());
        }
        &self.data[self.index]
    }

    /// An iterator over the elements in chronological order, newest
    /// first, reporting its exact remaining count at every step.
    pub fn iter<'a>(&'a self) -> (r: DynamicWindowIter<'a, T>)
        requires
            self.wf(),
        ensures
            r.wf(),
            r.window() == *self,
            r.remaining() == self.period_spec(),
    {
        DynamicWindowIter { window: self, index: self.index, size: self.period }
    }

    /// The elements in storage order, with no chronological guarantee.
    pub fn iter_unordered(&self) -> (r: &Vec<T>)
        requires
            self.wf(),
        ensures
            r@ == self.storage(),
    {
        &self.data
    }
}

impl<T: Copy> DynamicWindow<T> {
    /// Writes `value` over the oldest element, returning the freshly
    /// written value together with the displaced one. The displaced
    /// value is exactly what `oldest()` reported just before the push.
    pub fn push(&mut self, value: T) -> (r: (T, T))
        requires
            old(self).wf(),
        ensures
            final(self).wf(),
            final(self).period_spec() == old(self).period_spec(),
            r.0 == value,
            r.1 == old(self).ordered().last(),
            final(self).ordered() == spec_push(old(self).ordered(), value),
    {
        proof {
            assert(old(self).slot(old(self).period_spec() - 1) == old(self).cursor());
        }
        let old_val = self.data[self.index];
        self.data[self.index] = value;
        let fresh = self.data[self.index];
        if self.index == self.period - 1 {
            self.index = 0;
        } else {
            self.index = self.index + 1;
        }
        proof {
            let w0 = *old(self);
            let w1 = *self;
            let n = w0.period_spec();
            assert(w1.ordered() =~= spec_push(w0.ordered(), value)) by {
                assert forall|k: int| 0 <= k < n implies w1.storage()[w1.slot(k)] == (seq![value]
                    + w0.ordered().drop_last())[k] by {
                    if k == 0 {
                        assert(w1.slot(0) == w0.cursor());
                    } else {
                        assert(w1.slot(k) == w0.slot(k - 1));
                        assert(w0.slot(k - 1) != w0.cursor());
                        assert(w1.storage()[w0.slot(k - 1)] == w0.storage()[w0.slot(k - 1)]);
                        assert((seq![value] + w0.ordered().drop_last())[k]
                            == w0.ordered()[k - 1]);
                    }
                }
            }
        }
        (fresh, old_val)
    }
}

impl<T: Copy> DynamicWindow<T> {
    /// The whole window in chronological order, newest first: always
    /// exactly the period size in length.
    pub fn snapshot(&self) -> (r: Vec<T>)
        requires
            self.wf(),
        ensures
            r@ == self.ordered(),
    {
        let n = self.period;
        let mut r: Vec<T> = Vec::new();
        let mut idx = if self.index == 0 { n - 1 } else { self.index - 1 };
        let mut k: usize = 0;
        while k < n
            invariant
                self.wf(),
                n == self.period_spec(),
                k <= n,
                r@.len() == k,
                k < n ==> idx as int == self.slot(k as int),
                forall|j: int| 0 <= j < k ==> r@[j] == self.ordered()[j],
            decreases n - k,
        {
            r.push(self.data[idx]);
            idx = if idx == 0 { n - 1 } else { idx - 1 };
            k = k + 1;
        }
        proof {
            assert(r@ =~= self.ordered());
        }
        r
    }
}

impl<T: Copy> Window<T> for DynamicWindow<T> {
    open spec fn win_wf(&self) -> bool {
        self.wf()
    }

    open spec fn ordered_view(&self) -> Seq<T> {
        self.ordered()
    }

    fn period(&self) -> (r: usize) {
        DynamicWindow::period(self)
    }

    fn push(&mut self, value: T) -> (r: (T, T)) {
        DynamicWindow::push(self, value)
    }

    fn newest(&self) -> (r: &T) {
        DynamicWindow::newest(self)
    }

    fn oldest(&self) -> (r: &T) {
        DynamicWindow::oldest(self)
    }
}

impl<T: Copy, const PERIOD: usize> Window<T> for StaticWindow<T, PERIOD> {
    open spec fn win_wf(&self) -> bool {
        self.wf()
    }

    open spec fn ordered_view(&self) -> Seq<T> {
        self.ordered()
    }

    fn period(&self) -> (r: usize) {
        StaticWindow::period(self)
    }

    fn push(&mut self, value: T) -> (r: (T, T)) {
        StaticWindow::push(self, value)
    }

    fn newest(&self) -> (r: &T) {
        StaticWindow::newest(self)
    }

    fn oldest(&self) -> (r: &T) {
        StaticWindow::oldest(self)
    }
}

/// Chronological (newest-to-oldest) iteration state over a borrowed window.
pub struct DynamicWindowIter<'a, T> {
    window: &'a DynamicWindow<T>,
    index: usize,
    size: usize,
}

impl<'a, T> DynamicWindowIter<'a, T> {
    pub closed spec fn window(self) -> DynamicWindow<T> {
        *self.window
    }

    /// How many elements are still to be yielded.
    pub closed spec fn remaining(self) -> int {
        self.size as int
    }

    pub closed spec fn wf(self) -> bool {
        &&& self.window.wf()
        &&& self.size <= self.window.period_spec()
        &&& self.index as int == (if self.window.cursor() + self.size
            >= self.window.period_spec() {
            self.window.cursor() + self.size - self.window.period_spec()
        } else {
            self.window.cursor() + self.size
        })
    }

    /// Yields the next element in newest-to-oldest order, decrementing
    /// the reported remaining count by exactly one, until it reaches
    /// zero exactly at exhaustion.
    pub fn next(&mut self) -> (r: Option<&'a T>)
        requires
            old(self).wf(),
        ensures
            final(self).wf(),
            final(self).window() == old(self).window(),
            old(self).remaining() == 0 ==> r is None && final(self).remaining() == 0,
            old(self).remaining() > 0 ==> {
                &&& final(self).remaining() == old(self).remaining() - 1
                &&& r matches Some(v) && *v == old(self).window().ordered()[
                    old(self).window().period_spec() - old(self).remaining()]
            },
    {
        if self.size == 0 {
            None
        } else {
            self.size = self.size - 1;
            self.index = if self.index == 0 { self.window.period() - 1 } else {
                self.index - 1
            };
            proof {
                let w = *self.window;
                let pos = w.period_spec() - old(self).remaining();
                assert(self.index as int == w.slot(pos));
            }
            Some(&self.window.data[self.index])
        }
    }

    /// The exact number of elements still to be yielded, as both the
    /// lower and upper bound.
    pub fn size_hint(&self) -> (r: (usize, Option<usize>))
        ensures
            r.0 == self.remaining(),
            r.1 matches Some(u) && u == self.remaining(),
    {
        (self.size, Some(self.size))
    }

    /// The exact number of elements still to be yielded.
    pub fn count(self) -> (r: usize)
        ensures
            r == self.remaining(),
    {
        self.size
    }

    /// The number of elements still to be yielded.
    pub fn len(&self) -> (r: usize)
        ensures
            r == self.remaining(),
    {
        self.size
    }

    /// The final element of the iteration order: the window's oldest.
    pub fn last(self) -> (r: Option<&'a T>)
        requires
            self.wf(),
        ensures
            r matches Some(v) && *v == self.window().ordered().last(),
    {
        Some(self.window.oldest())
    }
}

/// A rolling window whose period is fixed in its type. It shares the
/// dynamic window's behaviour exactly; the period is a compile-time
/// constant rather than a constructor argument.
pub struct StaticWindow<T, const PERIOD: usize> {
    inner: DynamicWindow<T>,
}

impl<T, const PERIOD: usize> StaticWindow<T, PERIOD> {
    pub closed spec fn inner_spec(self) -> DynamicWindow<T> {
        self.inner
    }

    pub open spec fn wf(self) -> bool {
        self.inner_spec().wf() && self.inner_spec().period_spec() == PERIOD
    }

    pub open spec fn ordered(self) -> Seq<T> {
        self.inner_spec().ordered()
    }

    pub open spec fn storage(self) -> Seq<T> {
        self.inner_spec().storage()
    }

    /// Builds a window of `PERIOD` slots (`PERIOD >= 1`), populating
    /// slot `i` with `closure(i)` for `i` in `0..PERIOD`.
    pub fn new<F: Fn(usize) -> T>(closure: F) -> (r: Self)
        requires
            PERIOD >= 1,
            forall|i: usize| i < PERIOD ==> closure.requires((i,)),
        ensures
            r.wf(),
            r.inner_spec().cursor() == 0,
            forall|i: int| 0 <= i < PERIOD ==> closure.ensures((i as usize,),
                #[trigger] r.storage()[i]),
    {
        StaticWindow { inner: DynamicWindow::new(closure, PERIOD) }
    }

    /// The period size of the window.
    pub fn period(&self) -> (r: usize)
        requires
            self.wf(),
        ensures
            r == PERIOD,
    {
        self.inner.period()
    }

    /// The most recently written element.
    pub fn newest(&self) -> (r: &T)
        requires
            self.wf(),
        ensures
            *r == self.ordered()[0],
    {
        self.inner.newest()
    }

    /// The least recently written element: the next to be overwritten.
    pub fn oldest(&self) -> (r: &T)
        requires
            self.wf(),
        ensures
            *r == self.ordered().last(),
    {
        self.inner.oldest()
    }

    /// An iterator over the elements in chronological order, newest first.
    pub fn iter<'a>(&'a self) -> (r: StaticWindowIter<'a, T, PERIOD>)
        requires
            self.wf(),
        ensures
            r.wf(),
            r.window() == self.inner_spec(),
            r.remaining() == PERIOD,
    {
        StaticWindowIter { inner: self.inner.iter() }
    }

    /// The elements in storage order, with no chronological guarantee.
    pub fn iter_unordered(&self) -> (r: &Vec<T>)
        requires
            self.wf(),
        ensures
            r@ == self.storage(),
    {
        self.inner.iter_unordered()
    }
}

impl<T: Copy, const PERIOD: usize> StaticWindow<T, PERIOD> {
    /// Writes `value` over the oldest element, returning the freshly
    /// written value together with the displaced one.
    pub fn push(&mut self, value: T) -> (r: (T, T))
        requires
            old(self).wf(),
        ensures
            final(self).wf(),
            r.0 == value,
            r.1 == old(self).ordered().last(),
            final(self).ordered() == spec_push(old(self).ordered(), value),
    {
        self.inner.push(value)
    }

    /// The whole window in chronological order, newest first: always
    /// exactly `PERIOD` elements.
    pub fn snapshot(&self) -> (r: Vec<T>)
        requires
            self.wf(),
        ensures
            r@ == self.ordered(),
            r@.len() == PERIOD,
    {
        self.inner.snapshot()
    }
}

/// Chronological iteration state over a borrowed fixed-period window.
pub struct StaticWindowIter<'a, T, const PERIOD: usize> {
    inner: DynamicWindowIter<'a, T>,
}

impl<'a, T, const PERIOD: usize> StaticWindowIter<'a, T, PERIOD> {
    pub closed spec fn window(self) -> DynamicWindow<T> {
        self.inner.window()
    }

    pub closed spec fn remaining(self) -> int {
        self.inner.remaining()
    }

    pub closed spec fn wf(self) -> bool {
        self.inner.wf() && self.window().period_spec() == PERIOD
    }

    /// Yields the next element in newest-to-oldest order.
    pub fn next(&mut self) -> (r: Option<&'a T>)
        requires
            old(self).wf(),
        ensures
            final(self).wf(),
            final(self).window() == old(self).window(),
            old(self).remaining() == 0 ==> r is None && final(self).remaining() == 0,
            old(self).remaining() > 0 ==> {
                &&& final(self).remaining() == old(self).remaining() - 1
                &&& r matches Some(v) && *v == old(self).window().ordered()[
                    PERIOD - old(self).remaining()]
            },
    {
        self.inner.next()
    }

    /// The exact number of elements still to be yielded, as both the
    /// lower and upper bound.
    pub fn size_hint(&self) -> (r: (usize, Option<usize>))
        ensures
            r.0 == self.remaining(),
            r.1 matches Some(u) && u == self.remaining(),
    {
        self.inner.size_hint()
    }

    /// The exact number of elements still to be yielded.
    pub fn count(self) -> (r: usize)
        ensures
            r == self.remaining(),
    {
        self.inner.count()
    }

    /// The number of elements still to be yielded.
    pub fn len(&self) -> (r: usize)
        ensures
            r == self.remaining(),
    {
        self.inner.len()
    }

    /// The final element of the iteration order: the window's oldest.
    pub fn last(self) -> (r: Option<&'a T>)
        requires
            self.wf(),
        ensures
            r matches Some(v) && *v == self.window().ordered().last(),
    {
        self.inner.last()
    }
}

} // verus!
