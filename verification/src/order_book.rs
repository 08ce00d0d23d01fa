//! A sorted order book.
//!
//! Each side of the book keeps at most one price level per distinct
//! price, always sorted by price value. An update either replaces the
//! resting quantity at a price, inserts a fresh level, or (when the
//! incoming quantity is zero) removes the level entirely.

use vstd::prelude::*;
use vstd::map::*;
use crate::decimal::Decimal;

verus! {

/// A price: an exact decimal value.
#[derive(Clone, Copy, Debug)]
pub struct Price(pub Decimal);

/// A resting quantity: an exact decimal value.
#[derive(Clone, Copy, Debug)]
pub struct Quantity(pub Decimal);

/// A single price level: a price and the aggregate quantity resting there.
#[derive(Clone, Copy, Debug)]
pub struct OrderData {
    pub price: Price,
    pub quantity: Quantity,
}

impl OrderData {
    /// The price as an integer number of `10^-scale_limit()` units.
    pub open spec fn price_units(self) -> int {
        self.price.0.units()
    }

    /// The quantity as an integer number of `10^-scale_limit()` units.
    pub open spec fn qty_units(self) -> int {
        self.quantity.0.units()
    }

    pub open spec fn wf(self) -> bool {
        self.price.0.wf() && self.quantity.0.wf()
    }

    pub fn new(price: Decimal, quantity: Decimal) -> (r: OrderData)
        requires
            price.wf(),
            quantity.wf(),
        ensures
            r.price.0 == price,
            r.quantity.0 == quantity,
            r.wf(),
    {
        OrderData { price: Price(price), quantity: Quantity(quantity) }
    }
}

/// A side marker carrying a payload: a bid (buy) or an ask (sell).
#[derive(Clone, Copy, Debug)]
pub enum Order<T> {
    Bid(T),
    Ask(T),
}

/// Prices in a side appear strictly increasing: at most one level per price.
pub open spec fn sorted_by_price(s: Seq<OrderData>) -> bool {
    forall|i: int, j: int|
        0 <= i < j < s.len() ==> s[i].price_units() < s[j].price_units()
}

/// A well-formed side: sorted, and every level well-formed with a
/// strictly positive quantity (a zero-quantity level is removed, never kept).
pub open spec fn side_wf(s: Seq<OrderData>) -> bool {
    &&& sorted_by_price(s)
    &&& forall|i: int| 0 <= i < s.len() ==> (#[trigger] s[i]).wf() && s[i].qty_units() > 0
}

/// Whether some level in the side rests at price `p` (in canonical units).
pub open spec fn has_price(s: Seq<OrderData>, p: int) -> bool {
    exists|i: int| 0 <= i < s.len() && (#[trigger] s[i]).price_units() == p
}

/// The quantity resting at price `p`, or `0` when no level rests there.
pub open spec fn qty_at(s: Seq<OrderData>, p: int) -> int {
    if has_price(s, p) {
        s[choose|i: int| 0 <= i < s.len() && (#[trigger] s[i]).price_units() == p].qty_units()
    } else {
        0
    }
}

/// The side abstracted to a finite map from price to resting quantity.
pub open spec fn side_map(s: Seq<OrderData>) -> Map<int, int> {
    Map::new(|p: int| has_price(s, p), |p: int| qty_at(s, p))
}

/// One update at the model level: a zero quantity deletes the price's
/// entry, a non-zero quantity inserts or replaces it.
pub open spec fn spec_update(m: Map<int, int>, p: int, q: int) -> Map<int, int> {
    if q == 0 {
        m.remove(p)
    } else {
        m.insert(p, q)
    }
}

/// Applying an update with a positive quantity and then an update with
/// quantity zero at the same price leaves no entry at that price,
/// whatever the starting state of the side.
pub proof fn lemma_upsert_then_delete(m: Map<int, int>, p: int, q: int)
    requires
        q > 0,
    ensures
        !spec_update(spec_update(m, p, q), p, 0).dom().contains(p),
{
}

/// The book of record for one instrument: two independently sorted
/// sides of resting price levels.
#[derive(Clone, Debug)]
pub struct OrderBook {
    asks: Vec<OrderData>,
    bids: Vec<OrderData>,
}

impl OrderBook {
    pub closed spec fn asks_seq(self) -> Seq<OrderData> {
        self.asks@
    }

    pub closed spec fn bids_seq(self) -> Seq<OrderData> {
        self.bids@
    }

    pub open spec fn wf(self) -> bool {
        side_wf(self.asks_seq()) && side_wf(self.bids_seq())
    }

    /// A fresh, empty book.
    pub fn new() -> (r: OrderBook)
        ensures
            r.wf(),
            r.asks_seq().len() == 0,
            r.bids_seq().len() == 0,
    {
        OrderBook { asks: Vec::new(), bids: Vec::new() }
    }

    /// The number of resting ask levels.
    pub fn asks_len(&self) -> (r: usize)
        ensures
            r == self.asks_seq().len(),
    {
        self.asks.len()
    }

    /// The number of resting bid levels.
    pub fn bids_len(&self) -> (r: usize)
        ensures
            r == self.bids_seq().len(),
    {
        self.bids.len()
    }

    /// Replace, insert or delete the ask level at the order's price.
    pub fn update_asks(&mut self, order: OrderData)
        requires
            old(self).wf(),
            order.wf(),
            order.qty_units() >= 0,
        ensures
            final(self).wf(),
            final(self).bids_seq() == old(self).bids_seq(),
            side_map(final(self).asks_seq()) == spec_update(side_map(old(self).asks_seq()),
                order.price_units(), order.qty_units()),
            forall|p: int| has_price(final(self).asks_seq(), p) <==> (if p
                == order.price_units() {
                order.qty_units() != 0
            } else {
                has_price(old(self).asks_seq(), p)
            }),
            forall|p: int| qty_at(final(self).asks_seq(), p) == (if p == order.price_units() {
                order.qty_units()
            } else {
                qty_at(old(self).asks_seq(), p)
            }),
            final(self).asks_seq().len() == old(self).asks_seq().len() + (if order.qty_units() > 0
                && !has_price(old(self).asks_seq(), order.price_units()) {
                1int
            } else if order.qty_units() == 0 && has_price(old(self).asks_seq(),
            order.price_units()) {
                -1int
            } else {
                0int
            }),
    {
        update_impl(&mut self.asks, order);
    }

    /// Replace, insert or delete the bid level at the order's price.
    pub fn update_bids(&mut self, order: OrderData)
        requires
            old(self).wf(),
            order.wf(),
            order.qty_units() >= 0,
        ensures
            final(self).wf(),
            final(self).asks_seq() == old(self).asks_seq(),
            side_map(final(self).bids_seq()) == spec_update(side_map(old(self).bids_seq()),
                order.price_units(), order.qty_units()),
            forall|p: int| has_price(final(self).bids_seq(), p) <==> (if p
                == order.price_units() {
                order.qty_units() != 0
            } else {
                has_price(old(self).bids_seq(), p)
            }),
            forall|p: int| qty_at(final(self).bids_seq(), p) == (if p == order.price_units() {
                order.qty_units()
            } else {
                qty_at(old(self).bids_seq(), p)
            }),
            final(self).bids_seq().len() == old(self).bids_seq().len() + (if order.qty_units() > 0
                && !has_price(old(self).bids_seq(), order.price_units()) {
                1int
            } else if order.qty_units() == 0 && has_price(old(self).bids_seq(),
            order.price_units()) {
                -1int
            } else {
                0int
            }),
    {
        update_impl(&mut self.bids, order);
    }

    /// The ask levels in priority order: best (lowest) price first, so
    /// prices appear strictly increasing.
    pub fn iter_asks(&self) -> (r: Vec<OrderData>)
        requires
            self.wf(),
        ensures
            r@ == self.asks_seq(),
            forall|i: int, j: int| 0 <= i < j < r@.len() ==> r@[i].price_units()
                < r@[j].price_units(),
    {
        let mut r: Vec<OrderData> = Vec::new();
        let n = self.asks.len();
        let mut i: usize = 0;
        while i < n
            invariant
                n == self.asks_seq().len(),
                i <= n,
                r@ == self.asks_seq().take(i as int),
                self.wf(),
            decreases n - i,
        {
            r.push(self.asks[i]);
            proof {
                assert(r@ =~= self.asks_seq().take(i + 1));
            }
            i = i + 1;
        }
        proof {
            assert(r@ =~= self.asks_seq());
        }
        r
    }

    /// The bid levels in priority order: best (highest) price first, so
    /// prices appear strictly decreasing.
    pub fn iter_bids(&self) -> (r: Vec<OrderData>)
        requires
            self.wf(),
        ensures
            r@ == self.bids_seq().reverse(),
            forall|i: int, j: int| 0 <= i < j < r@.len() ==> r@[i].price_units()
                > r@[j].price_units(),
    {
        let mut r: Vec<OrderData> = Vec::new();
        let n = self.bids.len();
        let mut i: usize = 0;
        while i < n
            invariant
                n == self.bids_seq().len(),
                i <= n,
                r@.len() == i,
                forall|k: int| 0 <= k < i ==> r@[k] == self.bids_seq()[n - 1 - k],
                self.wf(),
            decreases n - i,
        {
            r.push(self.bids[n - 1 - i]);
            i = i + 1;
        }
        proof {
            assert(r@ =~= self.bids_seq().reverse());
        }
        r
    }

    /// The best price level of a side: the lowest-priced ask, or the
    /// highest-priced bid. `None` exactly when that side is empty.
    pub fn top(&self, order_type: Order<()>) -> (r: Option<OrderData>)
        requires
            self.wf(),
        ensures
            order_type matches Order::Ask(_) ==> {
                &&& (r is None <==> self.asks_seq().len() == 0)
                &&& (r matches Some(o) ==> self.asks_seq().len() > 0 && o == self.asks_seq()[0]
                    && forall|k: int| 0 <= k < self.asks_seq().len()
                        ==> o.price_units() <= (#[trigger] self.asks_seq()[k]).price_units())
            },
            order_type matches Order::Bid(_) ==> {
                &&& (r is None <==> self.bids_seq().len() == 0)
                &&& (r matches Some(o) ==> self.bids_seq().len() > 0 && o == self.bids_seq()[
                    self.bids_seq().len() - 1] && forall|k: int| 0 <= k < self.bids_seq().len()
                        ==> o.price_units() >= (#[trigger] self.bids_seq()[k]).price_units())
            },
    {
        match order_type {
            Order::Ask(_) => {
                if self.asks.len() == 0 {
                    None
                } else {
                    Some(self.asks[0])
                }
            },
            Order::Bid(_) => {
                if self.bids.len() == 0 {
                    None
                } else {
                    Some(self.bids[self.bids.len() - 1])
                }
            },
        }
    }

    /// The first `limit` levels of a side in priority order (all of the
    /// side when it holds fewer).
    pub fn levels(&self, order_type: Order<()>, limit: usize) -> (r: Vec<OrderData>)
        requires
            self.wf(),
        ensures
            order_type matches Order::Ask(_) ==> r@ == self.asks_seq().take(
                if limit <= self.asks_seq().len() { limit as int } else {
                    self.asks_seq().len() as int
                }),
            order_type matches Order::Bid(_) ==> r@ == self.bids_seq().reverse().take(
                if limit <= self.bids_seq().len() { limit as int } else {
                    self.bids_seq().len() as int
                }),
    {
        let full = match order_type {
            Order::Ask(_) => self.iter_asks(),
            Order::Bid(_) => self.iter_bids(),
        };
        let mut r: Vec<OrderData> = Vec::new();
        let n = if limit <= full.len() { limit } else { full.len() };
        let mut i: usize = 0;
        while i < n
            invariant
                n <= full@.len(),
                i <= n,
                r@ == full@.take(i as int),
            decreases n - i,
        {
            r.push(full[i]);
            proof {
                assert(r@ =~= full@.take(i + 1));
            }
            i = i + 1;
        }
        r
    }

    /// Apply one normalized change event to the side it names.
    pub fn update(&mut self, order: Order<OrderData>)
        requires
            old(self).wf(),
            (order matches Order::Ask(d) ==> d.wf() && d.qty_units() >= 0),
            (order matches Order::Bid(d) ==> d.wf() && d.qty_units() >= 0),
        ensures
            final(self).wf(),
            order matches Order::Ask(d) ==> {
                &&& final(self).bids_seq() == old(self).bids_seq()
                &&& side_map(final(self).asks_seq()) == spec_update(side_map(old(self).asks_seq()),
                    d.price_units(), d.qty_units())
            },
            order matches Order::Bid(d) ==> {
                &&& final(self).asks_seq() == old(self).asks_seq()
                &&& side_map(final(self).bids_seq()) == spec_update(side_map(old(self).bids_seq()),
                    d.price_units(), d.qty_units())
            },
    {
        match order {
            Order::Ask(data) => self.update_asks(data),
            Order::Bid(data) => self.update_bids(data),
        }
    }
}

impl Default for OrderBook {
    /// An empty book, identical to `OrderBook::new()`.
    fn default() -> (r: OrderBook)
        ensures
            r.wf(),
            r.asks_seq().len() == 0,
            r.bids_seq().len() == 0,
    {
        OrderBook::new()
    }
}

/// Finds the first index whose price is at least the order's price.
fn lower_bound(set: &Vec<OrderData>, price: &Decimal) -> (r: usize)
    requires
        side_wf(set@),
        price.wf(),
    ensures
        r <= set@.len(),
        forall|k: int| 0 <= k < r ==> set@[k].price_units() < price.units(),
        r < set@.len() ==> set@[r as int].price_units() >= price.units(),
{
    let mut lo: usize = 0;
    let mut hi: usize = set.len();
    while lo < hi
        invariant
            lo <= hi <= set@.len(),
            side_wf(set@),
            price.wf(),
            forall|k: int| 0 <= k < lo ==> set@[k].price_units() < price.units(),
            forall|k: int| hi <= k < set@.len() ==> set@[k].price_units() >= price.units(),
        decreases hi - lo,
    {
        let mid = lo + (hi - lo) / 2;
        if set[mid].price.0.lt(price) {
            proof {
                assert forall|k: int| 0 <= k < mid + 1 implies set@[k].price_units()
                    < price.units() by {
                    if k < mid {
                        assert(set@[k].price_units() < set@[mid as int].price_units());
                    }
                }
            }
            lo = mid + 1;
        } else {
            proof {
                assert forall|k: int| mid <= k < set@.len() implies set@[k].price_units()
                    >= price.units() by {
                    if k > mid {
                        assert(set@[mid as int].price_units() < set@[k].price_units());
                    }
                }
            }
            hi = mid;
        }
    }
    lo
}

/// The single update rule shared by both sides: replace the quantity at
/// an existing price, insert a fresh level, or remove the level when the
/// incoming quantity is zero.
fn update_impl(set: &mut Vec<OrderData>, order: OrderData)
    requires
        side_wf(old(set)@),
        order.wf(),
        order.qty_units() >= 0,
    ensures
        side_wf(final(set)@),
        side_map(final(set)@) == spec_update(side_map(old(set)@), order.price_units(),
            order.qty_units()),
        forall|p: int| has_price(final(set)@, p) <==> (if p == order.price_units() {
            order.qty_units() != 0
        } else {
            has_price(old(set)@, p)
        }),
        forall|p: int| qty_at(final(set)@, p) == (if p == order.price_units() {
            order.qty_units()
        } else {
            qty_at(old(set)@, p)
        }),
        final(set)@.len() == old(set)@.len() + (if order.qty_units() > 0 && !has_price(old(set)@,
        order.price_units()) {
            1int
        } else if order.qty_units() == 0 && has_price(old(set)@, order.price_units()) {
            -1int
        } else {
            0int
        }),
{
    let ghost s0 = set@;
    let ghost p = order.price_units();
    let i = lower_bound(set, &order.price.0);
    let found = i < set.len() && set[i].price.0.eq_value(&order.price.0);
    proof {
        if found {
            assert(has_price(s0, p));
        } else {
            assert forall|k: int| 0 <= k < s0.len() implies s0[k].price_units() != p by {
                if k < i {
                } else if k == i {
                } else {
                    assert(s0[i as int].price_units() < s0[k].price_units());
                }
            }
            assert(!has_price(s0, p));
        }
    }
    if order.quantity.0.is_zero() {
        if found {
            set.remove(i);
            proof {
                lemma_remove_ok(s0, set@, i as int, p);
            }
        } else {
            proof {
                assert(side_map(set@) =~= spec_update(side_map(s0), p, 0));
            }
        }
    } else {
        if found {
            let ghost svec = set@;
            set[i] = order;
            proof {
                assert(set@ =~= svec.update(i as int, order));
                lemma_replace_ok(s0, set@, i as int, order);
            }
        } else {
            set.insert(i, order);
            proof {
                lemma_insert_ok(s0, set@, i as int, order);
            }
        }
    }
}

proof fn lemma_remove_ok(s0: Seq<OrderData>, s1: Seq<OrderData>, i: int, p: int)
    requires
        side_wf(s0),
        0 <= i < s0.len(),
        s0[i].price_units() == p,
        s1 == s0.remove(i),
    ensures
        side_wf(s1),
        side_map(s1) == spec_update(side_map(s0), p, 0),
        forall|q: int| has_price(s1, q) <==> (q != p && has_price(s0, q)),
        forall|q: int| qty_at(s1, q) == (if q == p { 0int } else { qty_at(s0, q) }),
{
    assert forall|k: int| 0 <= k < s1.len() implies (#[trigger] s1[k]).wf()
        && s1[k].qty_units() > 0 by {
        if k < i {
            assert(s1[k] == s0[k]);
        } else {
            assert(s1[k] == s0[k + 1]);
        }
    }
    assert forall|a: int, b: int| 0 <= a < b < s1.len() implies s1[a].price_units()
        < s1[b].price_units() by {
        let a0 = if a < i { a } else { a + 1 };
        let b0 = if b < i { b } else { b + 1 };
        assert(s1[a] == s0[a0]);
        assert(s1[b] == s0[b0]);
    }
    assert forall|q: int| q != p implies (has_price(s1, q) <==> has_price(s0, q)) by {
        if has_price(s0, q) {
            let k = choose|k: int| 0 <= k < s0.len() && (#[trigger] s0[k]).price_units() == q;
            if k < i {
                assert(s1[k] == s0[k]);
            } else {
                assert(k > i);
                assert(s1[k - 1] == s0[k]);
            }
            assert(has_price(s1, q));
        }
        if has_price(s1, q) {
            let k = choose|k: int| 0 <= k < s1.len() && (#[trigger] s1[k]).price_units() == q;
            if k < i {
                assert(s0[k] == s1[k]);
            } else {
                assert(s0[k + 1] == s1[k]);
            }
            assert(has_price(s0, q));
        }
    }
    assert forall|q: int| #[trigger] has_price(s1, q) implies q != p && qty_at(s1, q)
        == qty_at(s0, q) by {
        let k = choose|k: int| 0 <= k < s1.len() && (#[trigger] s1[k]).price_units() == q;
        let k0 = if k < i { k } else { k + 1 };
        assert(s1[k] == s0[k0]);
        if q == p {
            lemma_unique_price(s0, k0, i);
            assert(false);
        }
        lemma_qty_at_index(s1, k, q);
        lemma_qty_at_index(s0, k0, q);
    }
    assert(side_map(s1) =~= spec_update(side_map(s0), p, 0));
}

proof fn lemma_replace_ok(s0: Seq<OrderData>, s1: Seq<OrderData>, i: int, order: OrderData)
    requires
        side_wf(s0),
        0 <= i < s0.len(),
        s0[i].price_units() == order.price_units(),
        order.wf(),
        order.qty_units() > 0,
        s1 == s0.update(i, order),
    ensures
        side_wf(s1),
        side_map(s1) == spec_update(side_map(s0), order.price_units(), order.qty_units()),
        forall|q: int| has_price(s1, q) <==> (q == order.price_units() || has_price(s0, q)),
        forall|q: int| qty_at(s1, q) == (if q == order.price_units() {
            order.qty_units()
        } else {
            qty_at(s0, q)
        }),
{
    let p = order.price_units();
    assert forall|a: int, b: int| 0 <= a < b < s1.len() implies s1[a].price_units()
        < s1[b].price_units() by {
        assert(s0[a].price_units() < s0[b].price_units());
    }
    assert forall|q: int| q != p implies (has_price(s1, q) <==> has_price(s0, q)) by {
        if has_price(s0, q) {
            let k = choose|k: int| 0 <= k < s0.len() && (#[trigger] s0[k]).price_units() == q;
            assert(k != i);
            assert(s1[k] == s0[k]);
            assert(has_price(s1, q));
        }
        if has_price(s1, q) {
            let k = choose|k: int| 0 <= k < s1.len() && (#[trigger] s1[k]).price_units() == q;
            assert(k != i);
            assert(s0[k] == s1[k]);
            assert(has_price(s0, q));
        }
    }
    assert(s1[i] == order);
    assert(has_price(s1, p));
    assert forall|q: int| #[trigger] has_price(s1, q) implies qty_at(s1, q) == (if q == p {
        order.qty_units()
    } else {
        qty_at(s0, q)
    }) by {
        let k = choose|k: int| 0 <= k < s1.len() && (#[trigger] s1[k]).price_units() == q;
        lemma_qty_at_index(s1, k, q);
        if q == p {
            lemma_unique_price_updated(s0, s1, i, k);
            assert(k == i);
        } else {
            assert(k != i);
            assert(s1[k] == s0[k]);
            lemma_qty_at_index(s0, k, q);
        }
    }
    assert(side_map(s1) =~= spec_update(side_map(s0), p, order.qty_units()));
}

proof fn lemma_insert_ok(s0: Seq<OrderData>, s1: Seq<OrderData>, i: int, order: OrderData)
    requires
        side_wf(s0),
        0 <= i <= s0.len(),
        forall|k: int| 0 <= k < i ==> s0[k].price_units() < order.price_units(),
        forall|k: int| i <= k < s0.len() ==> s0[k].price_units() > order.price_units(),
        order.wf(),
        order.qty_units() > 0,
        s1 == s0.insert(i, order),
    ensures
        side_wf(s1),
        side_map(s1) == spec_update(side_map(s0), order.price_units(), order.qty_units()),
        forall|q: int| has_price(s1, q) <==> (q == order.price_units() || has_price(s0, q)),
        forall|q: int| qty_at(s1, q) == (if q == order.price_units() {
            order.qty_units()
        } else {
            qty_at(s0, q)
        }),
{
    let p = order.price_units();
    assert forall|k: int| 0 <= k < s1.len() implies (#[trigger] s1[k]).wf()
        && s1[k].qty_units() > 0 by {
        if k < i {
            assert(s1[k] == s0[k]);
        } else if k == i {
            assert(s1[k] == order);
        } else {
            assert(s1[k] == s0[k - 1]);
        }
    }
    assert forall|a: int, b: int| 0 <= a < b < s1.len() implies s1[a].price_units()
        < s1[b].price_units() by {
        if a < i {
            assert(s1[a] == s0[a]);
        } else if a == i {
            assert(s1[a] == order);
        } else {
            assert(s1[a] == s0[a - 1]);
        }
        if b < i {
            assert(s1[b] == s0[b]);
        } else if b == i {
            assert(s1[b] == order);
        } else {
            assert(s1[b] == s0[b - 1]);
        }
    }
    assert(s1[i] == order);
    assert(has_price(s1, p));
    assert forall|q: int| q != p implies (has_price(s1, q) <==> has_price(s0, q)) by {
        if has_price(s0, q) {
            let k = choose|k: int| 0 <= k < s0.len() && (#[trigger] s0[k]).price_units() == q;
            if k < i {
                assert(s1[k] == s0[k]);
            } else {
                assert(s1[k + 1] == s0[k]);
            }
            assert(has_price(s1, q));
        }
        if has_price(s1, q) {
            let k = choose|k: int| 0 <= k < s1.len() && (#[trigger] s1[k]).price_units() == q;
            assert(k != i);
            if k < i {
                assert(s0[k] == s1[k]);
            } else {
                assert(s0[k - 1] == s1[k]);
            }
            assert(has_price(s0, q));
        }
    }
    assert forall|q: int| #[trigger] has_price(s1, q) implies qty_at(s1, q) == (if q == p {
        order.qty_units()
    } else {
        qty_at(s0, q)
    }) by {
        let k = choose|k: int| 0 <= k < s1.len() && (#[trigger] s1[k]).price_units() == q;
        lemma_qty_at_index(s1, k, q);
        if q == p {
            lemma_unique_price(s1, k, i);
            assert(k == i);
        } else {
            assert(k != i);
            let k0 = if k < i { k } else { k - 1 };
            assert(s1[k] == s0[k0]);
            lemma_qty_at_index(s0, k0, q);
        }
    }
    assert(!has_price(s0, p));
    assert(side_map(s1) =~= spec_update(side_map(s0), p, order.qty_units()));
}

/// In a sorted side, two indices holding the same price are one index.
proof fn lemma_unique_price(s: Seq<OrderData>, a: int, b: int)
    requires
        sorted_by_price(s),
        0 <= a < s.len(),
        0 <= b < s.len(),
        s[a].price_units() == s[b].price_units(),
    ensures
        a == b,
{
    if a < b {
        assert(s[a].price_units() < s[b].price_units());
    }
    if b < a {
        assert(s[b].price_units() < s[a].price_units());
    }
}

proof fn lemma_unique_price_updated(s0: Seq<OrderData>, s1: Seq<OrderData>, i: int, k: int)
    requires
        sorted_by_price(s0),
        0 <= i < s0.len(),
        0 <= k < s1.len(),
        s1 == s0.update(i, s1[i]),
        s1[i].price_units() == s0[i].price_units(),
        s1[k].price_units() == s1[i].price_units(),
    ensures
        k == i,
{
    if k != i {
        assert(s1[k] == s0[k]);
        lemma_unique_price(s0, k, i);
    }
}

/// `qty_at` at a price held by index `k` reads that index's quantity.
proof fn lemma_qty_at_index(s: Seq<OrderData>, k: int, q: int)
    requires
        sorted_by_price(s),
        0 <= k < s.len(),
        s[k].price_units() == q,
    ensures
        qty_at(s, q) == s[k].qty_units(),
{
    assert(has_price(s, q));
    let j = choose|j: int| 0 <= j < s.len() && (#[trigger] s[j]).price_units() == q;
    lemma_unique_price(s, j, k);
}

} // verus!
