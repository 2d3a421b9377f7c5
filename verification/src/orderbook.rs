//! Orderbook state machine for a single prediction market.
//!
//! The venue sends one `orderbook_snapshot` per subscription and then a
//! stream of `orderbook_delta` messages. Each side of the book maps a price
//! in cents to a positive quantity; prices of one cent or less are synthetic
//! and dropped. The best bid on a side is the highest price present, and the
//! state caches it together with its quantity after every mutation.

use vstd::prelude::*;

use crate::spec_sat_add;
use crate::text::str_eq;

verus! {

// =============================================================================
// Wire message shapes
// =============================================================================

/// Body of an orderbook WebSocket message: a snapshot carries `yes`/`no`
/// level lists, a delta carries `side`/`price`/`delta`.
pub struct WsMessageBody {
    pub market_ticker: Option<String>,
    /// Snapshot: YES bid levels as `[[price_cents, quantity], ...]`.
    pub yes: Option<Vec<Vec<i64>>>,
    /// Snapshot: NO bid levels.
    pub no: Option<Vec<Vec<i64>>>,
    /// Delta: price level that changed.
    pub price: Option<i64>,
    /// Delta: signed quantity change.
    pub delta: Option<i64>,
    /// Delta: which side changed (`"yes"` or `"no"`).
    pub side: Option<String>,
}

/// Envelope of an orderbook WebSocket message.
pub struct WsMessage {
    pub msg_type: String,
    pub sid: Option<i32>,
    pub seq: Option<i64>,
    pub msg: Option<WsMessageBody>,
}

/// Subscription parameters sent to the venue.
pub struct SubscribeParams {
    pub channels: Vec<&'static str>,
    pub market_tickers: Vec<String>,
}

/// Subscription command sent to the venue.
pub struct SubscribeCmd {
    pub id: i32,
    pub cmd: &'static str,
    pub params: SubscribeParams,
}

// =============================================================================
// One side of the book
// =============================================================================

/// Every stored level has a real price (above one cent) and positive
/// quantity, and no price occurs twice.
pub open spec fn side_wf(s: Seq<(u16, i64)>) -> bool {
    &&& forall|i: int| 0 <= i < s.len() ==> (#[trigger] s[i]).0 > 1 && s[i].1 > 0
    &&& forall|i: int, j: int| 0 <= i < j < s.len() ==> s[i].0 != s[j].0
}

/// The mapping `price -> quantity` held by a side.
pub open spec fn book_map(s: Seq<(u16, i64)>) -> Map<u16, i64>
    decreases s.len(),
{
    if s.len() == 0 {
        Map::empty()
    } else {
        book_map(s.drop_last()).insert(s.last().0, s.last().1)
    }
}

/// `bid`/`qty` cache the top of the book: the maximum price present with
/// its quantity, or zero on an empty side.
pub open spec fn best_ok(s: Seq<(u16, i64)>, bid: u16, qty: i64) -> bool {
    if s.len() == 0 {
        bid == 0 && qty == 0
    } else {
        &&& exists|i: int| 0 <= i < s.len() && #[trigger] s[i] == (bid, qty)
        &&& forall|i: int| 0 <= i < s.len() ==> (#[trigger] s[i]).0 <= bid
    }
}

/// Top-of-book statement over the map view: `bid` is the maximum key of
/// `book` and `qty` its quantity, or both are zero when the book is empty.
pub open spec fn top_of_book_ok(book: Map<u16, i64>, bid: u16, qty: i64) -> bool {
    &&& (book.dom() =~= Set::empty()) ==> bid == 0 && qty == 0
    &&& !(book.dom() =~= Set::empty()) ==> {
        &&& book.dom().contains(bid)
        &&& book[bid] == qty
        &&& forall|p: u16| book.dom().contains(p) ==> p <= bid
    }
}

pub proof fn lemma_book_map_dom(s: Seq<(u16, i64)>, p: u16)
    ensures
        book_map(s).dom().contains(p) <==> exists|i: int|
            0 <= i < s.len() && (#[trigger] s[i]).0 == p,
    decreases s.len(),
{
    if s.len() > 0 {
        lemma_book_map_dom(s.drop_last(), p);
        if s.last().0 == p {
            assert(s[s.len() - 1].0 == p);
        } else {
            if exists|i: int| 0 <= i < s.len() && (#[trigger] s[i]).0 == p {
                let i = choose|i: int| 0 <= i < s.len() && (#[trigger] s[i]).0 == p;
                assert(i < s.len() - 1);
                assert(s.drop_last()[i].0 == p);
            }
        }
    }
}

pub proof fn lemma_book_map_index(s: Seq<(u16, i64)>, i: int)
    requires
        forall|a: int, b: int| 0 <= a < b < s.len() ==> s[a].0 != s[b].0,
        0 <= i < s.len(),
    ensures
        book_map(s).dom().contains(s[i].0),
        book_map(s)[s[i].0] == s[i].1,
    decreases s.len(),
{
    if i < s.len() - 1 {
        lemma_book_map_index(s.drop_last(), i);
        assert(s.drop_last()[i] == s[i]);
        assert(s.last().0 != s[i].0);
    }
}

pub proof fn lemma_book_map_update(s: Seq<(u16, i64)>, i: int, q: i64)
    requires
        forall|a: int, b: int| 0 <= a < b < s.len() ==> s[a].0 != s[b].0,
        0 <= i < s.len(),
    ensures
        book_map(s.update(i, (s[i].0, q))) == book_map(s).insert(s[i].0, q),
    decreases s.len(),
{
    let p = s[i].0;
    let s2 = s.update(i, (p, q));
    if i == s.len() - 1 {
        assert(s2.drop_last() =~= s.drop_last());
        assert(s2.last() == (p, q));
        assert(book_map(s2) =~= book_map(s).insert(p, q));
    } else {
        assert(s2.drop_last() =~= s.drop_last().update(i, (p, q)));
        assert(s.drop_last()[i] == s[i]);
        lemma_book_map_update(s.drop_last(), i, q);
        assert(s2.last() == s.last());
        assert(s.last().0 != p);
        assert(book_map(s2) =~= book_map(s).insert(p, q));
    }
}

pub proof fn lemma_book_map_remove(s: Seq<(u16, i64)>, i: int)
    requires
        forall|a: int, b: int| 0 <= a < b < s.len() ==> s[a].0 != s[b].0,
        0 <= i < s.len(),
    ensures
        book_map(s.remove(i)) == book_map(s).remove(s[i].0),
    decreases s.len(),
{
    let p = s[i].0;
    if i == s.len() - 1 {
        assert(s.remove(i) =~= s.drop_last());
        lemma_book_map_dom(s.drop_last(), p);
        assert(forall|j: int| 0 <= j < s.len() - 1 ==> (#[trigger] s.drop_last()[j]).0 != p);
        assert(!book_map(s.drop_last()).dom().contains(p));
        assert(book_map(s).remove(p) =~= book_map(s.drop_last()));
    } else {
        assert(s.remove(i).drop_last() =~= s.drop_last().remove(i));
        assert(s.remove(i).last() == s.last());
        assert(s.drop_last()[i] == s[i]);
        lemma_book_map_remove(s.drop_last(), i);
        assert(s.last().0 != p);
        assert(book_map(s.remove(i)) =~= book_map(s).remove(p));
    }
}

fn side_find(levels: &Vec<(u16, i64)>, price: u16) -> (r: Option<usize>)
    ensures
        match r {
            Some(i) => i < levels@.len() && levels@[i as int].0 == price,
            None => forall|i: int| 0 <= i < levels@.len() ==> (#[trigger] levels@[i]).0 != price,
        },
{
    let mut i: usize = 0;
    while i < levels.len()
        invariant
            0 <= i <= levels@.len(),
            forall|j: int| 0 <= j < i ==> (#[trigger] levels@[j]).0 != price,
        decreases levels@.len() - i,
    {
        if levels[i].0 == price {
            return Some(i);
        }
        i += 1;
    }
    None
}

/// Insert or overwrite one price level.
fn side_set(levels: &mut Vec<(u16, i64)>, price: u16, qty: i64)
    requires
        side_wf(old(levels)@),
        price > 1,
        qty > 0,
    ensures
        side_wf(final(levels)@),
        book_map(final(levels)@) == book_map(old(levels)@).insert(price, qty),
{
    match side_find(levels, price) {
        Some(i) => {
            proof {
                lemma_book_map_update(levels@, i as int, qty);
            }
            levels.set(i, (price, qty));
        },
        None => {
            proof {
                assert(levels@.push((price, qty)).drop_last() =~= levels@);
            }
            levels.push((price, qty));
        },
    }
}

/// Remove one price level, if present.
fn side_remove(levels: &mut Vec<(u16, i64)>, price: u16)
    requires
        side_wf(old(levels)@),
    ensures
        side_wf(final(levels)@),
        book_map(final(levels)@) == book_map(old(levels)@).remove(price),
{
    match side_find(levels, price) {
        Some(i) => {
            proof {
                lemma_book_map_remove(levels@, i as int);
            }
            levels.remove(i);
        },
        None => {
            proof {
                lemma_book_map_dom(levels@, price);
                assert(book_map(levels@).remove(price) =~= book_map(levels@));
            }
        },
    }
}

/// Quantity at a price, zero when the level is absent.
fn side_qty(levels: &Vec<(u16, i64)>, price: u16) -> (q: i64)
    requires
        side_wf(levels@),
    ensures
        q == if book_map(levels@).dom().contains(price) {
            book_map(levels@)[price]
        } else {
            0i64
        },
{
    match side_find(levels, price) {
        Some(i) => {
            proof {
                lemma_book_map_index(levels@, i as int);
            }
            levels[i].1
        },
        None => {
            proof {
                lemma_book_map_dom(levels@, price);
            }
            0
        },
    }
}

/// Scan a side for its highest price and that price's quantity.
fn side_best(levels: &Vec<(u16, i64)>) -> (r: (u16, i64))
    requires
        side_wf(levels@),
    ensures
        best_ok(levels@, r.0, r.1),
{
    let mut bid: u16 = 0;
    let mut qty: i64 = 0;
    let mut i: usize = 0;
    while i < levels.len()
        invariant
            0 <= i <= levels@.len(),
            side_wf(levels@),
            i == 0 ==> bid == 0 && qty == 0,
            i > 0 ==> exists|j: int| 0 <= j < i && #[trigger] levels@[j] == (bid, qty),
            forall|j: int| 0 <= j < i ==> (#[trigger] levels@[j]).0 <= bid,
        decreases levels@.len() - i,
    {
        let (p, q) = levels[i];
        if p > bid {
            bid = p;
            qty = q;
            proof {
                assert(levels@[i as int] == (bid, qty));
            }
        }
        i += 1;
    }
    (bid, qty)
}

// =============================================================================
// Snapshot semantics
// =============================================================================

/// A snapshot level is kept when it has both entries, a real price that fits
/// in a cent field, and positive quantity.
pub open spec fn level_kept(l: Seq<i64>) -> bool {
    l.len() >= 2 && 1 < l[0] <= u16::MAX && l[1] > 0
}

/// The book a snapshot side builds: every kept level inserted in order, so a
/// later duplicate price wins.
pub open spec fn snapshot_book(levels: Seq<Seq<i64>>) -> Map<u16, i64>
    decreases levels.len(),
{
    if levels.len() == 0 {
        Map::empty()
    } else {
        let m = snapshot_book(levels.drop_last());
        let l = levels.last();
        if level_kept(l) {
            m.insert(l[0] as u16, l[1])
        } else {
            m
        }
    }
}

/// Replace a side's contents with the kept levels of a snapshot list.
fn side_load_snapshot(levels: &mut Vec<(u16, i64)>, input: &Vec<Vec<i64>>)
    ensures
        side_wf(final(levels)@),
        book_map(final(levels)@) == snapshot_book(input@.map_values(|v: Vec<i64>| v@)),
{
    levels.clear();
    let ghost iseq = input@.map_values(|v: Vec<i64>| v@);
    let mut i: usize = 0;
    while i < input.len()
        invariant
            0 <= i <= input@.len(),
            iseq == input@.map_values(|v: Vec<i64>| v@),
            iseq.len() == input@.len(),
            side_wf(levels@),
            book_map(levels@) == snapshot_book(iseq.take(i as int)),
        decreases input@.len() - i,
    {
        let level = &input[i];
        proof {
            assert(iseq[i as int] == input@[i as int]@);
            assert(iseq.take(i + 1).drop_last() =~= iseq.take(i as int));
            assert(iseq.take(i + 1).last() == iseq[i as int]);
        }
        if level.len() >= 2 {
            let price = level[0];
            let qty = level[1];
            if price > 1 && price <= u16::MAX as i64 && qty > 0 {
                side_set(levels, price as u16, qty);
            }
        }
        i += 1;
    }
    proof {
        assert(iseq.take(iseq.len() as int) =~= iseq);
    }
}

// =============================================================================
// Orderbook state
// =============================================================================

/// What one delta message does to a side's book.
pub open spec fn delta_book(book: Map<u16, i64>, price: u16, delta: i64) -> Map<u16, i64> {
    let q0 = if book.dom().contains(price) {
        book[price]
    } else {
        0i64
    };
    let q1 = spec_sat_add(q0, delta);
    if q1 > 0 {
        book.insert(price, q1)
    } else {
        book.remove(price)
    }
}

/// The empty book.
pub open spec fn empty_book() -> Map<u16, i64> {
    Map::empty()
}

/// What a snapshot leaves on each side: both sides are cleared, and a side
/// named in the body is rebuilt from its kept levels.
pub open spec fn snapshot_applied(
    body: &WsMessageBody,
    yes1: Map<u16, i64>,
    no1: Map<u16, i64>,
) -> bool {
    &&& yes1 == match body.yes {
        Some(levels) => snapshot_book(levels@.map_values(|v: Vec<i64>| v@)),
        None => empty_book(),
    }
    &&& no1 == match body.no {
        Some(levels) => snapshot_book(levels@.map_values(|v: Vec<i64>| v@)),
        None => empty_book(),
    }
}

/// What a delta body does to the two sides: the named side's level at the
/// body's price moves by the body's delta (erased when no longer positive);
/// synthetic prices, unknown sides and malformed bodies change nothing.
pub open spec fn delta_applied(
    body: &WsMessageBody,
    yes0: Map<u16, i64>,
    no0: Map<u16, i64>,
    yes1: Map<u16, i64>,
    no1: Map<u16, i64>,
) -> bool {
    let unchanged = yes1 == yes0 && no1 == no0;
    match (body.side, body.price) {
        (Some(side), Some(price)) => {
            if !(1 < price <= u16::MAX) {
                unchanged
            } else {
                let d = match body.delta {
                    Some(d) => d,
                    None => 0i64,
                };
                if side@ == "yes"@ {
                    yes1 == delta_book(yes0, price as u16, d) && no1 == no0
                } else if side@ == "no"@ {
                    no1 == delta_book(no0, price as u16, d) && yes1 == yes0
                } else {
                    unchanged
                }
            }
        },
        _ => unchanged,
    }
}

/// Live orderbook for one market: both sides plus the cached top of book.
pub struct OrderbookState {
    /// YES bid levels as `(price_cents, quantity)` pairs, prices distinct.
    pub yes_bids: Vec<(u16, i64)>,
    /// NO bid levels as `(price_cents, quantity)` pairs, prices distinct.
    pub no_bids: Vec<(u16, i64)>,
    /// Cached best YES bid in cents (zero when the YES side is empty).
    pub yes_bid: u16,
    /// Cached best NO bid in cents (zero when the NO side is empty).
    pub no_bid: u16,
    /// Cached quantity at the best YES bid.
    pub yes_qty: i64,
    /// Cached quantity at the best NO bid.
    pub no_qty: i64,
}

impl OrderbookState {
    /// The YES side as a map `price_cents -> quantity`.
    pub open spec fn yes_book(&self) -> Map<u16, i64> {
        book_map(self.yes_bids@)
    }

    /// The NO side as a map `price_cents -> quantity`.
    pub open spec fn no_book(&self) -> Map<u16, i64> {
        book_map(self.no_bids@)
    }

    /// Internal well-formedness: sides hold positive quantities at distinct
    /// real prices, and the cached values are the true top of book.
    pub open spec fn wf(&self) -> bool {
        &&& side_wf(self.yes_bids@)
        &&& side_wf(self.no_bids@)
        &&& best_ok(self.yes_bids@, self.yes_bid, self.yes_qty)
        &&& best_ok(self.no_bids@, self.no_bid, self.no_qty)
    }

    /// After any mutation, the cached `yes_bid`/`no_bid` equal the maximum
    /// key of the respective side, or zero on an empty side.
    pub proof fn lemma_cache_is_top_of_book(&self)
        requires
            self.wf(),
        ensures
            top_of_book_ok(self.yes_book(), self.yes_bid, self.yes_qty),
            top_of_book_ok(self.no_book(), self.no_bid, self.no_qty),
    {
        Self::lemma_side_top(self.yes_bids@, self.yes_bid, self.yes_qty);
        Self::lemma_side_top(self.no_bids@, self.no_bid, self.no_qty);
    }

    proof fn lemma_side_top(s: Seq<(u16, i64)>, bid: u16, qty: i64)
        requires
            side_wf(s),
            best_ok(s, bid, qty),
        ensures
            top_of_book_ok(book_map(s), bid, qty),
    {
        if s.len() == 0 {
            assert(book_map(s).dom() =~= Set::empty());
        } else {
            let i = choose|i: int| 0 <= i < s.len() && #[trigger] s[i] == (bid, qty);
            lemma_book_map_index(s, i);
            assert(book_map(s).dom().contains(bid));
            assert(!(book_map(s).dom() =~= Set::empty()));
            assert forall|p: u16| book_map(s).dom().contains(p) implies p <= bid by {
                lemma_book_map_dom(s, p);
                let j = choose|j: int| 0 <= j < s.len() && (#[trigger] s[j]).0 == p;
                assert(s[j].0 <= bid);
            }
        }
    }

    /// Fresh empty orderbook.
    pub fn new() -> (r: Self)
        ensures
            r.wf(),
            r.yes_book() == empty_book(),
            r.no_book() == empty_book(),
            r.yes_bid == 0 && r.no_bid == 0 && r.yes_qty == 0 && r.no_qty == 0,
    {
        OrderbookState {
            yes_bids: Vec::new(),
            no_bids: Vec::new(),
            yes_bid: 0,
            no_bid: 0,
            yes_qty: 0,
            no_qty: 0,
        }
    }

    /// A book is usable once either side shows a price.
    pub fn is_valid(&self) -> (r: bool)
        ensures
            r == (self.yes_bid > 0 || self.no_bid > 0),
    {
        self.yes_bid > 0 || self.no_bid > 0
    }

    /// Best YES bid as a probability in micro units.
    pub fn yes_probability(&self) -> (r: i64)
        requires
            self.yes_bid <= 100,
        ensures
            r == self.yes_bid * 10_000,
    {
        (self.yes_bid as i64) * 10_000
    }

    /// Best NO bid as a probability in micro units.
    pub fn no_probability(&self) -> (r: i64)
        requires
            self.no_bid <= 100,
        ensures
            r == self.no_bid * 10_000,
    {
        (self.no_bid as i64) * 10_000
    }

    fn refresh_cache(&mut self)
        requires
            side_wf(old(self).yes_bids@),
            side_wf(old(self).no_bids@),
        ensures
            final(self).wf(),
            final(self).yes_bids@ == old(self).yes_bids@,
            final(self).no_bids@ == old(self).no_bids@,
    {
        let (yb, yq) = side_best(&self.yes_bids);
        self.yes_bid = yb;
        self.yes_qty = yq;
        let (nb, nq) = side_best(&self.no_bids);
        self.no_bid = nb;
        self.no_qty = nq;
    }

    /// Clear both sides and rebuild each from the level list the snapshot
    /// body names for it, then refresh the cached top of book.
    pub fn update_from_snapshot(&mut self, body: &WsMessageBody)
        requires
            old(self).wf(),
        ensures
            final(self).wf(),
            snapshot_applied(body, final(self).yes_book(), final(self).no_book()),
    {
        match &body.yes {
            Some(levels) => {
                side_load_snapshot(&mut self.yes_bids, levels);
            },
            None => {
                self.yes_bids.clear();
            },
        }
        match &body.no {
            Some(levels) => {
                side_load_snapshot(&mut self.no_bids, levels);
            },
            None => {
                self.no_bids.clear();
            },
        }
        self.refresh_cache();
    }

    /// Apply one delta message: add the change to the level's quantity,
    /// erase the level when the result is not positive, ignore synthetic
    /// prices and malformed bodies, then refresh the cached top of book.
    pub fn update_from_delta(&mut self, body: &WsMessageBody)
        requires
            old(self).wf(),
        ensures
            final(self).wf(),
            delta_applied(
                body,
                old(self).yes_book(),
                old(self).no_book(),
                final(self).yes_book(),
                final(self).no_book(),
            ),
    {
        let side = match &body.side {
            Some(s) => s,
            None => {
                return ;
            },
        };
        let price_raw = match body.price {
            Some(p) => p,
            None => {
                return ;
            },
        };
        let delta = match body.delta {
            Some(d) => d,
            None => 0,
        };
        if !(price_raw > 1 && price_raw <= u16::MAX as i64) {
            return ;
        }
        let price = price_raw as u16;
        let is_yes = str_eq(side.as_str(), "yes");
        let is_no = str_eq(side.as_str(), "no");
        if !is_yes && !is_no {
            return ;
        }
        if is_yes {
            Self::side_apply_delta(&mut self.yes_bids, price, delta);
        } else {
            Self::side_apply_delta(&mut self.no_bids, price, delta);
        }
        self.refresh_cache();
    }

    /// Build the update this book's top would publish.
    pub fn to_probability_update(&self, market_ticker: &str, timestamp_ms: i64) -> (r:
        ProbabilityUpdate)
        ensures
            prob_update_ok(&r, market_ticker@, self, timestamp_ms),
    {
        ProbabilityUpdate {
            market_ticker: market_ticker.to_owned(),
            yes_prob_micro: (self.yes_bid as i64) * 10_000,
            no_prob_micro: (self.no_bid as i64) * 10_000,
            yes_bid: self.yes_bid,
            no_bid: self.no_bid,
            yes_qty: self.yes_qty,
            no_qty: self.no_qty,
            timestamp_ms,
        }
    }

    fn side_apply_delta(levels: &mut Vec<(u16, i64)>, price: u16, delta: i64)
        requires
            side_wf(old(levels)@),
            price > 1,
        ensures
            side_wf(final(levels)@),
            book_map(final(levels)@) == delta_book(book_map(old(levels)@), price, delta),
    {
        let q0 = side_qty(levels, price);
        let q1 = match q0.checked_add(delta) {
            Some(q) => q,
            None => if delta > 0 {
                i64::MAX
            } else {
                i64::MIN
            },
        };
        if q1 > 0 {
            side_set(levels, price, q1);
        } else {
            side_remove(levels, price);
        }
    }
}

} // verus!

verus! {

// =============================================================================
// Probability updates and the monitor step
// =============================================================================

/// Top-of-book update emitted when a side's best bid changes.
pub struct ProbabilityUpdate {
    pub market_ticker: String,
    /// Best YES bid as a probability, micro units.
    pub yes_prob_micro: i64,
    /// Best NO bid as a probability, micro units.
    pub no_prob_micro: i64,
    pub yes_bid: u16,
    pub no_bid: u16,
    pub yes_qty: i64,
    pub no_qty: i64,
    /// Epoch milliseconds when the update was built.
    pub timestamp_ms: i64,
}

/// The update mirrors the book's cached top.
pub open spec fn prob_update_ok(
    u: &ProbabilityUpdate,
    ticker: Seq<char>,
    state: &OrderbookState,
    ts_ms: i64,
) -> bool {
    &&& u.market_ticker@ == ticker
    &&& u.yes_prob_micro == state.yes_bid * 10_000
    &&& u.no_prob_micro == state.no_bid * 10_000
    &&& u.yes_bid == state.yes_bid
    &&& u.no_bid == state.no_bid
    &&& u.yes_qty == state.yes_qty
    &&& u.no_qty == state.no_qty
    &&& u.timestamp_ms == ts_ms
}

/// A message is skipped when its body names a different market.
pub open spec fn msg_for_other_market(msg: &WsMessage, market_ticker: Seq<char>) -> bool {
    match msg.msg {
        Some(body) => match body.market_ticker {
            Some(t) => t@ != market_ticker,
            None => false,
        },
        None => false,
    }
}

/// What one monitor step does to the book and what it publishes: a snapshot
/// for this market rebuilds the named sides and publishes a valid book; a
/// delta applies its change and publishes only when a cached best bid moved
/// and the book is valid; everything else leaves the book alone and stays
/// silent.
pub open spec fn monitor_step_ok(
    msg: &WsMessage,
    market_ticker: Seq<char>,
    ts_ms: i64,
    s0: &OrderbookState,
    s1: &OrderbookState,
    emitted: Option<ProbabilityUpdate>,
) -> bool {
    let unchanged = s1.yes_book() == s0.yes_book() && s1.no_book() == s0.no_book();
    if msg_for_other_market(msg, market_ticker) {
        unchanged && emitted is None
    } else if msg.msg_type@ == "orderbook_snapshot"@ && msg.msg is Some {
        &&& snapshot_applied(&msg.msg->Some_0, s1.yes_book(), s1.no_book())
        &&& if s1.yes_bid > 0 || s1.no_bid > 0 {
            emitted matches Some(u) && prob_update_ok(&u, market_ticker, s1, ts_ms)
        } else {
            emitted is None
        }
    } else if msg.msg_type@ == "orderbook_delta"@ && msg.msg is Some {
        &&& delta_applied(&msg.msg->Some_0, s0.yes_book(), s0.no_book(), s1.yes_book(), s1.no_book())
        &&& if (s1.yes_bid != s0.yes_bid || s1.no_bid != s0.no_bid) && (s1.yes_bid > 0 || s1.no_bid
            > 0) {
            emitted matches Some(u) && prob_update_ok(&u, market_ticker, s1, ts_ms)
        } else {
            emitted is None
        }
    } else {
        unchanged && emitted is None
    }
}

/// Feed one WebSocket message through the orderbook monitor: apply
/// snapshots and deltas for this market and hand back the probability
/// update to publish, if any.
pub fn process_orderbook_message(
    state: &mut OrderbookState,
    msg: &WsMessage,
    market_ticker: &str,
    timestamp_ms: i64,
) -> (r: Option<ProbabilityUpdate>)
    requires
        old(state).wf(),
    ensures
        final(state).wf(),
        monitor_step_ok(msg, market_ticker@, timestamp_ms, old(state), final(state), r),
{
    if let Some(body) = &msg.msg {
        if let Some(t) = &body.market_ticker {
            if !str_eq(t.as_str(), market_ticker) {
                return None;
            }
        }
    }
    if str_eq(msg.msg_type.as_str(), "orderbook_snapshot") {
        if let Some(body) = &msg.msg {
            state.update_from_snapshot(body);
            if state.is_valid() {
                return Some(state.to_probability_update(market_ticker, timestamp_ms));
            }
            return None;
        }
        return None;
    }
    if str_eq(msg.msg_type.as_str(), "orderbook_delta") {
        if let Some(body) = &msg.msg {
            let old_yes = state.yes_bid;
            let old_no = state.no_bid;
            state.update_from_delta(body);
            if (state.yes_bid != old_yes || state.no_bid != old_no) && state.is_valid() {
                return Some(state.to_probability_update(market_ticker, timestamp_ms));
            }
            return None;
        }
        return None;
    }
    None
}

} // verus!
