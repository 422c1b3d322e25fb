//! The bucket: the latest trade of each source for one instrument.

use vstd::prelude::*;
use crate::event::FeedEvent;
use crate::json::text_eq;
use crate::trade::{Trade, TradeData, TradeError, TradeView};

verus! {

/// The outcome of offering `trade` to a bucket for `symbol` quoted in `currency`.
/// A trade is refused when it has no trade record, or when its symbol or its
/// currency differs from the bucket's.
pub open spec fn add_outcome(symbol: Seq<char>, currency: Seq<char>, trade: FeedEvent) -> Result<(), TradeError> {
    match trade.trade_spec() {
        Err(e) => Err(e),
        Ok(t) => if t.symbol != symbol || t.currency != currency {
            Err(TradeError::Mismatch)
        } else {
            Ok(())
        },
    }
}

/// The entries after offering `trade`: an accepted trade replaces whatever its
/// source held; a refused one changes nothing.
pub open spec fn after_add(
    entries: Map<i64, FeedEvent>,
    symbol: Seq<char>,
    currency: Seq<char>,
    trade: FeedEvent,
) -> Map<i64, FeedEvent> {
    match add_outcome(symbol, currency, trade) {
        Ok(()) => entries.insert(trade.trade_spec()->Ok_0.exchange_id, trade),
        Err(_) => entries,
    }
}

/// Latest wins: after two accepted trades of one source, the source has one
/// entry, holding the second trade, and the other sources are as before.
pub proof fn latest_trade_wins(
    entries: Map<i64, FeedEvent>,
    symbol: Seq<char>,
    currency: Seq<char>,
    first: FeedEvent,
    second: FeedEvent,
)
    requires
        add_outcome(symbol, currency, first) is Ok,
        add_outcome(symbol, currency, second) is Ok,
        first.trade_spec()->Ok_0.exchange_id == second.trade_spec()->Ok_0.exchange_id,
    ensures
        after_add(after_add(entries, symbol, currency, first), symbol, currency, second)
            == after_add(entries, symbol, currency, second),
        after_add(after_add(entries, symbol, currency, first), symbol, currency, second)[second.trade_spec()->Ok_0.exchange_id]
            == second,
        after_add(after_add(entries, symbol, currency, first), symbol, currency, second).dom()
            == entries.dom().insert(second.trade_spec()->Ok_0.exchange_id),
{
    let id = second.trade_spec()->Ok_0.exchange_id;
    assert(entries.insert(id, first).insert(id, second) =~= entries.insert(id, second));
}

/// A trade for another symbol or currency than the bucket's is refused with
/// `Mismatch`, and the entries stay as they were.
pub proof fn mismatched_trade_is_refused(
    entries: Map<i64, FeedEvent>,
    symbol: Seq<char>,
    currency: Seq<char>,
    trade: FeedEvent,
)
    requires
        trade.trade_spec() is Ok,
        trade.trade_spec()->Ok_0.symbol != symbol || trade.trade_spec()->Ok_0.currency != currency,
    ensures
        add_outcome(symbol, currency, trade) == Err::<(), TradeError>(TradeError::Mismatch),
        after_add(entries, symbol, currency, trade) == entries,
{
}

/// The latest trade per source id for one (symbol, currency) pair, kept in
/// ascending order of source id.
pub struct Bucket {
    symbol: String,
    currency: String,
    data: Vec<(i64, FeedEvent)>,
    entries: Ghost<Map<i64, FeedEvent>>,
}

impl Bucket {
    /// The instrument's symbol.
    pub closed spec fn symbol_spec(&self) -> Seq<char> {
        self.symbol@
    }

    /// The instrument's quote currency.
    pub closed spec fn currency_spec(&self) -> Seq<char> {
        self.currency@
    }

    /// The stored event of each source id.
    pub closed spec fn entries(&self) -> Map<i64, FeedEvent> {
        self.entries@
    }

    pub closed spec fn wf(&self) -> bool {
        &&& forall|i: int, j: int|
            0 <= i < j < self.data@.len() ==> (#[trigger] self.data@[i]).0 < (#[trigger] self.data@[j]).0
        &&& forall|i: int|
            0 <= i < self.data@.len() ==> {
                &&& self.entries@.contains_key(#[trigger] self.data@[i].0)
                &&& self.entries@[self.data@[i].0] == self.data@[i].1
            }
        &&& forall|k: i64|
            #[trigger] self.entries@.contains_key(k) ==> exists|i: int|
                0 <= i < self.data@.len() && #[trigger] self.data@[i].0 == k
        &&& forall|k: i64| #[trigger]
            self.entries@.contains_key(k) ==> add_outcome(self.symbol@, self.currency@, self.entries@[k])
                is Ok && self.entries@[k].trade_spec()->Ok_0.exchange_id == k
    }

    /// An empty bucket for `symbol` quoted in `currency`.
    pub fn new(symbol: &str, currency: &str) -> (r: Bucket)
        ensures
            r.wf(),
            r.symbol_spec() == symbol@,
            r.currency_spec() == currency@,
            r.entries() == Map::<i64, FeedEvent>::empty(),
    {
        Bucket {
            symbol: String::from_str(symbol),
            currency: String::from_str(currency),
            data: Vec::new(),
            entries: Ghost(Map::empty()),
        }
    }

    /// Stores `trade` under its source id, replacing the source's previous
    /// trade. Fails, leaving the bucket unchanged, when the trade has no record
    /// or when its symbol or its currency is not the bucket's.
    pub fn add_trade(&mut self, trade: FeedEvent) -> (r: Result<(), TradeError>)
        requires
            old(self).wf(),
        ensures
            final(self).wf(),
            final(self).symbol_spec() == old(self).symbol_spec(),
            final(self).currency_spec() == old(self).currency_spec(),
            r == add_outcome(old(self).symbol_spec(), old(self).currency_spec(), trade),
            final(self).entries() == after_add(
                old(self).entries(),
                old(self).symbol_spec(),
                old(self).currency_spec(),
                trade,
            ),
    {
        let t = match trade.get_trade() {
            Ok(t) => t,
            Err(e) => return Err(e),
        };
        if !text_eq(t.symbol.as_str(), self.symbol.as_str()) || !text_eq(
            t.currency.as_str(),
            self.currency.as_str(),
        ) {
            return Err(TradeError::Mismatch);
        }
        let id = t.exchange_id;
        let mut i: usize = 0;
        while i < self.data.len() && self.data[i].0 < id
            invariant
                i <= self.data@.len(),
                forall|x: int| 0 <= x < i ==> (#[trigger] self.data@[x]).0 < id,
            decreases self.data@.len() - i,
        {
            i = i + 1;
        }
        let ghost old_data = self.data@;
        let ghost new_entries = self.entries@.insert(id, trade);
        if i < self.data.len() && self.data[i].0 == id {
            self.data.set(i, (id, trade));
            self.entries = Ghost(new_entries);
            assert forall|k: i64| #[trigger] self.entries@.contains_key(k) implies exists|x: int|
                0 <= x < self.data@.len() && #[trigger] self.data@[x].0 == k by {
                if k != id {
                    let x = choose|x: int| 0 <= x < old_data.len() && #[trigger] old_data[x].0 == k;
                    assert(self.data@[x].0 == k);
                } else {
                    assert(self.data@[i as int].0 == k);
                }
            }
        } else {
            self.data.insert(i, (id, trade));
            self.entries = Ghost(new_entries);
            assert forall|a: int, b: int|
                0 <= a < b < self.data@.len() implies (#[trigger] self.data@[a]).0 < (
                #[trigger] self.data@[b]).0 by {
                if b < i {
                } else if a < i && b == i {
                } else if a < i {
                    assert(self.data@[b] == old_data[b - 1]);
                    if (i as int) < b - 1 {
                        assert(old_data[i as int].0 < old_data[b - 1].0);
                    }
                } else if a == i {
                    assert(self.data@[b] == old_data[b - 1]);
                    if (i as int) < b - 1 {
                        assert(old_data[i as int].0 < old_data[b - 1].0);
                    }
                } else {
                    assert(self.data@[a] == old_data[a - 1]);
                    assert(self.data@[b] == old_data[b - 1]);
                }
            }
            assert forall|x: int| 0 <= x < self.data@.len() implies {
                &&& self.entries@.contains_key(#[trigger] self.data@[x].0)
                &&& self.entries@[self.data@[x].0] == self.data@[x].1
            } by {
                if x < i {
                    assert(self.data@[x] == old_data[x]);
                } else if x > i {
                    assert(self.data@[x] == old_data[x - 1]);
                    if (i as int) < x - 1 {
                        assert(old_data[i as int].0 < old_data[x - 1].0);
                    }
                }
            }
            assert forall|k: i64| #[trigger] self.entries@.contains_key(k) implies exists|x: int|
                0 <= x < self.data@.len() && #[trigger] self.data@[x].0 == k by {
                if k != id {
                    let x = choose|x: int| 0 <= x < old_data.len() && #[trigger] old_data[x].0 == k;
                    if x < i {
                        assert(self.data@[x].0 == k);
                    } else {
                        assert(self.data@[x + 1].0 == k);
                    }
                } else {
                    assert(self.data@[i as int].0 == k);
                }
            }
        }
        Ok(())
    }

    /// The trade record of every entry, in ascending order of source id.
    pub fn snapshot(&self) -> (r: Vec<(i64, TradeData)>)
        requires
            self.wf(),
        ensures
            forall|i: int, j: int| 0 <= i < j < r@.len() ==> (#[trigger] r@[i]).0 < (#[trigger] r@[j]).0,
            forall|i: int|
                0 <= i < r@.len() ==> {
                    &&& self.entries().contains_key(#[trigger] r@[i].0)
                    &&& self.entries()[r@[i].0].trade_spec() == Ok::<TradeView, TradeError>(
                        r@[i].1@,
                    )
                },
            forall|k: i64| #[trigger]
                self.entries().contains_key(k) ==> exists|i: int| 0 <= i < r@.len() && #[trigger] r@[i].0 == k,
    {
        let mut out: Vec<(i64, TradeData)> = Vec::new();
        let mut i: usize = 0;
        while i < self.data.len()
            invariant
                self.wf(),
                i <= self.data@.len(),
                out@.len() == i,
                forall|x: int| 0 <= x < i ==> (#[trigger] out@[x]).0 == self.data@[x].0,
                forall|x: int|
                    0 <= x < i ==> self.data@[x].1.trade_spec() == Ok::<TradeView, TradeError>(
                        (#[trigger] out@[x]).1@,
                    ),
            decreases self.data@.len() - i,
        {
            let ghost k = self.data@[i as int].0;
            assert(self.entries@.contains_key(k));
            match self.data[i].1.get_trade() {
                Ok(t) => {
                    out.push((self.data[i].0, t));
                },
                Err(_) => {
                    return out;
                },
            }
            i = i + 1;
        }
        assert forall|k: i64| #[trigger]
            self.entries().contains_key(k) implies exists|x: int| 0 <= x < out@.len() && #[trigger] out@[x].0 == k by {
            let x = choose|x: int| 0 <= x < self.data@.len() && #[trigger] self.data@[x].0 == k;
            assert(out@[x].0 == k);
        }
        assert forall|a: int, b: int| 0 <= a < b < out@.len() implies (#[trigger] out@[a]).0 < (#[trigger] out@[b]).0 by {
            assert(self.data@[a].0 < self.data@[b].0);
        }
        out
    }
}

} // verus!

verus! {

/// Offers one event to the bucket of its instrument: an event without a trade
/// record fails with the derivation's error, one for another symbol is passed
/// over (`Ok`, bucket unchanged), and the rest go through `add_trade`.
pub fn process_trade(event: FeedEvent, bucket: &mut Bucket) -> (r: Result<(), TradeError>)
    requires
        old(bucket).wf(),
    ensures
        final(bucket).wf(),
        final(bucket).symbol_spec() == old(bucket).symbol_spec(),
        final(bucket).currency_spec() == old(bucket).currency_spec(),
        match event.trade_spec() {
            Err(e) => r == Err::<(), TradeError>(e) && final(bucket).entries() == old(bucket).entries(),
            Ok(t) => if t.symbol != old(bucket).symbol_spec() {
                r is Ok && final(bucket).entries() == old(bucket).entries()
            } else {
                r == add_outcome(old(bucket).symbol_spec(), old(bucket).currency_spec(), event)
                    && final(bucket).entries() == after_add(
                    old(bucket).entries(),
                    old(bucket).symbol_spec(),
                    old(bucket).currency_spec(),
                    event,
                )
            },
        },
{
    let t = match event.get_trade() {
        Ok(t) => t,
        Err(e) => return Err(e),
    };
    if !text_eq(t.symbol.as_str(), bucket.symbol.as_str()) {
        return Ok(());
    }
    bucket.add_trade(event)
}

} // verus!
