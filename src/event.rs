//! The feed events of every family as one tagged union, and the decoder that
//! classifies envelopes by their `ev` tag.

use vstd::prelude::*;
use crate::crypto::{crypto_decodes_to, crypto_trade, crypto_well_formed, is_crypto_envelope, CryptoTradeEvent};
use crate::json::{members_of, Json};
use crate::stocks::{is_stock_envelope, stock_decodes_to, stock_trade, stock_well_formed, TradeEvent};
use crate::trade::{Trade, TradeData, TradeError, TradeView};

verus! {

/// A feed family: which envelopes its session decodes.
#[derive(Clone, Copy, Debug, PartialEq, Eq, Structural)]
pub enum Feed {
    Crypto,
    Stocks,
}

/// A decoded feed event of any family.
#[derive(Clone, Debug)]
pub enum FeedEvent {
    Crypto(CryptoTradeEvent),
    Stock(TradeEvent),
}

impl Trade for FeedEvent {
    open spec fn trade_spec(&self) -> Result<TradeView, TradeError> {
        match self {
            FeedEvent::Crypto(e) => crypto_trade(*e),
            FeedEvent::Stock(e) => stock_trade(*e),
        }
    }

    fn get_trade(&self) -> (r: Result<TradeData, TradeError>) {
        match self {
            FeedEvent::Crypto(e) => e.get_trade(),
            FeedEvent::Stock(e) => e.get_trade(),
        }
    }
}

/// Whether the envelope carries the tag of the feed's events.
pub open spec fn applies(feed: Feed, j: Json) -> bool {
    match feed {
        Feed::Crypto => is_crypto_envelope(j),
        Feed::Stocks => is_stock_envelope(j),
    }
}

/// Whether an envelope of the feed's tag holds every member its event needs.
pub open spec fn well_formed(feed: Feed, j: Json) -> bool {
    match feed {
        Feed::Crypto => crypto_well_formed(members_of(j)),
        Feed::Stocks => stock_well_formed(members_of(j)),
    }
}

/// Whether `e` is the event that the envelope decodes to.
pub open spec fn decodes_to(feed: Feed, j: Json, e: FeedEvent) -> bool {
    match (feed, e) {
        (Feed::Crypto, FeedEvent::Crypto(c)) => crypto_decodes_to(members_of(j), c),
        (Feed::Stocks, FeedEvent::Stock(s)) => stock_decodes_to(members_of(j), s),
        _ => false,
    }
}

/// The outcome of decoding one envelope.
#[derive(Debug)]
pub enum Decoded {
    /// The envelope is not one of the feed's events (a status message, another family).
    NotApplicable,
    /// The envelope has the feed's tag but cannot be decoded.
    Invalid(TradeError),
    Event(FeedEvent),
}

/// Decodes one envelope for the feed.
pub fn decode_envelope(feed: Feed, j: &Json) -> (r: Decoded)
    ensures
        match r {
            Decoded::NotApplicable => !applies(feed, *j),
            Decoded::Invalid(err) => applies(feed, *j) && !well_formed(feed, *j) && err
                == TradeError::Malformed,
            Decoded::Event(e) => applies(feed, *j) && decodes_to(feed, *j, e),
        },
{
    match feed {
        Feed::Crypto => match CryptoTradeEvent::from_value(j) {
            Ok(Some(e)) => Decoded::Event(FeedEvent::Crypto(e)),
            Ok(None) => Decoded::NotApplicable,
            Err(err) => Decoded::Invalid(err),
        },
        Feed::Stocks => match TradeEvent::from_value(j) {
            Ok(Some(e)) => Decoded::Event(FeedEvent::Stock(e)),
            Ok(None) => Decoded::NotApplicable,
            Err(err) => Decoded::Invalid(err),
        },
    }
}

/// Whether the envelope yields an event of the feed.
pub open spec fn delivers(feed: Feed, j: Json) -> bool {
    applies(feed, j) && well_formed(feed, j)
}

/// The envelopes of `s` that yield events, in order.
pub open spec fn delivered(feed: Feed, s: Seq<Json>) -> Seq<Json>
    decreases s.len(),
{
    if s.len() == 0 {
        Seq::empty()
    } else if delivers(feed, s.last()) {
        delivered(feed, s.drop_last()).push(s.last())
    } else {
        delivered(feed, s.drop_last())
    }
}

/// How many envelopes of `s` carry the feed's tag and fail to decode.
pub open spec fn rejected(feed: Feed, s: Seq<Json>) -> nat
    decreases s.len(),
{
    if s.len() == 0 {
        0
    } else if applies(feed, s.last()) && !well_formed(feed, s.last()) {
        rejected(feed, s.drop_last()) + 1
    } else {
        rejected(feed, s.drop_last())
    }
}

/// Decodes each envelope of a message independently: the events in order,
/// and the number of envelopes that carried the feed's tag but failed.
pub fn decode_batch(feed: Feed, items: &Vec<Json>) -> (r: (Vec<FeedEvent>, usize))
    ensures
        r.0@.len() == delivered(feed, items@).len(),
        forall|k: int|
            0 <= k < r.0@.len() ==> decodes_to(feed, #[trigger] delivered(feed, items@)[k], r.0@[k]),
        r.1 == rejected(feed, items@),
{
    let mut events: Vec<FeedEvent> = Vec::new();
    let mut bad: usize = 0;
    let mut i: usize = 0;
    while i < items.len()
        invariant
            i <= items@.len(),
            events@.len() == delivered(feed, items@.take(i as int)).len(),
            forall|k: int|
                0 <= k < events@.len() ==> decodes_to(
                    feed,
                    #[trigger] delivered(feed, items@.take(i as int))[k],
                    events@[k],
                ),
            bad == rejected(feed, items@.take(i as int)),
            bad <= i,
        decreases items@.len() - i,
    {
        let ghost prev = items@.take(i as int);
        assert(items@.take(i + 1).drop_last() == prev);
        assert(items@.take(i + 1).last() == items@[i as int]);
        match decode_envelope(feed, &items[i]) {
            Decoded::Event(e) => {
                events.push(e);
            },
            Decoded::Invalid(_) => {
                bad = bad + 1;
            },
            Decoded::NotApplicable => {},
        }
        i = i + 1;
    }
    assert(items@.take(items@.len() as int) == items@);
    (events, bad)
}

/// An envelope that does not carry the feed's tag is not applicable: it adds no
/// event to those a message delivers and no rejection.
pub proof fn other_tags_are_skipped(feed: Feed, s: Seq<Json>, j: Json)
    requires
        !applies(feed, j),
    ensures
        delivered(feed, s.push(j)) == delivered(feed, s),
        rejected(feed, s.push(j)) == rejected(feed, s),
{
    assert(s.push(j).drop_last() == s);
}

} // verus!
