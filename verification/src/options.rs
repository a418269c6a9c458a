//! Options of AMQP connections, sessions and senders, and their builders.
use crate::value::{AmqpOrderedMap, AmqpSymbol, AmqpValue};
use vstd::prelude::*;

pub mod connection;
pub mod sender;
pub mod session;

verus! {

/// A span of time of the `time` crate (`time::Duration`): connection options
/// carry it as it is and read nothing inside it.
#[verifier::external_type_specification]
#[verifier::external_body]
pub struct ExDuration(time::Duration);

/// `map` holds, in order, one entry for each pair of `pairs`: the first text as
/// a symbol, the second as a string value.
pub open spec fn properties_from(pairs: Seq<(&str, &str)>, map: Seq<(AmqpSymbol, AmqpValue)>) -> bool {
    &&& map.len() == pairs.len()
    &&& forall|i: int|
        0 <= i < pairs.len() ==> {
            &&& (#[trigger] map[i]).0.0@ == pairs[i].0@
            &&& map[i].1 matches AmqpValue::String(s) && s@ == pairs[i].1@
        }
}

/// The properties that (name, value) text pairs describe, in order: each name as
/// a symbol, each value as a string.
pub fn properties_from_pairs(pairs: Vec<(&str, &str)>) -> (r: AmqpOrderedMap<AmqpSymbol, AmqpValue>)
    ensures
        properties_from(pairs@, r@),
{
    let mut map: AmqpOrderedMap<AmqpSymbol, AmqpValue> = AmqpOrderedMap::new();
    let mut i: usize = 0;
    while i < pairs.len()
        invariant
            i <= pairs.len(),
            properties_from(pairs@.subrange(0, i as int), map@),
        decreases pairs.len() - i,
    {
        let (name, value) = pairs[i];
        map.insert(AmqpSymbol::from_text(name), AmqpValue::from_text(value));
        i += 1;
        proof {
            let done = pairs@.subrange(0, i as int);
            assert forall|j: int| 0 <= j < done.len() implies {
                &&& (#[trigger] map@[j]).0.0@ == done[j].0@
                &&& map@[j].1 matches AmqpValue::String(s) && s@ == done[j].1@
            } by {
                if j < i - 1 {
                    assert(done[j] == pairs@.subrange(0, i - 1)[j]);
                }
            }
        }
    }
    proof {
        assert(pairs@.subrange(0, pairs.len() as int) =~= pairs@);
    }
    map
}

/// Whether a sender settles its deliveries.
#[derive(Debug, Clone, Copy, PartialEq, Eq, Structural)]
pub enum SenderSettleMode {
    Unsettled,
    Settled,
    Mixed,
}

impl SenderSettleMode {
    /// The mode's code in the AMQP encoding.
    pub fn code(&self) -> (r: u8)
        ensures
            r == (match *self {
                SenderSettleMode::Unsettled => 0u8,
                SenderSettleMode::Settled => 1u8,
                SenderSettleMode::Mixed => 2u8,
            }),
    {
        match self {
            SenderSettleMode::Unsettled => 0,
            SenderSettleMode::Settled => 1,
            SenderSettleMode::Mixed => 2,
        }
    }
}

/// When a receiver settles its deliveries.
#[derive(Debug, Clone, Copy, PartialEq, Eq, Structural)]
pub enum ReceiverSettleMode {
    First,
    Second,
}

impl ReceiverSettleMode {
    /// The mode's code in the AMQP encoding.
    pub fn code(&self) -> (r: u8)
        ensures
            r == (match *self {
                ReceiverSettleMode::First => 0u8,
                ReceiverSettleMode::Second => 1u8,
            }),
    {
        match self {
            ReceiverSettleMode::First => 0,
            ReceiverSettleMode::Second => 1,
        }
    }
}

} // verus!
