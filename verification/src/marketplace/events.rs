use vstd::prelude::*;

use crate::address::Address;

verus! {

/// An event of the contract.
#[derive(Clone, Copy, Debug, PartialEq, Eq, Structural)]
pub enum Event {
    Deposit { order_id: u64, buyer: Address, farmer: Address, amount: i128 },
    Release { order_id: u64, amount: i128 },
    Refund { order_id: u64, amount: i128 },
    Snapshot { snapshot_id: u64 },
}

/// One of the topics under which an event is published.
#[derive(Clone, Copy, Debug, PartialEq, Eq)]
pub enum Topic {
    Symbol(&'static str),
    Id(u64),
}

/// A topic, with its symbol as a sequence of characters.
pub enum TopicView {
    Symbol(Seq<char>),
    Id(u64),
}

/// What an event carries besides its topics.
#[derive(Clone, Copy, Debug, PartialEq, Eq, Structural)]
pub enum EventData {
    /// The buyer, the farmer and the amount of a deposit.
    Deposit(Address, Address, i128),
    /// The amount of a settlement.
    Amount(i128),
    /// The number of a snapshot.
    SnapshotId(u64),
}

impl View for Topic {
    type V = TopicView;

    open spec fn view(&self) -> TopicView {
        match *self {
            Topic::Symbol(symbol) => TopicView::Symbol(symbol@),
            Topic::Id(id) => TopicView::Id(id),
        }
    }
}

impl Event {
    /// The topics of the event: the contract's symbol, the symbol of the action
    /// and, where the event is about an order, its number.
    pub open spec fn spec_topics(self) -> Seq<TopicView> {
        let escrow = TopicView::Symbol("escrow"@);
        match self {
            Event::Deposit { order_id, .. } => seq![
                escrow,
                TopicView::Symbol("deposit"@),
                TopicView::Id(order_id),
            ],
            Event::Release { order_id, .. } => seq![
                escrow,
                TopicView::Symbol("release"@),
                TopicView::Id(order_id),
            ],
            Event::Refund { order_id, .. } => seq![
                escrow,
                TopicView::Symbol("refund"@),
                TopicView::Id(order_id),
            ],
            Event::Snapshot { .. } => seq![escrow, TopicView::Symbol("snapshot"@)],
        }
    }

    /// The data of the event.
    pub open spec fn spec_data(self) -> EventData {
        match self {
            Event::Deposit { buyer, farmer, amount, .. } => EventData::Deposit(
                buyer,
                farmer,
                amount,
            ),
            Event::Release { amount, .. } => EventData::Amount(amount),
            Event::Refund { amount, .. } => EventData::Amount(amount),
            Event::Snapshot { snapshot_id } => EventData::SnapshotId(snapshot_id),
        }
    }

    /// The topics of the event.
    pub fn topics(&self) -> (topics: Vec<Topic>)
        ensures
            topics@.map_values(|topic: Topic| topic@) == self.spec_topics(),
    {
        let escrow = Topic::Symbol("escrow");
        let topics: Vec<Topic> = match *self {
            Event::Deposit { order_id, .. } => vec![
                escrow,
                Topic::Symbol("deposit"),
                Topic::Id(order_id),
            ],
            Event::Release { order_id, .. } => vec![
                escrow,
                Topic::Symbol("release"),
                Topic::Id(order_id),
            ],
            Event::Refund { order_id, .. } => vec![
                escrow,
                Topic::Symbol("refund"),
                Topic::Id(order_id),
            ],
            Event::Snapshot { .. } => vec![escrow, Topic::Symbol("snapshot")],
        };
        assert(topics@.map_values(|topic: Topic| topic@) =~= self.spec_topics());
        topics
    }

    /// The data of the event.
    pub fn data(&self) -> (data: EventData)
        ensures
            data == self.spec_data(),
    {
        match *self {
            Event::Deposit { buyer, farmer, amount, .. } => EventData::Deposit(
                buyer,
                farmer,
                amount,
            ),
            Event::Release { amount, .. } => EventData::Amount(amount),
            Event::Refund { amount, .. } => EventData::Amount(amount),
            Event::Snapshot { snapshot_id } => EventData::SnapshotId(snapshot_id),
        }
    }
}

} // verus!
