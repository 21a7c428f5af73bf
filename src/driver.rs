//! The event loop's decisions: one step per item from the event source.
use vstd::prelude::*;

use crate::bridge::{delivery_view, handle_event, handled, Delivery};
use crate::filter::{AdvertisementEvent, DeviceMetadata};
use crate::record::SensorData;

verus! {

/// Why a run ended.
#[derive(Clone, Copy, Debug, PartialEq, Eq, Structural)]
pub enum TerminalReason {
    /// The event source ended cleanly.
    SourceEnded,
    /// The event source could not be started.
    StartFailed,
    /// The event source ended with an error.
    SourceFailed,
}

impl TerminalReason {
    pub open spec fn code(self) -> i32 {
        match self {
            TerminalReason::SourceEnded => 0,
            TerminalReason::StartFailed => 1,
            TerminalReason::SourceFailed => 2,
        }
    }

    /// The status code returned to the caller: zero for a clean end, a
    /// distinct non-zero code for each failure.
    pub fn status_code(&self) -> (r: i32)
        ensures
            r == self.code(),
            r == 0 <==> *self == TerminalReason::SourceEnded,
    {
        match self {
            TerminalReason::SourceEnded => 0,
            TerminalReason::StartFailed => 1,
            TerminalReason::SourceFailed => 2,
        }
    }
}

/// The state of the event loop.
#[derive(Clone, Copy, Debug, PartialEq, Eq, Structural)]
pub enum DriverState {
    Running,
    Terminated(TerminalReason),
}

/// One item pulled from the event source.
#[derive(Clone, Debug, PartialEq, Eq)]
pub enum SourceItem {
    /// An event, with the metadata of its device (`None` where the lookup
    /// failed or was not made).
    Event { event: AdvertisementEvent, metadata: Option<DeviceMetadata> },
    /// The source's stream ended.
    Ended,
    /// The source's stream ended with an error.
    Failed,
}

/// What the loop does after one item.
#[derive(Clone, Debug, PartialEq, Eq)]
pub enum Action {
    /// Invoke the callback once with this address and record.
    Deliver(Delivery),
    /// Nothing to do; wait for the next item.
    Skip,
    /// The run is over.
    Stop(TerminalReason),
}

/// The delivery an action asks for, if any.
pub open spec fn action_delivery(a: Action) -> Option<(Seq<char>, SensorData)> {
    match a {
        Action::Deliver(d) => Some(d@),
        _ => None,
    }
}

/// The state after `item`: only the end of the stream ends a run, and an
/// ended run stays ended.
pub open spec fn next_state(state: DriverState, item: SourceItem) -> DriverState {
    match state {
        DriverState::Terminated(reason) => DriverState::Terminated(reason),
        DriverState::Running => match item {
            SourceItem::Event { .. } => DriverState::Running,
            SourceItem::Ended => DriverState::Terminated(TerminalReason::SourceEnded),
            SourceItem::Failed => DriverState::Terminated(TerminalReason::SourceFailed),
        },
    }
}

/// What `item` delivers to the callback in `state`.
pub open spec fn delivery_of(state: DriverState, item: SourceItem) -> Option<(Seq<char>, SensorData)> {
    match (state, item) {
        (DriverState::Running, SourceItem::Event { event, metadata }) => handled(event, metadata),
        _ => None,
    }
}

/// The state and the callback invocations, in order, after a run over `items`.
pub open spec fn run(items: Seq<SourceItem>) -> (DriverState, Seq<(Seq<char>, SensorData)>)
    decreases items.len(),
{
    if items.len() == 0 {
        (DriverState::Running, Seq::empty())
    } else {
        let before = run(items.drop_last());
        let out = match delivery_of(before.0, items.last()) {
            Some(d) => before.1.push(d),
            None => before.1,
        };
        (next_state(before.0, items.last()), out)
    }
}

/// The event loop over one event source.
pub struct Driver {
    pub state: DriverState,
}

impl Driver {
    /// A driver in the running state.
    pub fn new() -> (r: Driver)
        ensures
            r.state == DriverState::Running,
    {
        Driver { state: DriverState::Running }
    }

    /// Whether the run is still going.
    pub fn is_running(&self) -> (r: bool)
        ensures
            r == (self.state is Running),
    {
        match self.state {
            DriverState::Running => true,
            DriverState::Terminated(_) => false,
        }
    }

    /// Takes one item from the event source and says what to do with it.
    pub fn step(&mut self, item: SourceItem) -> (r: Action)
        ensures
            final(self).state == next_state(old(self).state, item),
            action_delivery(r) == delivery_of(old(self).state, item),
            r is Stop <==> (old(self).state is Running && !(item is Event)),
            match r {
                Action::Stop(reason) => final(self).state == DriverState::Terminated(reason),
                _ => true,
            },
    {
        match self.state {
            DriverState::Terminated(_) => Action::Skip,
            DriverState::Running => match item {
                SourceItem::Event { event, metadata } => match handle_event(&event, metadata) {
                    Some(d) => Action::Deliver(d),
                    None => Action::Skip,
                },
                SourceItem::Ended => {
                    self.state = DriverState::Terminated(TerminalReason::SourceEnded);
                    Action::Stop(TerminalReason::SourceEnded)
                },
                SourceItem::Failed => {
                    self.state = DriverState::Terminated(TerminalReason::SourceFailed);
                    Action::Stop(TerminalReason::SourceFailed)
                },
            },
        }
    }
}

/// Whether `item` is an event that reaches the callback.
pub open spec fn delivers(item: SourceItem) -> bool {
    match item {
        SourceItem::Event { event, metadata } => handled(event, metadata) is Some,
        _ => false,
    }
}

/// The callback invocation of an item that reaches the callback.
pub open spec fn delivery_of_item(item: SourceItem) -> (Seq<char>, SensorData) {
    match item {
        SourceItem::Event { event, metadata } => handled(event, metadata).unwrap(),
        _ => arbitrary(),
    }
}

/// The invocations owed for `items`: one for each item that reaches the
/// callback, in source order.
pub open spec fn owed_in_order(items: Seq<SourceItem>) -> Seq<(Seq<char>, SensorData)> {
    delivering(items).map_values(|x: SourceItem| delivery_of_item(x))
}

/// The items of `items` that reach the callback, in source order.
pub open spec fn delivering(items: Seq<SourceItem>) -> Seq<SourceItem> {
    items.filter(|x: SourceItem| delivers(x))
}

/// Over a stream of events, the loop keeps running and invokes the callback
/// exactly once for each event that reaches it, in the order of the source,
/// and never for the others.
pub proof fn lemma_deliveries_in_source_order(items: Seq<SourceItem>)
    requires
        forall|i: int| 0 <= i < items.len() ==> items[i] is Event,
    ensures
        run(items).0 == DriverState::Running,
        run(items).1 == owed_in_order(items),
        run(items).1.len() == delivering(items).len(),
    decreases items.len(),
{
    if items.len() > 0 {
        let prev = items.drop_last();
        assert(forall|i: int| 0 <= i < prev.len() ==> prev[i] == items[i]);
        lemma_deliveries_in_source_order(prev);
        let fp = delivering(prev);
        reveal(Seq::filter);
        if delivers(items.last()) {
            assert(delivering(items) == fp.push(items.last()));
            assert(owed_in_order(items) =~= owed_in_order(prev).push(delivery_of_item(items.last())));
        } else {
            assert(delivering(items) == fp);
        }
    }
}

/// `n` copies of the same event.
pub open spec fn repeated(item: SourceItem, n: nat) -> Seq<SourceItem> {
    Seq::new(n, |i: int| item)
}

/// An event that reaches no callback (unrecognised or malformed payload,
/// irrelevant event, failed metadata lookup) can be fed any number of times:
/// it changes neither the state of the loop nor the invocations made.
pub proof fn lemma_discard_is_idempotent(
    prefix: Seq<SourceItem>,
    event: AdvertisementEvent,
    metadata: Option<DeviceMetadata>,
    n: nat,
)
    requires
        handled(event, metadata) is None,
    ensures
        run(prefix + repeated(SourceItem::Event { event, metadata }, n)) == run(prefix),
    decreases n,
{
    let item = SourceItem::Event { event, metadata };
    if n > 0 {
        lemma_discard_is_idempotent(prefix, event, metadata, (n - 1) as nat);
        let all = prefix + repeated(item, n);
        assert(all.drop_last() =~= prefix + repeated(item, (n - 1) as nat));
        assert(all.last() == item);
    } else {
        assert(prefix + repeated(item, 0) =~= prefix);
    }
}

} // verus!
