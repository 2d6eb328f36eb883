//! The life cycle of a listener: scan the window before the chain head in
//! chunks, hand over to the live stream, and after a failure wait and begin
//! again. The listener decides; the caller performs each action against the
//! chain and reports what came of it.

use crate::blocks::{
    backfill_start, chunk_at, chunk_end, chunk_from, chunk_plan, window_start, BlockRange,
    BACKFILL_WINDOW,
};
use crate::events::{Domain, EventKind};
use crate::router::{backfill_kind, backfill_kind_count, backfill_kinds};
use vstd::prelude::*;

verus! {

/// The seconds that a listener waits after a failure, and that the live
/// subscriber pauses after its stream broke.
pub const RETRY_DELAY_SECONDS: u64 = 5;

/// The three phases of a listener's life.
#[derive(Clone, Copy, Debug, PartialEq, Eq, Structural)]
pub enum Phase {
    Backfilling,
    Streaming,
    Failed,
}

/// Where a listener stands.
#[derive(Clone, Copy, Debug, PartialEq, Eq, Structural)]
pub enum ListenerState {
    /// The chain head has been asked for.
    AwaitingHead,
    /// The query for the kind at position `kind` of the query order, over
    /// the chunk `range`, is under way. `head` is the head as it was when
    /// the scan began.
    Scanning { head: u64, range: BlockRange, kind: usize },
    /// The live stream has been asked for.
    Subscribing { head: u64 },
    /// The next event of the live stream is awaited.
    Streaming { head: u64 },
    /// The stream broke; the subscriber pauses before it reports that.
    Pausing,
    /// The listener waits before it begins again.
    Failed,
}

/// What can fail a pass. Every class is answered alike: the pass is given
/// up, and the listener begins again after the fixed delay.
#[derive(Clone, Copy, Debug, PartialEq, Eq, Structural)]
pub enum Failure {
    /// The chain did not answer a query, or the stream could not be opened.
    Source,
    /// The store did not answer an existence check or refused an insert.
    Store,
    /// A read of a registry's canonical state failed.
    Augmentation,
    /// A handler gave an event up.
    Event,
}

/// What the caller reports.
#[derive(Clone, Copy, Debug, PartialEq, Eq, Structural)]
pub enum ListenerInput {
    /// The number of the chain's latest block.
    Head(u64),
    /// The ranged query returned, and each of its events was routed to the
    /// end, in the order returned.
    RangeRouted,
    /// The live stream is open.
    Subscribed,
    /// An event arrived on the live stream and was routed to the end.
    EventRouted,
    /// The live stream reported a transport error, or ended.
    StreamBroken,
    /// The pass cannot go on.
    Failed(Failure),
    /// The time asked for has passed.
    DelayElapsed,
}

/// What the caller is to do next.
#[derive(Clone, Copy, Debug, PartialEq, Eq, Structural)]
pub enum ListenerAction {
    /// Ask the chain for the number of its latest block.
    FetchHead,
    /// Query the events of `kind` in the inclusive `range`, and route each.
    QueryRange { kind: EventKind, range: BlockRange },
    /// Open the live stream at `from_block`.
    Subscribe { from_block: u64 },
    /// Await the next event of the live stream, and route it.
    NextEvent,
    /// Wait.
    Sleep { seconds: u64 },
}

impl ListenerState {
    /// The phase that the state belongs to.
    pub open spec fn spec_phase(&self) -> Phase {
        match *self {
            ListenerState::AwaitingHead => Phase::Backfilling,
            ListenerState::Scanning { .. } => Phase::Backfilling,
            ListenerState::Subscribing { .. } => Phase::Streaming,
            ListenerState::Streaming { .. } => Phase::Streaming,
            ListenerState::Pausing => Phase::Streaming,
            ListenerState::Failed => Phase::Failed,
        }
    }

    /// The phase that the state belongs to.
    #[verifier::when_used_as_spec(spec_phase)]
    pub fn phase(&self) -> (phase: Phase)
        ensures
            phase == self.spec_phase(),
    {
        match self {
            ListenerState::AwaitingHead => Phase::Backfilling,
            ListenerState::Scanning { .. } => Phase::Backfilling,
            ListenerState::Subscribing { .. } => Phase::Streaming,
            ListenerState::Streaming { .. } => Phase::Streaming,
            ListenerState::Pausing => Phase::Streaming,
            ListenerState::Failed => Phase::Failed,
        }
    }

    /// A scanning state is sound for a registry when its range is a chunk
    /// of the window before its head and its kind is one of the registry's
    /// query order. Every other state is sound.
    pub open spec fn sound(&self, domain: Domain) -> bool {
        match *self {
            ListenerState::Scanning { head, range, kind } => {
                &&& window_start(head, BACKFILL_WINDOW) <= range.from_block
                &&& chunk_from(range.from_block, head) == Some(range)
                &&& kind < backfill_kinds(domain).len()
            },
            _ => true,
        }
    }

    /// Whether the state is sound for the registry.
    pub fn is_sound(&self, domain: Domain) -> (sound: bool)
        ensures
            sound == self.sound(domain),
    {
        match self {
            ListenerState::Scanning { head, range, kind } => {
                backfill_start(*head, BACKFILL_WINDOW) <= range.from_block && *kind
                    < backfill_kind_count(domain) && match chunk_at(range.from_block, *head) {
                    Some(chunk) => chunk.to_block == range.to_block,
                    None => false,
                }
            },
            _ => true,
        }
    }
}

/// The state and the action with which a listener begins, and begins again.
pub open spec fn initial() -> (ListenerState, ListenerAction) {
    (ListenerState::AwaitingHead, ListenerAction::FetchHead)
}

/// The state and the action after a failure.
pub open spec fn failed() -> (ListenerState, ListenerAction) {
    (ListenerState::Failed, ListenerAction::Sleep { seconds: RETRY_DELAY_SECONDS })
}

/// The query for the kind at position `kind`, over the chunk `range`.
pub open spec fn scan(domain: Domain, head: u64, range: BlockRange, kind: usize) -> (
    ListenerState,
    ListenerAction,
) {
    (
        ListenerState::Scanning { head, range, kind },
        ListenerAction::QueryRange { kind: backfill_kinds(domain)[kind as int], range },
    )
}

/// The scan of the chunk at `from_block`, or the hand-over to the live
/// stream at `head` where the scan has reached it.
pub open spec fn scan_or_subscribe(domain: Domain, head: u64, from_block: u64) -> (
    ListenerState,
    ListenerAction,
) {
    match chunk_from(from_block, head) {
        Some(range) => scan(domain, head, range, 0),
        None => (
            ListenerState::Subscribing { head },
            ListenerAction::Subscribe { from_block: head },
        ),
    }
}

/// The transition of a listener.
///
/// With the head known, the scan starts at the first chunk of the window
/// before it. A routed range is followed by the next kind over the same
/// chunk, after the last kind by the first kind over the next chunk, and
/// after the last chunk by the subscription at the head. The stream is read
/// event by event. A broken stream makes the subscriber pause and then fail.
/// A report of failure, and any report that the state does not await, fails
/// the listener. A failed listener waits and begins again.
pub open spec fn step(domain: Domain, state: ListenerState, input: ListenerInput) -> (
    ListenerState,
    ListenerAction,
) {
    match (state, input) {
        (ListenerState::AwaitingHead, ListenerInput::Head(head)) => scan_or_subscribe(
            domain,
            head,
            window_start(head, BACKFILL_WINDOW),
        ),
        (ListenerState::Scanning { head, range, kind }, ListenerInput::RangeRouted) => {
            if !state.sound(domain) {
                failed()
            } else if kind + 1 < backfill_kinds(domain).len() {
                scan(domain, head, range, (kind + 1) as usize)
            } else {
                scan_or_subscribe(domain, head, (range.to_block + 1) as u64)
            }
        },
        (ListenerState::Subscribing { head }, ListenerInput::Subscribed) => (
            ListenerState::Streaming { head },
            ListenerAction::NextEvent,
        ),
        (ListenerState::Streaming { head }, ListenerInput::EventRouted) => (
            ListenerState::Streaming { head },
            ListenerAction::NextEvent,
        ),
        (ListenerState::Streaming { .. }, ListenerInput::StreamBroken) => (
            ListenerState::Pausing,
            ListenerAction::Sleep { seconds: RETRY_DELAY_SECONDS },
        ),
        (ListenerState::Failed, ListenerInput::DelayElapsed) => initial(),
        _ => failed(),
    }
}

/// Begins a listener: the first state and the first action.
pub fn start() -> (begun: (ListenerState, ListenerAction))
    ensures
        begun == initial(),
{
    (ListenerState::AwaitingHead, ListenerAction::FetchHead)
}

fn fail() -> (next: (ListenerState, ListenerAction))
    ensures
        next == failed(),
{
    (ListenerState::Failed, ListenerAction::Sleep { seconds: RETRY_DELAY_SECONDS })
}

fn scan_from(domain: Domain, head: u64, from_block: u64) -> (next: (ListenerState, ListenerAction))
    ensures
        next == scan_or_subscribe(domain, head, from_block),
{
    match (chunk_at(from_block, head), backfill_kind(domain, 0)) {
        (Some(range), Some(kind)) => (
            ListenerState::Scanning { head, range, kind: 0 },
            ListenerAction::QueryRange { kind, range },
        ),
        _ => (ListenerState::Subscribing { head }, ListenerAction::Subscribe { from_block: head }),
    }
}

/// Advances a listener of the given registry by one report.
pub fn advance(domain: Domain, state: &ListenerState, input: &ListenerInput) -> (next: (
    ListenerState,
    ListenerAction,
))
    ensures
        next == step(domain, *state, *input),
        state.sound(domain) ==> next.0.sound(domain),
{
    match (*state, *input) {
        (ListenerState::AwaitingHead, ListenerInput::Head(head)) => {
            scan_from(domain, head, backfill_start(head, BACKFILL_WINDOW))
        },
        (ListenerState::Scanning { head, range, kind }, ListenerInput::RangeRouted) => {
            if !state.is_sound(domain) {
                fail()
            } else {
                match backfill_kind(domain, kind + 1) {
                    Some(next_kind) => (
                        ListenerState::Scanning { head, range, kind: kind + 1 },
                        ListenerAction::QueryRange { kind: next_kind, range },
                    ),
                    None => scan_from(domain, head, range.to_block + 1),
                }
            }
        },
        (ListenerState::Subscribing { head }, ListenerInput::Subscribed) => {
            (ListenerState::Streaming { head }, ListenerAction::NextEvent)
        },
        (ListenerState::Streaming { head }, ListenerInput::EventRouted) => {
            (ListenerState::Streaming { head }, ListenerAction::NextEvent)
        },
        (ListenerState::Streaming { .. }, ListenerInput::StreamBroken) => {
            (ListenerState::Pausing, ListenerAction::Sleep { seconds: RETRY_DELAY_SECONDS })
        },
        (ListenerState::Failed, ListenerInput::DelayElapsed) => start(),
        _ => fail(),
    }
}

/// Advances the listener of the authenticity registry by one report.
pub fn listen_for_events(state: &ListenerState, input: &ListenerInput) -> (next: (
    ListenerState,
    ListenerAction,
))
    ensures
        next == step(Domain::Authenticity, *state, *input),
        state.sound(Domain::Authenticity) ==> next.0.sound(Domain::Authenticity),
{
    advance(Domain::Authenticity, state, input)
}

/// Advances the listener of the ownership registry by one report.
pub fn listen_for_ownership_events(state: &ListenerState, input: &ListenerInput) -> (next: (
    ListenerState,
    ListenerAction,
))
    ensures
        next == step(Domain::Ownership, *state, *input),
        state.sound(Domain::Ownership) ==> next.0.sound(Domain::Ownership),
{
    advance(Domain::Ownership, state, input)
}

/// The queries over one chunk for the kinds from position `from_kind` of the
/// query order on, in that order.
pub open spec fn chunk_queries(domain: Domain, range: BlockRange, from_kind: int) -> Seq<
    ListenerAction,
> {
    Seq::new(
        (backfill_kinds(domain).len() - from_kind) as nat,
        |i: int| ListenerAction::QueryRange { kind: backfill_kinds(domain)[from_kind + i], range },
    )
}

/// The queries over the chunks of a plan: chunk after chunk, and within a
/// chunk kind after kind.
pub open spec fn plan_queries(domain: Domain, plan: Seq<BlockRange>) -> Seq<ListenerAction>
    decreases plan.len(),
{
    if plan.len() == 0 {
        Seq::empty()
    } else {
        chunk_queries(domain, plan[0], 0) + plan_queries(domain, plan.drop_first())
    }
}

/// The actions that a listener takes while every range is routed, from the
/// given state on.
pub open spec fn routed_actions(domain: Domain, state: ListenerState, reports: nat) -> Seq<
    ListenerAction,
>
    decreases reports,
{
    if reports == 0 {
        Seq::empty()
    } else {
        let next = step(domain, state, ListenerInput::RangeRouted);
        seq![next.1] + routed_actions(domain, next.0, (reports - 1) as nat)
    }
}

/// The state of a listener after the given number of routed ranges.
pub open spec fn routed_state(domain: Domain, state: ListenerState, reports: nat) -> ListenerState
    decreases reports,
{
    if reports == 0 {
        state
    } else {
        routed_state(
            domain,
            step(domain, state, ListenerInput::RangeRouted).0,
            (reports - 1) as nat,
        )
    }
}

/// What is left of a scan that stands at the kind at position `kind` of the
/// chunk `range`: the later kinds over that chunk, every kind over each
/// later chunk, and the subscription at the head.
pub open spec fn remaining_actions(
    domain: Domain,
    head: u64,
    range: BlockRange,
    kind: usize,
) -> Seq<ListenerAction> {
    chunk_queries(domain, range, kind + 1) + plan_queries(
        domain,
        chunk_plan((range.to_block + 1) as u64, head),
    ) + seq![ListenerAction::Subscribe { from_block: head }]
}

/// From a sound scanning state, while every range is routed, the listener
/// takes exactly the remaining actions of the scan and then awaits the
/// stream that it asked for at the head.
pub proof fn lemma_scan_runs_to_subscription(
    domain: Domain,
    head: u64,
    range: BlockRange,
    kind: usize,
)
    requires
        (ListenerState::Scanning { head, range, kind }).sound(domain),
    ensures
        routed_actions(
            domain,
            ListenerState::Scanning { head, range, kind },
            remaining_actions(domain, head, range, kind).len(),
        ) == remaining_actions(domain, head, range, kind),
        routed_state(
            domain,
            ListenerState::Scanning { head, range, kind },
            remaining_actions(domain, head, range, kind).len(),
        ) == (ListenerState::Subscribing { head }),
    decreases head - range.from_block, backfill_kinds(domain).len() - kind,
{
    let state = ListenerState::Scanning { head, range, kind };
    let kinds = backfill_kinds(domain);
    let following = (range.to_block + 1) as u64;
    let handover = seq![ListenerAction::Subscribe { from_block: head }];
    let tail = plan_queries(domain, chunk_plan(following, head)) + handover;
    let remaining = remaining_actions(domain, head, range, kind);
    let next = step(domain, state, ListenerInput::RangeRouted);
    assert(remaining =~= chunk_queries(domain, range, kind + 1) + tail);
    if kind + 1 < kinds.len() {
        let later = remaining_actions(domain, head, range, (kind + 1) as usize);
        lemma_scan_runs_to_subscription(domain, head, range, (kind + 1) as usize);
        assert(later =~= chunk_queries(domain, range, kind + 2) + tail);
        assert(remaining =~= seq![next.1] + later);
        assert(remaining.len() - 1 == later.len());
    } else if following < head {
        let first = BlockRange { from_block: following, to_block: chunk_end(following, head) };
        let later = remaining_actions(domain, head, first, 0);
        lemma_scan_runs_to_subscription(domain, head, first, 0);
        assert(chunk_plan(following, head) == seq![first] + chunk_plan(
            (first.to_block + 1) as u64,
            head,
        ));
        assert(chunk_plan(following, head).drop_first() =~= chunk_plan(
            (first.to_block + 1) as u64,
            head,
        ));
        assert(chunk_plan(following, head)[0] == first);
        assert(chunk_queries(domain, first, 0) =~= seq![next.1] + chunk_queries(domain, first, 1));
        assert(remaining =~= seq![next.1] + later);
        assert(remaining.len() - 1 == later.len());
    } else {
        assert(chunk_plan(following, head) =~= Seq::<BlockRange>::empty());
        assert(remaining =~= handover);
        assert(routed_actions(domain, next.0, 0) =~= Seq::<ListenerAction>::empty());
        assert(routed_actions(domain, state, 1) =~= seq![next.1] + routed_actions(
            domain,
            next.0,
            0,
        ));
        assert(routed_state(domain, state, 1) == routed_state(domain, next.0, 0));
    }
}

/// A listener that learns the head `head`, and whose every ranged query is
/// answered and routed, queries each kind of its registry's query order over
/// each chunk of the plan for the window before `head`, chunk after chunk,
/// and nothing else; it then asks for the live stream from `head` on, the
/// block after the last one that the scan covered.
pub proof fn lemma_backfill_then_subscribe(domain: Domain, head: u64)
    ensures
        ({
            let plan = chunk_plan(window_start(head, BACKFILL_WINDOW), head);
            let expected = plan_queries(domain, plan) + seq![
                ListenerAction::Subscribe { from_block: head },
            ];
            let begun = step(domain, ListenerState::AwaitingHead, ListenerInput::Head(head));
            &&& seq![begun.1] + routed_actions(domain, begun.0, (expected.len() - 1) as nat)
                == expected
            &&& routed_state(domain, begun.0, (expected.len() - 1) as nat)
                == (ListenerState::Subscribing { head })
        }),
{
    let start = window_start(head, BACKFILL_WINDOW);
    let plan = chunk_plan(start, head);
    let handover = seq![ListenerAction::Subscribe { from_block: head }];
    let expected = plan_queries(domain, plan) + handover;
    let begun = step(domain, ListenerState::AwaitingHead, ListenerInput::Head(head));
    if start < head {
        let first = BlockRange { from_block: start, to_block: chunk_end(start, head) };
        let later = remaining_actions(domain, head, first, 0);
        lemma_scan_runs_to_subscription(domain, head, first, 0);
        assert(plan == seq![first] + chunk_plan((first.to_block + 1) as u64, head));
        assert(plan.drop_first() =~= chunk_plan((first.to_block + 1) as u64, head));
        assert(plan[0] == first);
        assert(chunk_queries(domain, first, 0) =~= seq![begun.1] + chunk_queries(domain, first, 1));
        assert(expected =~= seq![begun.1] + later);
    } else {
        assert(plan =~= Seq::<BlockRange>::empty());
        assert(expected =~= handover);
        assert(routed_actions(domain, begun.0, 0) =~= Seq::<ListenerAction>::empty());
        assert(seq![begun.1] + Seq::<ListenerAction>::empty() =~= expected);
    }
}

/// The head that a transition scans or subscribes against: the one reported
/// with the input, or the one that the state holds.
pub open spec fn head_of(state: ListenerState, input: ListenerInput) -> u64 {
    match (state, input) {
        (ListenerState::Scanning { head, .. }, _) => head,
        (ListenerState::Subscribing { head }, _) => head,
        (ListenerState::Streaming { head }, _) => head,
        (_, ListenerInput::Head(head)) => head,
        _ => 0,
    }
}

/// Whether the input completes the historical scan: the last kind over the
/// chunk that ends just before the head has been routed, or the head shows
/// an empty chain, which leaves nothing to scan.
pub open spec fn scan_finished(domain: Domain, state: ListenerState, input: ListenerInput) -> bool {
    match (state, input) {
        (ListenerState::AwaitingHead, ListenerInput::Head(head)) => head == 0,
        (ListenerState::Scanning { head, range, kind }, ListenerInput::RangeRouted) => {
            &&& state.sound(domain)
            &&& kind + 1 == backfill_kinds(domain).len()
            &&& range.to_block == head - 1
        },
        _ => false,
    }
}

/// The life cycle: a listener leaves the scan for the stream only by
/// subscribing at the head of a finished scan; a reported failure takes any
/// state to `Failed` with the fixed delay; a broken stream makes the
/// subscriber pause for that delay before the listener fails; and only the
/// end of the delay takes a failed listener back to the scan, which begins
/// anew with the chain head.
pub proof fn lemma_life_cycle(domain: Domain, state: ListenerState, input: ListenerInput)
    ensures
        ({
            let next = step(domain, state, input);
            &&& input is Failed ==> next == failed()
            &&& state.spec_phase() == Phase::Backfilling && next.0.spec_phase() == Phase::Streaming
                ==> {
                &&& next.1 == ListenerAction::Subscribe { from_block: head_of(state, input) }
                &&& next.0 == ListenerState::Subscribing { head: head_of(state, input) }
                &&& scan_finished(domain, state, input)
            }
            &&& state.spec_phase() == Phase::Streaming ==> next.0.spec_phase() != Phase::Backfilling
            &&& state == ListenerState::Streaming { head: head_of(state, input) } && input
                == ListenerInput::StreamBroken ==> next == (
                ListenerState::Pausing,
                ListenerAction::Sleep { seconds: RETRY_DELAY_SECONDS },
            )
            &&& state == ListenerState::Pausing ==> next == failed()
            &&& state == ListenerState::Failed ==> next == if input == ListenerInput::DelayElapsed {
                initial()
            } else {
                failed()
            }
            &&& next.0 == ListenerState::Failed ==> next.1 == ListenerAction::Sleep {
                seconds: RETRY_DELAY_SECONDS,
            }
        }),
{
}

} // verus!
