//! The top of the miner: it listens to the stream of block heads and to the
//! bus on which runs report fatal errors, and starts one run per head.
//!
//! The stream is kept alive: after a notice that the server closed the
//! subscription, and after the end of the stream, it is subscribed to again.
//! Only a head that cannot be read, a subscription that cannot be made, and
//! an error on the bus stop the miner.

use vstd::prelude::*;
use vstd::string::StringSliceAdditionalSpecFns;
use vstd::utf8::encode_utf8_decode_utf8;
use crate::error::{Error, RpcFailure};
use crate::primitives::HeadReference;

verus! {

/// Which heads are listened to.
#[derive(Clone, Copy, Debug, PartialEq, Eq, Structural)]
pub enum ListenMode {
    /// Every new best block.
    NewHeads,
    /// Every finalized block.
    FinalizedHeads,
}

/// Whether two slices hold the same bytes.
fn same_bytes(a: &[u8], b: &[u8]) -> (same: bool)
    ensures
        same == (a@ == b@),
{
    if a.len() != b.len() {
        return false;
    }
    let mut i: usize = 0;
    while i < a.len()
        invariant
            a@.len() == b@.len(),
            i <= a@.len(),
            forall|k: int| 0 <= k < i ==> a@[k] == b@[k],
        decreases a@.len() - i,
    {
        if a[i] != b[i] {
            return false;
        }
        i += 1;
    }
    assert(a@ =~= b@);
    true
}

impl ListenMode {
    /// The mode that the setting `listen` stands for: `"head"` for new heads,
    /// anything else for finalized ones.
    pub fn from_setting(listen: &str) -> (mode: ListenMode)
        ensures
            mode == (if listen@ == "head"@ {
                ListenMode::NewHeads
            } else {
                ListenMode::FinalizedHeads
            }),
    {
        proof {
            encode_utf8_decode_utf8(listen@);
            encode_utf8_decode_utf8("head"@);
        }
        if same_bytes(listen.as_bytes(), "head".as_bytes()) {
            ListenMode::NewHeads
        } else {
            ListenMode::FinalizedHeads
        }
    }

    /// The method that opens the subscription.
    pub fn subscribe_method(self) -> (method: &'static str)
        ensures
            method@ == (match self {
                ListenMode::NewHeads => "chain_subscribeNewHeads"@,
                ListenMode::FinalizedHeads => "chain_subscribeFinalizedHeads"@,
            }),
    {
        match self {
            ListenMode::NewHeads => "chain_subscribeNewHeads",
            ListenMode::FinalizedHeads => "chain_subscribeFinalizedHeads",
        }
    }

    /// The method that closes the subscription.
    pub fn unsubscribe_method(self) -> (method: &'static str)
        ensures
            method@ == (match self {
                ListenMode::NewHeads => "chain_unsubscribeNewHeads"@,
                ListenMode::FinalizedHeads => "chain_unsubscribeFinalizedHeads"@,
            }),
    {
        match self {
            ListenMode::NewHeads => "chain_unsubscribeNewHeads",
            ListenMode::FinalizedHeads => "chain_unsubscribeFinalizedHeads",
        }
    }
}

/// What the monitor is handed.
#[derive(Clone, Copy, Debug, PartialEq, Eq)]
pub enum MonitorInput {
    /// Whether the subscription that was asked for was made.
    Subscribed(Result<(), RpcFailure>),
    /// The next item of the stream of heads; `None` when the stream is over.
    Item(Option<Result<HeadReference, RpcFailure>>),
    /// What came off the bus of fatal errors; `None` when no run holds a
    /// sender any more.
    Bus(Option<Error>),
}

/// What the monitor asks for.
#[derive(Clone, Copy, Debug, PartialEq, Eq)]
pub enum MonitorAction {
    /// Subscribe to the heads, with the methods of the listen mode.
    Subscribe,
    /// Wait for the next item of the stream or of the bus.
    Listen,
    /// Start a run for this head, which goes on by itself, and listen on.
    Spawn(HeadReference),
    /// Leave with this error.
    Exit(Error),
}

/// The state of the monitor.
#[derive(Clone, Copy, Debug, PartialEq, Eq, Structural)]
pub enum Monitor {
    /// A subscription was asked for.
    Subscribing,
    /// The stream and the bus are listened to.
    Listening,
    /// The monitor has left with this error.
    Stopped(Error),
}

impl Monitor {
    /// The state after `input`, and what is asked for then.
    ///
    /// A subscription that was made is listened to; one that failed stops
    /// the monitor. Of the stream: a head starts a run, a notice that the
    /// server closed the subscription and the end of the stream have it
    /// subscribed to again, and any other failure stops the monitor. Of the bus: an error stops the monitor, and a bus that no run
    /// holds any more is no error. An input that was not asked for stops the
    /// monitor, and a monitor that has stopped stays so.
    pub open spec fn transition(self, input: MonitorInput) -> (Monitor, MonitorAction) {
        match (self, input) {
            (Monitor::Stopped(error), _) => (self, MonitorAction::Exit(error)),
            (Monitor::Subscribing, MonitorInput::Subscribed(Ok(_))) => (
                Monitor::Listening,
                MonitorAction::Listen,
            ),
            (Monitor::Subscribing, MonitorInput::Subscribed(Err(failure))) => stopped(
                Error::Rpc(failure),
            ),
            (Monitor::Subscribing, _) => stopped(Error::UnexpectedAnswer),
            (Monitor::Listening, MonitorInput::Item(Some(Ok(head)))) => (
                Monitor::Listening,
                MonitorAction::Spawn(head),
            ),
            (Monitor::Listening, MonitorInput::Item(Some(Err(failure)))) => match failure {
                RpcFailure::SubscriptionClosed => (Monitor::Subscribing, MonitorAction::Subscribe),
                _ => stopped(Error::Rpc(failure)),
            },
            (Monitor::Listening, MonitorInput::Item(None)) => (
                Monitor::Subscribing,
                MonitorAction::Subscribe,
            ),
            (Monitor::Listening, MonitorInput::Bus(Some(error))) => stopped(error),
            (Monitor::Listening, MonitorInput::Bus(None)) => (
                Monitor::Listening,
                MonitorAction::Listen,
            ),
            (Monitor::Listening, MonitorInput::Subscribed(_)) => stopped(Error::UnexpectedAnswer),
        }
    }

    /// A monitor at its start: it has asked for its first subscription.
    pub fn new() -> (started: (Monitor, MonitorAction))
        ensures
            started == (Monitor::Subscribing, MonitorAction::Subscribe),
    {
        (Monitor::Subscribing, MonitorAction::Subscribe)
    }

    /// Takes `input` and says what to do next.
    pub fn step(&mut self, input: MonitorInput) -> (action: MonitorAction)
        ensures
            (*final(self), action) == old(self).transition(input),
    {
        let (next, action) = match (*self, input) {
            (Monitor::Stopped(error), _) => (Monitor::Stopped(error), MonitorAction::Exit(error)),
            (Monitor::Subscribing, MonitorInput::Subscribed(Ok(_))) => (
                Monitor::Listening,
                MonitorAction::Listen,
            ),
            (Monitor::Subscribing, MonitorInput::Subscribed(Err(failure))) => (
                Monitor::Stopped(Error::Rpc(failure)),
                MonitorAction::Exit(Error::Rpc(failure)),
            ),
            (Monitor::Subscribing, _) => (
                Monitor::Stopped(Error::UnexpectedAnswer),
                MonitorAction::Exit(Error::UnexpectedAnswer),
            ),
            (Monitor::Listening, MonitorInput::Item(Some(Ok(head)))) => (
                Monitor::Listening,
                MonitorAction::Spawn(head),
            ),
            (
                Monitor::Listening,
                MonitorInput::Item(Some(Err(RpcFailure::SubscriptionClosed))),
            ) => (Monitor::Subscribing, MonitorAction::Subscribe),
            (Monitor::Listening, MonitorInput::Item(Some(Err(failure)))) => (
                Monitor::Stopped(Error::Rpc(failure)),
                MonitorAction::Exit(Error::Rpc(failure)),
            ),
            (Monitor::Listening, MonitorInput::Item(None)) => (
                Monitor::Subscribing,
                MonitorAction::Subscribe,
            ),
            (Monitor::Listening, MonitorInput::Bus(Some(error))) => (
                Monitor::Stopped(error),
                MonitorAction::Exit(error),
            ),
            (Monitor::Listening, MonitorInput::Bus(None)) => (
                Monitor::Listening,
                MonitorAction::Listen,
            ),
            (Monitor::Listening, MonitorInput::Subscribed(_)) => (
                Monitor::Stopped(Error::UnexpectedAnswer),
                MonitorAction::Exit(Error::UnexpectedAnswer),
            ),
        };
        *self = next;
        action
    }
}

/// The monitor stopped with `error`.
pub open spec fn stopped(error: Error) -> (Monitor, MonitorAction) {
    (Monitor::Stopped(error), MonitorAction::Exit(error))
}

/// What a stream of heads can bring without harm.
pub enum StreamEvent {
    /// A head.
    Head(HeadReference),
    /// A notice that the server closed the subscription, after which a new
    /// subscription is made.
    ClosedByServer,
    /// The end of the stream, after which a new subscription is made.
    Dropped,
}

/// The heads among `events`, in their order.
pub open spec fn heads_of(events: Seq<StreamEvent>) -> Seq<HeadReference>
    decreases events.len(),
{
    if events.len() == 0 {
        Seq::empty()
    } else {
        match events.last() {
            StreamEvent::Head(head) => heads_of(events.drop_last()).push(head),
            _ => heads_of(events.drop_last()),
        }
    }
}

impl Monitor {
    /// The state after the stream brought `event`, and the head for which a
    /// run was started, if one was.
    pub open spec fn after_event(self, event: StreamEvent) -> (Monitor, Option<HeadReference>) {
        match event {
            StreamEvent::Head(head) => {
                let (next, action) = self.transition(MonitorInput::Item(Some(Ok(head))));
                (
                    next,
                    match action {
                        MonitorAction::Spawn(spawned) => Some(spawned),
                        _ => None,
                    },
                )
            },
            StreamEvent::ClosedByServer => (
                self.transition(
                    MonitorInput::Item(Some(Err(RpcFailure::SubscriptionClosed))),
                ).0.transition(MonitorInput::Subscribed(Ok(()))).0,
                None,
            ),
            StreamEvent::Dropped => (
                self.transition(MonitorInput::Item(None)).0.transition(
                    MonitorInput::Subscribed(Ok(())),
                ).0,
                None,
            ),
        }
    }

    /// The state after the stream brought `events`, and the heads for which
    /// runs were started, in their order.
    pub open spec fn after_events(self, events: Seq<StreamEvent>) -> (Monitor, Seq<HeadReference>)
        decreases events.len(),
    {
        if events.len() == 0 {
            (self, Seq::empty())
        } else {
            let (before, spawned) = self.after_events(events.drop_last());
            let (next, head) = before.after_event(events.last());
            (
                next,
                match head {
                    Some(head) => spawned.push(head),
                    None => spawned,
                },
            )
        }
    }
}

/// Whatever notices and drops lie between the heads of a stream, the monitor
/// listens on and starts a run for every head, in the order of the stream
/// and for no head twice.
pub proof fn lemma_stream_is_gapless(events: Seq<StreamEvent>)
    ensures
        Monitor::Listening.after_events(events) == (Monitor::Listening, heads_of(events)),
    decreases events.len(),
{
    if events.len() > 0 {
        lemma_stream_is_gapless(events.drop_last());
    }
}

/// A monitor that has stopped starts no run any more.
pub proof fn lemma_stopped_monitor_stays(error: Error, input: MonitorInput)
    ensures
        Monitor::Stopped(error).transition(input) == stopped(error),
{
}

} // verus!
