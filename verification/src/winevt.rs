//! Windows event-log listeners: the set of listeners that a controller starts,
//! the decisions of a listener's task, and the reading of rendered records.

use std::sync::atomic::AtomicBool;
use std::ops::Deref;
use std::sync::{Arc, Mutex, MutexGuard};
use vstd::prelude::*;

use crate::common::{EventBookmark, ListenerConfiguration, ULoggerError};

verus! {

/// `std::sync::Mutex`, which guards each running listener's configuration.
#[verifier::external_type_specification]
#[verifier::external_body]
#[verifier::reject_recursive_types(T)]
pub struct ExMutex<T: ?Sized>(Mutex<T>);

/// `std::sync::MutexGuard`, through which a locked configuration is read.
#[verifier::external_type_specification]
#[verifier::external_body]
#[verifier::reject_recursive_types(T)]
pub struct ExMutexGuard<'a, T: ?Sized + 'a>(MutexGuard<'a, T>);

/// `Deref::deref` of a `MutexGuard`: the value that the lock guards. Nothing
/// is claimed of it: other threads may have changed it before the lock was taken.
pub assume_specification<'a, 'b, T: ?Sized>[ <MutexGuard<'a, T> as Deref>::deref ](guard: &'b MutexGuard<'a, T>) -> &'b T;

/// Calls `Mutex::lock` on a listener's configuration: its guard, or `None`
/// where the lock is poisoned. Nothing is claimed of the result: whether the
/// lock is poisoned and what it guards depend on what other threads did.
#[verifier::external_body]
fn lock_config(config: &Mutex<ListenerConfiguration>) -> Option<MutexGuard<'_, ListenerConfiguration>> {
    config.lock().ok()
}

/// The listeners after one is offered with the outcome of its lock: it is
/// kept where the lock was taken and it is an event-log listener.
pub open spec fn spec_add_if_event<A>(listeners: Seq<A>, config: A, lock_outcome: Option<bool>) -> Seq<A> {
    if lock_outcome == Some(true) {
        listeners.push(config)
    } else {
        listeners
    }
}

/// The listeners after `configs` are offered one by one, starting from
/// `listeners`, with the outcomes of their locks.
pub open spec fn after_offers<A>(listeners: Seq<A>, configs: Seq<A>, outcomes: Seq<Option<bool>>) -> Seq<A>
    decreases configs.len(),
{
    if configs.len() == 0 {
        listeners
    } else {
        spec_add_if_event(
            after_offers(listeners, configs.drop_last(), outcomes.take(configs.len() - 1)),
            configs.last(),
            outcomes[configs.len() - 1],
        )
    }
}

/// Each offered configuration with the outcome of its lock.
pub open spec fn offers<A>(configs: Seq<A>, outcomes: Seq<Option<bool>>) -> Seq<(A, Option<bool>)> {
    Seq::new(configs.len(), |i: int| (configs[i], outcomes[i]))
}

/// The configurations that are kept: those whose lock was taken and that
/// are of event-log listeners, in the order they were offered, repeats kept.
pub open spec fn kept_configs<A>(configs: Seq<A>, outcomes: Seq<Option<bool>>) -> Seq<A> {
    offers(configs, outcomes).filter(|o: (A, Option<bool>)| o.1 == Some(true)).map_values(
        |o: (A, Option<bool>)| o.0,
    )
}

/// A listener built by offering configurations one by one holds exactly the
/// kept ones (see [`kept_configs`]), in order, and no more than were offered.
pub proof fn lemma_offers_keep_event_listeners<A>(configs: Seq<A>, outcomes: Seq<Option<bool>>)
    requires
        outcomes.len() == configs.len(),
    ensures
        after_offers(Seq::empty(), configs, outcomes) == kept_configs(configs, outcomes),
        kept_configs(configs, outcomes).len() <= configs.len(),
    decreases configs.len(),
{
    let pred = |o: (A, Option<bool>)| o.1 == Some(true);
    offers(configs, outcomes).lemma_filter_len(pred);
    if configs.len() > 0 {
        let n: int = configs.len() - 1;
        let cs = configs.drop_last();
        let os = outcomes.take(n);
        lemma_offers_keep_event_listeners(cs, os);
        assert(offers(configs, outcomes) =~= offers(cs, os).push((configs.last(), outcomes[n])));
        offers(cs, os).lemma_filter_push((configs.last(), outcomes[n]), pred);
        assert(kept_configs(configs, outcomes) =~= spec_add_if_event(
            kept_configs(cs, os),
            configs.last(),
            outcomes[n],
        ));
    } else {
        assert(offers(configs, outcomes).filter(pred) =~= Seq::empty()) by {
            reveal(Seq::filter);
        }
        assert(kept_configs(configs, outcomes) =~= Seq::<A>::empty());
    }
}

/// The event-log listeners that are started together.
pub struct WinEvtListener {
    config: Vec<Arc<Mutex<ListenerConfiguration>>>,
}

impl View for WinEvtListener {
    type V = Seq<Arc<Mutex<ListenerConfiguration>>>;

    closed spec fn view(&self) -> Seq<Arc<Mutex<ListenerConfiguration>>> {
        self.config@
    }
}

impl WinEvtListener {
    /// No listeners yet.
    pub fn init() -> (res: Self)
        ensures
            res@ == Seq::<Arc<Mutex<ListenerConfiguration>>>::empty(),
    {
        Self { config: Vec::new() }
    }

    /// Adds `config` where the lock on it was taken (`lock_outcome` is `Some`)
    /// and it is the configuration of an event-log listener (`Some(true)`).
    pub fn add_if_event(&mut self, config: Arc<Mutex<ListenerConfiguration>>, lock_outcome: Option<bool>)
        ensures
            final(self)@ == spec_add_if_event(old(self)@, config, lock_outcome),
            lock_outcome == Some(true) ==> final(self)@ == old(self)@.push(config),
            lock_outcome != Some(true) ==> final(self)@ == old(self)@,
    {
        match lock_outcome {
            Some(true) => {
                self.config.push(config);
            },
            _ => {},
        }
    }

    /// Adds `config` if it is the configuration of an event-log listener.
    /// A configuration whose lock is poisoned is left out.
    pub fn add_configuration(&mut self, config: Arc<Mutex<ListenerConfiguration>>)
        ensures
            final(self)@ == old(self)@ || final(self)@ == old(self)@.push(config),
    {
        let outcome: Option<bool> = match lock_config(&*config) {
            Some(guard) => Some(guard.deref().is_event()),
            None => None,
        };
        self.add_if_event(config, outcome);
    }

    /// The configurations of the listeners, in the order they were added.
    pub fn configurations(&self) -> (res: &Vec<Arc<Mutex<ListenerConfiguration>>>)
        ensures
            res@ == self@,
    {
        &self.config
    }
}

/// What a listener's task needs of its configuration.
pub struct Subscription {
    pub bookmark: Option<EventBookmark>,
    pub query: String,
    pub channel: String,
    pub stop: Arc<AtomicBool>,
}

impl ListenerConfiguration {
    /// The subscription of an event-log listener; a file listener has none.
    pub fn subscription(&self) -> (res: Result<Subscription, ULoggerError>)
        ensures
            match self {
                ListenerConfiguration::Event(c) => res matches Ok(s) && s.bookmark == c.bookmark
                    && s.query == c.query && s.channel == c.channel && s.stop == c.stop,
                ListenerConfiguration::File(_) => res matches Err(ULoggerError::InvalidConfigFile(m))
                    && m@ == "Invalid configuration. Must be EventListener"@,
            },
    {
        match self {
            ListenerConfiguration::Event(evt_config) => Ok(
                Subscription {
                    bookmark: evt_config.bookmark.clone(),
                    query: evt_config.query.clone(),
                    channel: evt_config.channel.clone(),
                    stop: evt_config.get_stop_listener(),
                },
            ),
            ListenerConfiguration::File(_) => Err(
                ULoggerError::InvalidConfigFile(
                    String::from_str("Invalid configuration. Must be EventListener"),
                ),
            ),
        }
    }

    /// The configuration once an event-log listener's bookmark is `xml`.
    pub open spec fn spec_store_bookmark(self, xml: String) -> ListenerConfiguration {
        match self {
            ListenerConfiguration::Event(c) => ListenerConfiguration::Event(
                crate::common::EvtListenerConfiguration { bookmark: Some(EventBookmark { xml }), ..c },
            ),
            ListenerConfiguration::File(_) => self,
        }
    }

    /// Saves where an event-log listener stopped reading; a file listener is
    /// left as it is.
    pub fn store_bookmark(&mut self, xml: String)
        ensures
            *final(self) == old(self).spec_store_bookmark(xml),
            *old(self) is Event ==> (*final(self) matches ListenerConfiguration::Event(e) && e.bookmark == Some(
                EventBookmark { xml },
            ) && e.query == (*old(self))->Event_0.query && e.channel == (*old(self))->Event_0.channel && e.stop
                == (*old(self))->Event_0.stop),
            *old(self) is File ==> *final(self) == *old(self),
    {
        match self {
            ListenerConfiguration::Event(evt_config) => {
                evt_config.bookmark = Some(EventBookmark { xml });
            },
            ListenerConfiguration::File(_) => {},
        }
    }
}

/// The bookmark that is stored is the one that the next subscription
/// resumes from, and storing changes nothing else of the listener.
pub proof fn lemma_stored_bookmark_is_resumed(c: ListenerConfiguration, xml: String)
    requires
        c is Event,
    ensures
        c.spec_store_bookmark(xml) matches ListenerConfiguration::Event(e) && e.bookmark == Some(
            EventBookmark { xml },
        ) && e.query == c->Event_0.query && e.channel == c->Event_0.channel && e.stop == c->Event_0.stop,
{
}

/// Status of a subscription to a channel path that does not exist.
pub const ERROR_EVT_INVALID_CHANNEL_PATH: u32 = 15000;
/// Status of a subscription with a query that does not parse.
pub const ERROR_EVT_INVALID_QUERY: u32 = 15001;
/// Status of a subscription to a channel that is not found.
pub const ERROR_EVT_CHANNEL_NOT_FOUND: u32 = 15007;

/// The statuses of a subscription that a listener knows what to do with.
pub open spec fn known_subscribe_status(error: u32) -> bool {
    error == 0 || error == ERROR_EVT_INVALID_CHANNEL_PATH || error == ERROR_EVT_INVALID_QUERY
        || error == ERROR_EVT_CHANNEL_NOT_FOUND
}

/// Whether a subscription status is one that [`subscribe_status`] judges.
pub fn is_known_subscribe_status(error: u32) -> (res: bool)
    ensures
        res == known_subscribe_status(error),
        res <==> (error == 0 || error == 15000 || error == 15001 || error == 15007),
{
    error == 0 || error == ERROR_EVT_INVALID_CHANNEL_PATH || error == ERROR_EVT_INVALID_QUERY
        || error == ERROR_EVT_CHANNEL_NOT_FOUND
}

/// Judges the status that subscribing to `channel` left: 0 is success, the
/// three channel and query errors become errors of the listener. Any other
/// status is fatal to the collector and is the caller's to handle.
pub fn subscribe_status(error: u32, channel: &str) -> (res: Result<(), ULoggerError>)
    requires
        known_subscribe_status(error),
    ensures
        error == 0 ==> res is Ok,
        error != 0 ==> res is Err,
        error == 15000 ==> (res matches Err(ULoggerError::EventChannelNotFound(m)) && m@ == "Invalid channel: "@
            + channel@),
        error == 15007 ==> (res matches Err(ULoggerError::EventChannelNotFound(m)) && m@ == "Channel not found: "@
            + channel@),
        error == 15001 ==> (res matches Err(ULoggerError::EventQueryInvalid(m)) && m@ == "Invalid query: "@
            + channel@),
        error == ERROR_EVT_INVALID_CHANNEL_PATH ==> (res matches Err(
            ULoggerError::EventChannelNotFound(m),
        ) && m@ == "Invalid channel: "@ + channel@),
        error == ERROR_EVT_CHANNEL_NOT_FOUND ==> (res matches Err(
            ULoggerError::EventChannelNotFound(m),
        ) && m@ == "Channel not found: "@ + channel@),
        error == ERROR_EVT_INVALID_QUERY ==> (res matches Err(ULoggerError::EventQueryInvalid(m))
            && m@ == "Invalid query: "@ + channel@),
{
    if error == ERROR_EVT_INVALID_CHANNEL_PATH {
        Err(ULoggerError::EventChannelNotFound(String::from_str("Invalid channel: ").concat(channel)))
    } else if error == ERROR_EVT_CHANNEL_NOT_FOUND {
        Err(ULoggerError::EventChannelNotFound(String::from_str("Channel not found: ").concat(channel)))
    } else if error == ERROR_EVT_INVALID_QUERY {
        Err(ULoggerError::EventQueryInvalid(String::from_str("Invalid query: ").concat(channel)))
    } else {
        Ok(())
    }
}

/// Checks the handle of a new bookmark: 0 means it could not be created.
pub fn checked_bookmark(handle: isize) -> (res: Result<isize, ULoggerError>)
    ensures
        handle != 0 ==> res == Ok::<isize, ULoggerError>(handle),
        handle == 0 ==> (res matches Err(ULoggerError::InvalidConfigFile(m)) && m@
            == "Cannot create bookmark"@),
{
    if handle == 0 {
        Err(ULoggerError::InvalidConfigFile(String::from_str("Cannot create bookmark")))
    } else {
        Ok(handle)
    }
}


/// The state of a listener's task between two polls of its subscription.
#[derive(Debug, Clone, Copy, PartialEq, Eq, Structural)]
pub struct ListenerTask {
    /// How many polls in a row returned no event.
    pub times_without_events: i32,
}

/// What happened to a listener's task.
#[derive(Debug, Clone, Copy, PartialEq, Eq, Structural)]
pub enum ListenerEvent {
    /// A poll of the subscription returned this many events.
    Polled(usize),
    /// The collector's channel took an event.
    Sent,
    /// The collector's channel is full; the event was handed back.
    ChannelFull,
    /// The collector's channel is closed.
    ChannelClosed,
}

/// What a listener's task does next.
#[derive(Debug, Clone, Copy, PartialEq, Eq, Structural)]
pub enum ListenerAction {
    /// Send the polled events to the collector, one by one.
    Deliver,
    /// Yield to the other tasks, then poll again.
    Yield,
    /// Yield, sleep 100 ms, then poll again.
    YieldThenSleep,
    /// Go on with the next polled event.
    NextEvent,
    /// Sleep 100 ms, then send the same event again.
    RetryAfterSleep,
    /// Set the stop flag, then go on with the next polled event.
    RaiseStop,
}

/// How many empty polls in a row a task makes before it sleeps between polls.
pub const EMPTY_POLLS_BEFORE_SLEEP: i32 = 10;

impl ListenerTask {
    /// A task that has not polled yet.
    pub fn new() -> (res: Self)
        ensures
            res.times_without_events == 0,
    {
        ListenerTask { times_without_events: 0 }
    }

    /// The next state and action of a task after `event`.
    pub open spec fn spec_step(self, event: ListenerEvent) -> (ListenerTask, ListenerAction) {
        match event {
            ListenerEvent::Polled(n) => if n == 0 {
                let t = ListenerTask { times_without_events: (self.times_without_events + 1) as i32 };
                (t, if t.times_without_events > EMPTY_POLLS_BEFORE_SLEEP {
                    ListenerAction::YieldThenSleep
                } else {
                    ListenerAction::Yield
                })
            } else {
                (ListenerTask { times_without_events: 0 }, ListenerAction::Deliver)
            },
            ListenerEvent::Sent => (self, ListenerAction::NextEvent),
            ListenerEvent::ChannelFull => (self, ListenerAction::RetryAfterSleep),
            ListenerEvent::ChannelClosed => (self, ListenerAction::RaiseStop),
        }
    }

    /// Decides what the task does after `event`: empty polls are counted and,
    /// past ten in a row, slowed down; a full channel is retried; a closed
    /// channel stops the listener.
    pub fn step(&mut self, event: ListenerEvent) -> (res: ListenerAction)
        requires
            event == ListenerEvent::Polled(0) ==> old(self).times_without_events < i32::MAX,
        ensures
            (*final(self), res) == old(self).spec_step(event),
            event == ListenerEvent::Polled(0) ==> final(self).times_without_events == old(self).times_without_events
                + 1 && (res == ListenerAction::YieldThenSleep <==> old(self).times_without_events + 1 > 10) && (res
                == ListenerAction::YieldThenSleep || res == ListenerAction::Yield),
            event matches ListenerEvent::Polled(n) && n > 0 ==> final(self).times_without_events == 0 && res
                == ListenerAction::Deliver,
            event == ListenerEvent::Sent ==> *final(self) == *old(self) && res == ListenerAction::NextEvent,
            event == ListenerEvent::ChannelFull ==> *final(self) == *old(self) && res
                == ListenerAction::RetryAfterSleep,
            event == ListenerEvent::ChannelClosed ==> *final(self) == *old(self) && res == ListenerAction::RaiseStop,
    {
        match event {
            ListenerEvent::Polled(n) => {
                if n == 0 {
                    self.times_without_events = self.times_without_events + 1;
                    if self.times_without_events > EMPTY_POLLS_BEFORE_SLEEP {
                        ListenerAction::YieldThenSleep
                    } else {
                        ListenerAction::Yield
                    }
                } else {
                    self.times_without_events = 0;
                    ListenerAction::Deliver
                }
            },
            ListenerEvent::Sent => ListenerAction::NextEvent,
            ListenerEvent::ChannelFull => ListenerAction::RetryAfterSleep,
            ListenerEvent::ChannelClosed => ListenerAction::RaiseStop,
        }
    }
}

/// The task after `k` polls in a row that returned no event.
pub open spec fn after_empty_polls(t: ListenerTask, k: nat) -> ListenerTask
    decreases k,
{
    if k == 0 {
        t
    } else {
        after_empty_polls(t, (k - 1) as nat).spec_step(ListenerEvent::Polled(0)).0
    }
}

/// From a fresh task, the polls that come back empty are counted one by one,
/// and a task sleeps between polls once more than ten in a row came back empty.
pub proof fn lemma_empty_polls_slow_down(k: nat)
    requires
        k < i32::MAX,
    ensures
        after_empty_polls(ListenerTask { times_without_events: 0 }, k).times_without_events == k,
        after_empty_polls(ListenerTask { times_without_events: 0 }, k).spec_step(ListenerEvent::Polled(0)).1
            == (if k >= EMPTY_POLLS_BEFORE_SLEEP {
            ListenerAction::YieldThenSleep
        } else {
            ListenerAction::Yield
        }),
    decreases k,
{
    if k > 0 {
        lemma_empty_polls_slow_down((k - 1) as nat);
    }
}

/// Whether an event is the outcome of handing a polled event to the collector.
pub open spec fn is_send_outcome(e: ListenerEvent) -> bool {
    e == ListenerEvent::Sent || e == ListenerEvent::ChannelFull || e == ListenerEvent::ChannelClosed
}

/// The events of one poll, handed to the collector one by one.
pub struct Delivery {
    events: Vec<String>,
    next: usize,
}

impl Delivery {
    /// The events to hand over, in the order they were polled.
    pub closed spec fn events(&self) -> Seq<String> {
        self.events@
    }

    /// How many of the events are done with: taken by the collector, or
    /// dropped because its channel was closed.
    pub closed spec fn position(&self) -> nat {
        self.next as nat
    }

    /// The events of a poll, none handed over yet.
    pub fn new(events: Vec<String>) -> (res: Self)
        ensures
            res.events() == events@,
            res.position() == 0,
    {
        Delivery { events, next: 0 }
    }

    /// The event to hand over next, `None` once all are done with.
    pub fn current(&self) -> (res: Option<String>)
        ensures
            self.position() < self.events().len() ==> res == Some(self.events()[self.position() as int]),
            self.position() >= self.events().len() ==> res is None,
    {
        if self.next < self.events.len() {
            Some(self.events[self.next].clone())
        } else {
            None
        }
    }

    /// Records how the collector's channel took the current event and decides
    /// what the task does next: a taken event, or one dropped on a closed
    /// channel, is done with; on a full channel the same event is offered again.
    pub fn on_send(&mut self, task: &mut ListenerTask, outcome: ListenerEvent) -> (res: ListenerAction)
        requires
            is_send_outcome(outcome),
            old(self).position() < old(self).events().len(),
        ensures
            (*final(task), res) == old(task).spec_step(outcome),
            final(self).events() == old(self).events(),
            final(self).position() == old(self).position() + (if outcome == ListenerEvent::ChannelFull {
                0int
            } else {
                1int
            }),
    {
        let action = task.step(outcome);
        let count: usize = self.events.len();
        match outcome {
            ListenerEvent::ChannelFull => {},
            _ => {
                assert(self.next < count);
                self.next = self.next + 1;
            },
        }
        action
    }
}

/// How many events are done with after a run of send outcomes.
pub open spec fn position_after(outcomes: Seq<ListenerEvent>) -> nat
    decreases outcomes.len(),
{
    if outcomes.len() == 0 {
        0
    } else {
        position_after(outcomes.drop_last()) + (if outcomes.last() == ListenerEvent::ChannelFull {
            0nat
        } else {
            1nat
        })
    }
}

/// No outcome moves the delivery backwards.
proof fn lemma_position_monotone(outcomes: Seq<ListenerEvent>, a: int, b: int)
    requires
        0 <= a <= b <= outcomes.len(),
    ensures
        position_after(outcomes.take(a)) <= position_after(outcomes.take(b)),
    decreases b - a,
{
    if a < b {
        lemma_position_monotone(outcomes, a, b - 1);
        assert(outcomes.take(b).drop_last() == outcomes.take(b - 1));
    }
}

/// Events are handed over in the order they were polled, each taken at most
/// once: the event offered at a later step than one that was taken comes
/// after it, and only a full channel makes an event be offered again.
pub proof fn lemma_events_taken_once_in_order(outcomes: Seq<ListenerEvent>, j1: int, j2: int)
    requires
        0 <= j1 < j2 <= outcomes.len(),
    ensures
        outcomes[j1] != ListenerEvent::ChannelFull ==> position_after(outcomes.take(j1)) < position_after(
            outcomes.take(j2),
        ),
        outcomes[j1] == ListenerEvent::ChannelFull ==> position_after(outcomes.take(j1 + 1)) == position_after(
            outcomes.take(j1),
        ),
{
    assert(outcomes.take(j1 + 1).drop_last() == outcomes.take(j1));
    lemma_position_monotone(outcomes, j1 + 1, j2);
}

/// The tag that opens the record number of a rendered event.
pub open spec fn record_id_tag() -> Seq<char> {
    seq!['E', 'v', 'e', 'n', 't', 'R', 'e', 'c', 'o', 'r', 'd', 'I', 'D']
}

/// Whether the tag starts at `i` in `s`.
pub open spec fn tag_at(s: Seq<char>, i: int) -> bool {
    0 <= i && i + 13 <= s.len() && s.subrange(i, i + 13) == record_id_tag()
}

/// The first place at or after `k` where the tag starts, or -1.
pub open spec fn find_tag_from(s: Seq<char>, k: int) -> int
    decreases s.len() - k,
{
    if k < 0 || k + 13 > s.len() {
        -1
    } else if tag_at(s, k) {
        k
    } else {
        find_tag_from(s, k + 1)
    }
}

/// The first place at or after `k` where `s` holds `'<'`, or -1.
pub open spec fn find_lt_from(s: Seq<char>, k: int) -> int
    decreases s.len() - k,
{
    if k < 0 || k >= s.len() {
        -1
    } else if s[k] == '<' {
        k
    } else {
        find_lt_from(s, k + 1)
    }
}

/// The inputs on which the record number can be cut out: where the tag
/// occurs, it is followed by a one-byte character and, after that, by a `<`.
pub open spec fn record_id_extractable(s: Seq<char>) -> bool {
    let p: int = find_tag_from(s, 0);
    p >= 0 ==> {
        &&& p + 13 < s.len()
        &&& (s[p + 13] as u32) < 0x80
        &&& find_lt_from(s, p + 14) >= 0
    }
}

/// The record number of a rendered event: the text between the first
/// `EventRecordID` and one character later, and the next `<`; "0" where the
/// tag does not occur.
pub open spec fn spec_record_id(s: Seq<char>) -> Seq<char> {
    let p: int = find_tag_from(s, 0);
    if p < 0 {
        seq!['0']
    } else {
        s.subrange(p + 14, find_lt_from(s, p + 14))
    }
}

/// `find_tag_from` finds the first place at or after `k` where the tag starts.
proof fn lemma_find_tag_from(s: Seq<char>, k: int)
    requires
        0 <= k,
    ensures
        find_tag_from(s, k) == -1 || (k <= find_tag_from(s, k) && tag_at(s, find_tag_from(s, k))),
        forall|j: int| k <= j && (find_tag_from(s, k) == -1 || j < find_tag_from(s, k)) ==> !tag_at(s, j),
    decreases s.len() - k,
{
    if k + 13 <= s.len() && !tag_at(s, k) {
        lemma_find_tag_from(s, k + 1);
    }
}

/// `find_lt_from` finds the first `'<'` at or after `k`.
proof fn lemma_find_lt_from(s: Seq<char>, k: int)
    requires
        0 <= k,
    ensures
        find_lt_from(s, k) == -1 || (k <= find_lt_from(s, k) < s.len() && s[find_lt_from(s, k)] == '<'),
        forall|j: int| k <= j < s.len() && (find_lt_from(s, k) == -1 || j < find_lt_from(s, k)) ==> s[j] != '<',
    decreases s.len() - k,
{
    if k < s.len() && s[k] != '<' {
        lemma_find_lt_from(s, k + 1);
    }
}

/// The record number is all of the text from one character after the first
/// `EventRecordID` up to the next `<`, whatever its length: the text that
/// follows it there is a `<`, and it holds no `<` itself. Where the tag does
/// not occur, the record number is "0".
pub proof fn lemma_record_id_is_text_up_to_next_lt(s: Seq<char>, p: int)
    requires
        record_id_extractable(s),
    ensures
        (forall|j: int| !tag_at(s, j)) ==> spec_record_id(s) == seq!['0'],
        tag_at(s, p) && (forall|j: int| 0 <= j < p ==> !tag_at(s, j)) ==> {
            let r = spec_record_id(s);
            &&& p + 14 + r.len() < s.len()
            &&& r == s.subrange(p + 14, p + 14 + r.len())
            &&& s[p + 14 + r.len()] == '<'
            &&& forall|i: int| 0 <= i < r.len() ==> r[i] != '<'
        },
{
    lemma_find_tag_from(s, 0);
    let q: int = find_tag_from(s, 0);
    if q >= 0 {
        lemma_find_lt_from(s, q + 14);
        if tag_at(s, p) && (forall|j: int| 0 <= j < p ==> !tag_at(s, j)) {
            assert(!(q < p) || !tag_at(s, q));
            assert(q == p);
            let e: int = find_lt_from(s, p + 14);
            let r = spec_record_id(s);
            assert(r.len() == e - (p + 14));
            assert forall|i: int| 0 <= i < r.len() implies r[i] != '<' by {
                assert(r[i] == s[p + 14 + i]);
            }
        }
    } else {
        assert(!tag_at(s, p) || p < 0);
    }
}

/// The characters of a string.
fn chars_of(s: &str) -> (res: Vec<char>)
    ensures
        res@ == s@,
{
    let mut out: Vec<char> = Vec::new();
    for c in it: s.chars()
        invariant
            it.seq() == s@,
            out@ == s@.take(it.index()),
    {
        proof {
            assert(s@.take(it.index() + 1) == s@.take(it.index()).push(c));
        }
        out.push(c);
    }
    proof {
        assert(s@.take(s@.len() as int) == s@);
    }
    out
}

/// Whether the tag starts at `i` in `chars`.
fn tag_matches_at(chars: &Vec<char>, i: usize) -> (res: bool)
    requires
        i + 13 <= chars@.len(),
    ensures
        res == tag_at(chars@, i as int),
{
    let tag: [char; 13] = ['E', 'v', 'e', 'n', 't', 'R', 'e', 'c', 'o', 'r', 'd', 'I', 'D'];
    assert(tag@ == record_id_tag());
    let len: usize = chars.len();
    let mut k: usize = 0;
    while k < 13
        invariant
            k <= 13,
            len == chars@.len(),
            i + 13 <= len,
            tag@ == record_id_tag(),
            forall|j: int| 0 <= j < k ==> chars@[i + j] == tag@[j],
        decreases 13 - k,
    {
        if chars[i + k] != tag[k] {
            assert(chars@.subrange(i as int, i + 13)[k as int] != record_id_tag()[k as int]);
            return false;
        }
        k = k + 1;
    }
    assert(chars@.subrange(i as int, i + 13) =~= record_id_tag());
    true
}

/// Where the tag first starts in `chars`, if anywhere.
fn find_tag(chars: &Vec<char>) -> (res: Option<usize>)
    ensures
        match res {
            Some(i) => i as int == find_tag_from(chars@, 0) && i >= 0,
            None => find_tag_from(chars@, 0) < 0,
        },
{
    let n: usize = chars.len();
    if n < 13 {
        return None;
    }
    let mut i: usize = 0;
    while i <= n - 13
        invariant
            n == chars@.len(),
            n >= 13,
            find_tag_from(chars@, 0) == find_tag_from(chars@, i as int),
        decreases n - i,
    {
        if tag_matches_at(chars, i) {
            return Some(i);
        }
        i = i + 1;
    }
    None
}

/// Cuts the record number out of a rendered event (see [`spec_record_id`]).
pub fn extract_record_id(msg: &str) -> (res: &str)
    requires
        record_id_extractable(msg@),
    ensures
        res@ == spec_record_id(msg@),
        (forall|j: int| !tag_at(msg@, j)) ==> res@ == seq!['0'],
        forall|p: int|
            #![trigger tag_at(msg@, p)]
            tag_at(msg@, p) && (forall|j: int| 0 <= j < p ==> !tag_at(msg@, j)) ==> {
                &&& p + 14 + res@.len() < msg@.len()
                &&& res@ == msg@.subrange(p + 14, p + 14 + res@.len())
                &&& msg@[p + 14 + res@.len()] == '<'
                &&& forall|i: int| 0 <= i < res@.len() ==> res@[i] != '<'
            },
{
    proof {
        assert forall|p: int| tag_at(msg@, p) && (forall|j: int| 0 <= j < p ==> !tag_at(msg@, j)) implies {
            let r = spec_record_id(msg@);
            &&& p + 14 + r.len() < msg@.len()
            &&& r == msg@.subrange(p + 14, p + 14 + r.len())
            &&& msg@[p + 14 + r.len()] == '<'
            &&& forall|i: int| 0 <= i < r.len() ==> r[i] != '<'
        } by {
            lemma_record_id_is_text_up_to_next_lt(msg@, p);
        }
        lemma_record_id_is_text_up_to_next_lt(msg@, 0);
    }
    let chars = chars_of(msg);
    let n: usize = chars.len();
    let i: usize = match find_tag(&chars) {
        Some(i) => i,
        None => {
            proof {
                reveal_strlit("0");
                assert("0"@ =~= seq!['0']);
            }
            return "0";
        },
    };
    let start: usize = i + 14;
    let mut j: usize = start;
    while j < n && chars[j] != '<'
        invariant
            start <= j <= n,
            n == chars@.len(),
            chars@ == msg@,
            find_lt_from(msg@, start as int) == find_lt_from(msg@, j as int),
        decreases n - j,
    {
        j = j + 1;
    }
    msg.substring_char(start, j)
}

} // verus!
