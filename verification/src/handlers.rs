//! The visit handler: what to ask of the pool and of the store, in which order,
//! and what to answer.
//!
//! The handler does no outside work itself. It is a transition function: the
//! caller performs the action that a step hands out (asks the pool for a
//! connection, runs the increment on it, sends the reply) and comes back with
//! the event that tells how that went.

use crate::decimal::{
    lemma_signed_numeral_injective,
    signed_numeral,
    write_i64,
};
use crate::span::{Key, Span, Value, ValueView};
use vstd::prelude::*;

verus! {

/// A complete response: a status code and a plain-text body.
#[derive(Clone, Debug, PartialEq, Eq)]
pub struct Reply {
    pub status: u16,
    pub body: String,
}

/// The model of a `Reply`.
pub struct ReplyView {
    pub status: u16,
    pub body: Seq<char>,
}

impl View for Reply {
    type V = ReplyView;

    open spec fn view(&self) -> ReplyView {
        ReplyView { status: self.status, body: self.body@ }
    }
}

/// One atomic increment of a counter in the store.
#[derive(Clone, Debug, PartialEq, Eq)]
pub struct BackendCall {
    pub key: String,
    pub amount: i64,
}

/// The model of a `BackendCall`.
pub struct BackendCallView {
    pub key: Seq<char>,
    pub amount: i64,
}

impl View for BackendCall {
    type V = BackendCallView;

    open spec fn view(&self) -> BackendCallView {
        BackendCallView { key: self.key@, amount: self.amount }
    }
}

/// How far the handling of one request has come.
#[derive(Clone, Copy, Debug, PartialEq, Eq, Structural)]
pub enum Visit {
    /// The request is in; nothing was asked for yet.
    Received,
    /// The pool was asked for a connection.
    Acquiring,
    /// A connection is held and the increment runs on it.
    Counting,
    /// The reply was handed out.
    Replied,
}

/// What came of the action that the last step handed out.
#[derive(Clone, Copy, Debug, PartialEq, Eq, Structural)]
pub enum VisitEvent {
    /// Handling starts.
    Start,
    /// The pool lent a connection.
    Acquired,
    /// The pool lent none in time.
    Exhausted,
    /// The store incremented the counter and returned its new value.
    Counted(i32),
    /// The increment failed.
    Failed,
}

/// What the caller is to do next.
#[derive(Clone, Debug, PartialEq, Eq)]
pub enum VisitAction {
    /// Ask the pool for a connection.
    Acquire,
    /// Run this call on the connection that was lent.
    Increment(BackendCall),
    /// Give the connection back if `release` says so, then send the reply.
    Respond { release: bool, reply: Reply },
}

/// The model of a `VisitAction`.
pub enum VisitActionView {
    Acquire,
    Increment(BackendCallView),
    Respond { release: bool, reply: ReplyView },
}

impl View for VisitAction {
    type V = VisitActionView;

    open spec fn view(&self) -> VisitActionView {
        match self {
            VisitAction::Acquire => VisitActionView::Acquire,
            VisitAction::Increment(call) => VisitActionView::Increment(call@),
            VisitAction::Respond { release, reply } => VisitActionView::Respond {
                release: *release,
                reply: reply@,
            },
        }
    }
}

/// An event that is no answer to what the handler was waiting for.
#[derive(Clone, Copy, Debug, PartialEq, Eq, Structural)]
pub struct OutOfOrder {
    pub state: Visit,
    pub event: VisitEvent,
}

/// The key of the visit counter.
pub open spec fn counter_key() -> Seq<char> {
    "visit_counter"@
}

/// The increment that one visit asks of the store.
pub open spec fn visit_call() -> BackendCallView {
    BackendCallView { key: counter_key(), amount: 1 }
}

/// The body that reports visitor number `count`.
pub open spec fn greeting_text(count: int) -> Seq<char> {
    "Hello, World! You are visitor number "@ + signed_numeral(count)
}

/// The reply to a visit that was counted as number `count`.
pub open spec fn counted_reply(count: i32) -> ReplyView {
    ReplyView { status: 200, body: greeting_text(count as int) }
}

/// The reply to a visit for which the pool had no connection.
pub open spec fn exhausted_reply() -> ReplyView {
    ReplyView { status: 503, body: "Failed to get database connection"@ }
}

/// The reply to a visit whose increment failed.
pub open spec fn failed_reply() -> ReplyView {
    ReplyView { status: 500, body: "Failed to increment visit counter"@ }
}

/// Whether a connection of the pool is held in `state`.
pub open spec fn holds_connection(state: Visit) -> bool {
    state == Visit::Counting
}

/// The transition of the handler: the next state and the action to perform, or
/// `None` where `event` is no answer to what `state` waits for.
pub open spec fn visit_step(state: Visit, event: VisitEvent) -> Option<(Visit, VisitActionView)> {
    match (state, event) {
        (Visit::Received, VisitEvent::Start) => Some((Visit::Acquiring, VisitActionView::Acquire)),
        (Visit::Acquiring, VisitEvent::Acquired) => Some(
            (Visit::Counting, VisitActionView::Increment(visit_call())),
        ),
        (Visit::Acquiring, VisitEvent::Exhausted) => Some(
            (Visit::Replied, VisitActionView::Respond { release: false, reply: exhausted_reply() }),
        ),
        (Visit::Counting, VisitEvent::Counted(count)) => Some(
            (Visit::Replied, VisitActionView::Respond { release: true, reply: counted_reply(count) }),
        ),
        (Visit::Counting, VisitEvent::Failed) => Some(
            (Visit::Replied, VisitActionView::Respond { release: true, reply: failed_reply() }),
        ),
        _ => None,
    }
}

/// The body that reports visitor number `count`.
pub fn greeting(count: i32) -> (body: String)
    ensures
        body@ == greeting_text(count as int),
{
    let mut body = String::from_str("Hello, World! You are visitor number ");
    write_i64(count as i64, &mut body);
    body
}

/// Takes the handling of one request a step further.
///
/// The reply is always a whole one: the greeting with the count that the store
/// returned, or one of two fixed messages. A connection is asked for before
/// anything is asked of the store, and a connection that was lent is released
/// with the reply, however the increment went.
pub fn hello_world(state: Visit, event: VisitEvent) -> (outcome: Result<
    (Visit, VisitAction),
    OutOfOrder,
>)
    ensures
        match visit_step(state, event) {
            Some((next, action)) => outcome matches Ok(step) && step.0 == next && step.1@ == action,
            None => outcome == Err::<(Visit, VisitAction), OutOfOrder>(OutOfOrder { state, event }),
        },
{
    match (state, event) {
        (Visit::Received, VisitEvent::Start) => Ok((Visit::Acquiring, VisitAction::Acquire)),
        (Visit::Acquiring, VisitEvent::Acquired) => {
            let call = BackendCall { key: String::from_str("visit_counter"), amount: 1 };
            Ok((Visit::Counting, VisitAction::Increment(call)))
        },
        (Visit::Acquiring, VisitEvent::Exhausted) => {
            let reply = Reply {
                status: 503,
                body: String::from_str("Failed to get database connection"),
            };
            Ok((Visit::Replied, VisitAction::Respond { release: false, reply }))
        },
        (Visit::Counting, VisitEvent::Counted(count)) => {
            let reply = Reply { status: 200, body: greeting(count) };
            Ok((Visit::Replied, VisitAction::Respond { release: true, reply }))
        },
        (Visit::Counting, VisitEvent::Failed) => {
            let reply = Reply {
                status: 500,
                body: String::from_str("Failed to increment visit counter"),
            };
            Ok((Visit::Replied, VisitAction::Respond { release: true, reply }))
        },
        _ => Err(OutOfOrder { state, event }),
    }
}

/// The statement that a call sends: the operation, the key and the amount.
pub open spec fn statement_text(call: BackendCallView) -> Seq<char> {
    "INCRBY "@ + call.key + seq![' '] + signed_numeral(call.amount as int)
}

/// What the span of a call records under `key`; `None` where the key is left
/// unset.
pub open spec fn call_attribute(call: BackendCallView, key: Key) -> Option<ValueView> {
    match key {
        Key::DbSystem => Some(ValueView::Text("redis"@)),
        Key::DbOperationName => Some(ValueView::Text("INCRBY"@)),
        Key::DbCollectionName => Some(ValueView::Text(call.key)),
        Key::DbStatement => Some(ValueView::Text(statement_text(call))),
        _ => None,
    }
}

/// The attributes of the span of a call.
pub open spec fn call_attributes(call: BackendCallView) -> Map<Key, ValueView> {
    Map::new(|key: Key| call_attribute(call, key) is Some, |key: Key| call_attribute(call, key)->0)
}

/// Opens the span that encloses one call to the store: named after operation
/// and key, and tagged with the store's system, the operation, the key and the
/// statement.
pub fn increment_span(call: &BackendCall) -> (span: Span)
    ensures
        span@.name == "INCRBY "@ + call@.key,
        span@.attributes == call_attributes(call@),
{
    let mut name = String::from_str("INCRBY ");
    name.append(call.key.as_str());
    let mut statement = name.clone();
    proof {
        reveal_strlit(" ");
    }
    statement.append(" ");
    write_i64(call.amount, &mut statement);
    assert(statement@ =~= statement_text(call@));
    let mut span = Span::new(name.as_str());
    span.record(Key::DbSystem, Value::Text(String::from_str("redis")));
    span.record(Key::DbOperationName, Value::Text(String::from_str("INCRBY")));
    span.record(Key::DbCollectionName, Value::Text(call.key.clone()));
    span.record(Key::DbStatement, Value::Text(statement));
    assert(span@.attributes =~= call_attributes(call@));
    span
}

/// A connection is held exactly while the increment runs: the step that starts
/// the increment is the one that takes a connection, every step that leaves the
/// counting state releases it, and no other step releases anything.
pub proof fn lemma_scoped_connection(state: Visit, event: VisitEvent)
    ensures
        match visit_step(state, event) {
            Some((next, action)) => {
                &&& holds_connection(next) <==> action is Increment
                &&& action is Increment ==> state == Visit::Acquiring && !holds_connection(state)
                &&& action matches VisitActionView::Respond { release, .. } ==> release
                    == holds_connection(state) && next == Visit::Replied
            },
            None => true,
        },
{
}

/// Two bodies that report different counts differ.
pub proof fn lemma_greeting_injective(a: int, b: int)
    requires
        greeting_text(a) == greeting_text(b),
    ensures
        a == b,
{
    let prefix = "Hello, World! You are visitor number "@;
    assert(signed_numeral(a) =~= greeting_text(a).skip(prefix.len() as int));
    assert(signed_numeral(b) =~= greeting_text(b).skip(prefix.len() as int));
    lemma_signed_numeral_injective(a, b);
}

/// The visitor number that a body reports, if it is a greeting.
pub open spec fn visitor_number(body: Seq<char>) -> Option<int> {
    if exists|count: int| body == greeting_text(count) {
        Some(choose|count: int| body == greeting_text(count))
    } else {
        None
    }
}

/// The replies to visits that the store counted as `counts`, in any order and
/// however the visits overlapped.
pub open spec fn counted_replies(counts: Seq<i32>) -> Seq<ReplyView> {
    Seq::new(counts.len(), |i: int| counted_reply(counts[i]))
}

/// Every reply to a counted visit reports the very count that the store
/// returned for it: where the store returned no count twice, no reply repeats
/// the number of another.
pub proof fn lemma_replies_report_counts(counts: Seq<i32>)
    ensures
        forall|i: int|
            0 <= i < counts.len() ==> (#[trigger] counted_replies(counts)[i]).status == 200
                && visitor_number(counted_replies(counts)[i].body) == Some(counts[i] as int),
        (forall|i: int, j: int| 0 <= i < j < counts.len() ==> counts[i] != counts[j]) ==> (forall|
            i: int,
            j: int,
        |
            0 <= i < j < counts.len() ==> (#[trigger] counted_replies(counts)[i]).body != (
            #[trigger] counted_replies(counts)[j]).body),
{
    assert forall|i: int| 0 <= i < counts.len() implies visitor_number(
        (#[trigger] counted_replies(counts)[i]).body,
    ) == Some(counts[i] as int) by {
        lemma_visitor_number(counts[i] as int);
    }
}

/// The replies to `n` visits that are served one after another, each of them
/// counted, on a counter that starts at 0 and that nothing else changes: the
/// store returns 1 to the first, 2 to the second, and so on.
pub open spec fn serial_replies(n: nat) -> Seq<ReplyView> {
    Seq::new(n, |i: int| counted_reply((i + 1) as i32))
}

/// Visits served one after another report visitor numbers that never decrease,
/// and the last of `n` visits on a fresh counter reports `n`.
pub proof fn lemma_serial_visits(n: nat)
    requires
        n <= i32::MAX,
    ensures
        forall|i: int|
            0 <= i < n ==> (#[trigger] serial_replies(n)[i]).status == 200 && visitor_number(
                serial_replies(n)[i].body,
            ) == Some(i + 1),
        forall|i: int, j: int|
            0 <= i <= j < n ==> visitor_number((#[trigger] serial_replies(n)[i]).body)->0
                <= visitor_number((#[trigger] serial_replies(n)[j]).body)->0,
        n > 0 ==> visitor_number(serial_replies(n).last().body) == Some(n as int),
{
    assert forall|i: int| 0 <= i < n implies visitor_number((#[trigger] serial_replies(n)[i]).body)
        == Some(i + 1) by {
        lemma_visitor_number(i + 1);
    }
}

/// A greeting reports the count that it was written for.
pub proof fn lemma_visitor_number(count: int)
    ensures
        visitor_number(greeting_text(count)) == Some(count),
{
    let body = greeting_text(count);
    assert(body == greeting_text(count));
    let chosen = choose|c: int| body == greeting_text(c);
    lemma_greeting_injective(chosen, count);
}

} // verus!
