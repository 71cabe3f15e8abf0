//! The credential refresh gate: the decisions of a call that bears an access
//! token and refreshes it once when the platform refuses it.
//!
//! A gate neither sends nor refreshes. It says what is to be done next, and
//! is told what came of it: its caller sends the requests and performs the
//! refresh exchange.

use crate::call::{ApiCall, CallView};
use crate::error::{refresh_error, transport_error, ApiError, ErrorView};
use crate::outcome::{delivery_view, text_reply_view};
use crate::wire::{status_is_unauthorized, HttpRequest, HttpResponse, RequestView, ResponseView};
use vstd::prelude::*;

verus! {

/// Where a gate stands.
#[derive(Clone, Copy, Debug, PartialEq, Eq, Structural)]
pub enum Phase {
    /// The first request is out, and its response is awaited.
    Sending,
    /// The first response refused the token, and a new token is awaited.
    Refreshing,
    /// The second request is out, and its response is awaited.
    Retrying,
    /// The call has succeeded or failed; nothing more is to be done.
    Finished,
}

/// What a gate is told.
#[derive(Clone, Debug, PartialEq, Eq)]
pub enum GateEvent {
    /// The request that is out brought this response.
    Response(HttpResponse),
    /// The request that is out brought no response.
    TransportFailed(String),
    /// The refresh exchange brought this access token.
    Refreshed(String),
    /// The refresh exchange failed.
    RefreshFailed(ApiError),
}

/// The mathematical content of a [`GateEvent`].
pub enum EventView {
    Response(ResponseView),
    TransportFailed(Seq<char>),
    Refreshed(Seq<char>),
    RefreshFailed(ErrorView),
}

impl View for GateEvent {
    type V = EventView;

    open spec fn view(&self) -> EventView {
        match self {
            GateEvent::Response(response) => EventView::Response(response@),
            GateEvent::TransportFailed(detail) => EventView::TransportFailed(detail@),
            GateEvent::Refreshed(token) => EventView::Refreshed(token@),
            GateEvent::RefreshFailed(cause) => EventView::RefreshFailed(cause@),
        }
    }
}

/// What a gate is to be told of a request, by what came back for it.
pub open spec fn delivery_event(delivery: Result<ResponseView, Seq<char>>) -> EventView {
    match delivery {
        Ok(response) => EventView::Response(response),
        Err(detail) => EventView::TransportFailed(detail),
    }
}

impl GateEvent {
    /// What a gate is to be told of a request that brought `delivery`.
    pub fn from_delivery(delivery: Result<HttpResponse, String>) -> (event: GateEvent)
        ensures
            event@ == delivery_event(delivery_view(delivery)),
    {
        match delivery {
            Ok(response) => GateEvent::Response(response),
            Err(detail) => GateEvent::TransportFailed(detail),
        }
    }
}

/// What a gate asks of its caller.
#[derive(Debug, PartialEq, Eq)]
pub enum GateAction {
    /// Send this request, and say what it brought.
    Send(HttpRequest),
    /// Perform the refresh exchange, and say what it brought.
    Refresh,
    /// The call is over, with the last response or with a failure.
    Finish(Result<HttpResponse, ApiError>),
    /// What was told was not awaited: nothing is to be done.
    Idle,
}

/// The mathematical content of a [`GateAction`].
pub enum ActionView {
    Send(RequestView),
    Refresh,
    Finish(Result<ResponseView, ErrorView>),
    Idle,
}

impl View for GateAction {
    type V = ActionView;

    open spec fn view(&self) -> ActionView {
        match self {
            GateAction::Send(request) => ActionView::Send(request@),
            GateAction::Refresh => ActionView::Refresh,
            GateAction::Finish(Ok(response)) => ActionView::Finish(Ok(response@)),
            GateAction::Finish(Err(error)) => ActionView::Finish(Err(error@)),
            GateAction::Idle => ActionView::Idle,
        }
    }
}

/// One call that may refresh its token: the operation, the access token
/// that is held for it, and where the call stands.
#[derive(Clone, Debug, PartialEq, Eq)]
pub struct Gate {
    call: ApiCall,
    token: String,
    phase: Phase,
}

/// The mathematical content of a [`Gate`].
pub struct GateView {
    pub call: CallView,
    pub token: Seq<char>,
    pub phase: Phase,
}

impl View for Gate {
    type V = GateView;

    closed spec fn view(&self) -> GateView {
        GateView { call: self.call@, token: self.token@, phase: self.phase }
    }
}

/// What a call returns that ended with `ending`: what the operation makes of
/// the last response, or the failure that ended the call.
pub open spec fn call_outcome(call: CallView, ending: Result<ResponseView, ErrorView>) -> Result<
    Seq<char>,
    ErrorView,
> {
    match ending {
        Ok(response) => call.outcome(response),
        Err(error) => Err(error),
    }
}

/// The mathematical content of the ending of a call.
pub open spec fn ending_view(ending: Result<HttpResponse, ApiError>) -> Result<
    ResponseView,
    ErrorView,
> {
    match ending {
        Ok(response) => Ok(response@),
        Err(error) => Err(error@),
    }
}

/// A gate whose call has just begun: its first request is out.
pub open spec fn gate_started(call: CallView, token: Seq<char>) -> GateView {
    GateView { call, token, phase: Phase::Sending }
}

/// A gate whose call is over.
pub open spec fn gate_finished(gate: GateView) -> GateView {
    GateView { phase: Phase::Finished, ..gate }
}

/// The decision of a gate: what it is after an event, and what it asks for.
///
/// The first response ends the call unless its status is 401, which asks for
/// a refresh. A new token is held from then on, and the request is built
/// with it and sent again; whatever that brings ends the call. A failed
/// refresh ends the call with that failure. A request that brings no
/// response ends the call with a transport failure. An event that is not
/// awaited changes nothing.
pub open spec fn gate_step(gate: GateView, event: EventView) -> (GateView, ActionView) {
    match (gate.phase, event) {
        (Phase::Sending, EventView::Response(response)) => if status_is_unauthorized(
            response.status,
        ) {
            (GateView { phase: Phase::Refreshing, ..gate }, ActionView::Refresh)
        } else {
            (gate_finished(gate), ActionView::Finish(Ok(response)))
        },
        (Phase::Sending, EventView::TransportFailed(detail)) => (
            gate_finished(gate),
            ActionView::Finish(Err(transport_error(detail))),
        ),
        (Phase::Refreshing, EventView::Refreshed(token)) => (
            GateView { call: gate.call, token, phase: Phase::Retrying },
            ActionView::Send(gate.call.request(token)),
        ),
        (Phase::Refreshing, EventView::RefreshFailed(cause)) => (
            gate_finished(gate),
            ActionView::Finish(Err(refresh_error(cause))),
        ),
        (Phase::Retrying, EventView::Response(response)) => (
            gate_finished(gate),
            ActionView::Finish(Ok(response)),
        ),
        (Phase::Retrying, EventView::TransportFailed(detail)) => (
            gate_finished(gate),
            ActionView::Finish(Err(transport_error(detail))),
        ),
        _ => (gate, ActionView::Idle),
    }
}

/// What a gate is after a sequence of events.
pub open spec fn gate_after(gate: GateView, events: Seq<EventView>) -> GateView
    decreases events.len(),
{
    if events.len() == 0 {
        gate
    } else {
        gate_after(gate_step(gate, events[0]).0, events.drop_first())
    }
}

/// What a gate asks for in answer to each event of a sequence, in order.
pub open spec fn gate_actions(gate: GateView, events: Seq<EventView>) -> Seq<ActionView>
    decreases events.len(),
{
    if events.len() == 0 {
        Seq::empty()
    } else {
        seq![gate_step(gate, events[0]).1] + gate_actions(
            gate_step(gate, events[0]).0,
            events.drop_first(),
        )
    }
}

/// How many requests a sequence of actions asks to send.
pub open spec fn sends(actions: Seq<ActionView>) -> nat
    decreases actions.len(),
{
    if actions.len() == 0 {
        0
    } else if actions[0] is Send {
        1 + sends(actions.drop_first())
    } else {
        sends(actions.drop_first())
    }
}

/// How many refresh exchanges a sequence of actions asks for.
pub open spec fn refreshes(actions: Seq<ActionView>) -> nat
    decreases actions.len(),
{
    if actions.len() == 0 {
        0
    } else if actions[0] is Refresh {
        1 + refreshes(actions.drop_first())
    } else {
        refreshes(actions.drop_first())
    }
}

/// How many times a sequence of actions ends the call.
pub open spec fn finishes(actions: Seq<ActionView>) -> nat
    decreases actions.len(),
{
    if actions.len() == 0 {
        0
    } else if actions[0] is Finish {
        1 + finishes(actions.drop_first())
    } else {
        finishes(actions.drop_first())
    }
}

impl Gate {
    /// Begins a call: its gate, and the first request, built with
    /// `access_token` and to be sent by the caller.
    pub fn start(call: ApiCall, access_token: String) -> (r: (Gate, HttpRequest))
        ensures
            r.0@ == gate_started(call@, access_token@),
            r.1@ == call@.request(access_token@),
    {
        let request = call.request(access_token.as_str());
        (Gate { call, token: access_token, phase: Phase::Sending }, request)
    }

    /// Takes an event and decides what is to be done next.
    pub fn step(&mut self, event: GateEvent) -> (action: GateAction)
        ensures
            (final(self)@, action@) == gate_step(old(self)@, event@),
    {
        match self.phase {
            Phase::Sending => match event {
                GateEvent::Response(response) => {
                    if response.is_unauthorized() {
                        self.phase = Phase::Refreshing;
                        GateAction::Refresh
                    } else {
                        self.phase = Phase::Finished;
                        GateAction::Finish(Ok(response))
                    }
                },
                GateEvent::TransportFailed(detail) => {
                    self.phase = Phase::Finished;
                    GateAction::Finish(Err(ApiError::transport(detail)))
                },
                _ => GateAction::Idle,
            },
            Phase::Refreshing => match event {
                GateEvent::Refreshed(token) => {
                    let request = self.call.request(token.as_str());
                    self.token = token;
                    self.phase = Phase::Retrying;
                    GateAction::Send(request)
                },
                GateEvent::RefreshFailed(cause) => {
                    self.phase = Phase::Finished;
                    GateAction::Finish(Err(cause.into_refresh_failure()))
                },
                _ => GateAction::Idle,
            },
            Phase::Retrying => match event {
                GateEvent::Response(response) => {
                    self.phase = Phase::Finished;
                    GateAction::Finish(Ok(response))
                },
                GateEvent::TransportFailed(detail) => {
                    self.phase = Phase::Finished;
                    GateAction::Finish(Err(ApiError::transport(detail)))
                },
                _ => GateAction::Idle,
            },
            Phase::Finished => GateAction::Idle,
        }
    }

    /// The access token that is held: the one that the call began with, or
    /// the one that a refresh has brought since.
    pub fn token(&self) -> (r: &str)
        ensures
            r@ == self@.token,
    {
        self.token.as_str()
    }

    /// Where the call stands.
    pub fn phase(&self) -> (r: Phase)
        ensures
            r == self@.phase,
    {
        self.phase
    }

    /// The operation that the call is for.
    pub fn call(&self) -> (r: &ApiCall)
        ensures
            r@ == self@.call,
    {
        &self.call
    }

    /// What the call returns, once it has ended with `ending`: what the
    /// operation makes of the last response, or the failure that ended the
    /// call.
    pub fn conclude(&self, ending: Result<HttpResponse, ApiError>) -> (r: Result<String, ApiError>)
        ensures
            text_reply_view(r) == call_outcome(self@.call, ending_view(ending)),
    {
        match ending {
            Ok(response) => self.call.interpret(response),
            Err(error) => Err(error),
        }
    }

    /// Tells whether the call is over.
    pub fn is_finished(&self) -> (r: bool)
        ensures
            r == (self@.phase == Phase::Finished),
    {
        self.phase == Phase::Finished
    }
}

/// A finished gate asks for nothing, whatever it is told.
pub proof fn lemma_finished_stays_idle(gate: GateView, events: Seq<EventView>)
    requires
        gate.phase == Phase::Finished,
    ensures
        gate_after(gate, events) == gate,
        sends(gate_actions(gate, events)) == 0,
        refreshes(gate_actions(gate, events)) == 0,
        finishes(gate_actions(gate, events)) == 0,
        forall|i: int|
            0 <= i < events.len() ==> (#[trigger] gate_actions(gate, events)[i])
                == ActionView::Idle,
        gate_actions(gate, events).len() == events.len(),
    decreases events.len(),
{
    if events.len() > 0 {
        let actions = gate_actions(gate, events);
        let rest = gate_actions(gate, events.drop_first());
        lemma_finished_stays_idle(gate, events.drop_first());
        assert(actions.drop_first() =~= rest);
        assert forall|i: int| 0 <= i < events.len() implies (#[trigger] actions[i])
            == ActionView::Idle by {
            if i > 0 {
                assert(actions[i] == rest[i - 1]);
            }
        }
    }
}

/// A gate that awaits the response to its second request ends the call at
/// most once, and asks for no request and no refresh.
pub proof fn lemma_retrying_only_finishes(gate: GateView, events: Seq<EventView>)
    requires
        gate.phase == Phase::Retrying,
    ensures
        sends(gate_actions(gate, events)) == 0,
        refreshes(gate_actions(gate, events)) == 0,
        finishes(gate_actions(gate, events)) <= 1,
        gate_after(gate, events).token == gate.token,
    decreases events.len(),
{
    if events.len() > 0 {
        let next = gate_step(gate, events[0]).0;
        let actions = gate_actions(gate, events);
        assert(actions.drop_first() =~= gate_actions(next, events.drop_first()));
        if next.phase == Phase::Finished {
            lemma_finished_stays_idle(next, events.drop_first());
        } else {
            lemma_retrying_only_finishes(next, events.drop_first());
        }
    }
}

/// A gate that awaits a new token asks for at most one request, for no
/// refresh, and ends the call at most once.
pub proof fn lemma_refreshing_sends_at_most_once(gate: GateView, events: Seq<EventView>)
    requires
        gate.phase == Phase::Refreshing,
    ensures
        sends(gate_actions(gate, events)) <= 1,
        refreshes(gate_actions(gate, events)) == 0,
        finishes(gate_actions(gate, events)) <= 1,
    decreases events.len(),
{
    if events.len() > 0 {
        let next = gate_step(gate, events[0]).0;
        let actions = gate_actions(gate, events);
        assert(actions.drop_first() =~= gate_actions(next, events.drop_first()));
        if next.phase == Phase::Finished {
            lemma_finished_stays_idle(next, events.drop_first());
        } else if next.phase == Phase::Retrying {
            lemma_retrying_only_finishes(next, events.drop_first());
        } else {
            lemma_refreshing_sends_at_most_once(next, events.drop_first());
        }
    }
}

/// A gate whose first request is out asks for at most one more request and
/// at most one refresh, and ends the call at most once.
pub proof fn lemma_sending_is_bounded(gate: GateView, events: Seq<EventView>)
    requires
        gate.phase == Phase::Sending,
    ensures
        sends(gate_actions(gate, events)) <= 1,
        refreshes(gate_actions(gate, events)) <= 1,
        finishes(gate_actions(gate, events)) <= 1,
    decreases events.len(),
{
    if events.len() > 0 {
        let next = gate_step(gate, events[0]).0;
        let actions = gate_actions(gate, events);
        assert(actions.drop_first() =~= gate_actions(next, events.drop_first()));
        if next.phase == Phase::Finished {
            lemma_finished_stays_idle(next, events.drop_first());
        } else if next.phase == Phase::Refreshing {
            lemma_refreshing_sends_at_most_once(next, events.drop_first());
        } else {
            lemma_sending_is_bounded(next, events.drop_first());
        }
    }
}

/// Whatever a call is told, and in whatever order, its gate asks for at most
/// one refresh and for at most one request besides the first: no third
/// request is ever sent. It ends the call at most once.
pub proof fn law_at_most_one_refresh_and_one_retry(
    call: CallView,
    token: Seq<char>,
    events: Seq<EventView>,
)
    ensures
        sends(gate_actions(gate_started(call, token), events)) <= 1,
        refreshes(gate_actions(gate_started(call, token), events)) <= 1,
        finishes(gate_actions(gate_started(call, token), events)) <= 1,
{
    lemma_sending_is_bounded(gate_started(call, token), events);
}

/// A first response with status 401 brings exactly one refresh, and the new
/// token brings exactly one more request, built with that token, which is
/// the token held from then on. Whatever follows brings no further request
/// and no further refresh.
pub proof fn law_unauthorized_refreshes_once_and_retries_once(
    call: CallView,
    token: Seq<char>,
    response: ResponseView,
    new_token: Seq<char>,
    later: Seq<EventView>,
)
    requires
        status_is_unauthorized(response.status),
    ensures
        ({
            let events = seq![EventView::Response(response), EventView::Refreshed(new_token)]
                + later;
            let actions = gate_actions(gate_started(call, token), events);
            &&& actions.len() == events.len()
            &&& actions[0] == ActionView::Refresh
            &&& actions[1] == ActionView::Send(call.request(new_token))
            &&& refreshes(actions) == 1
            &&& sends(actions) == 1
            &&& gate_after(gate_started(call, token), events).token == new_token
        }),
{
    let start = gate_started(call, token);
    let events = seq![EventView::Response(response), EventView::Refreshed(new_token)] + later;
    let refreshing = gate_step(start, events[0]).0;
    let retrying = gate_step(refreshing, events[1]).0;
    let actions = gate_actions(start, events);
    let tail = gate_actions(refreshing, events.drop_first());
    let last = gate_actions(retrying, later);
    assert(events.drop_first().drop_first() =~= later);
    assert(actions.drop_first() =~= tail);
    assert(tail.drop_first() =~= last);
    lemma_retrying_only_finishes(retrying, later);
    lemma_actions_answer_each_event(start, events);
    assert(gate_after(start, events) == gate_after(refreshing, events.drop_first()));
    assert(gate_after(refreshing, events.drop_first()) == gate_after(retrying, later));
    assert(refreshes(tail) == refreshes(last) && sends(tail) == 1 + sends(last));
    assert(refreshes(actions) == 1 + refreshes(tail) && sends(actions) == sends(tail));
}

/// A failed refresh ends the call with that failure, classified as a failed
/// refresh: the request that was refused is not sent again, and nothing that
/// follows brings a request or a refresh.
pub proof fn law_failed_refresh_ends_the_call(
    call: CallView,
    token: Seq<char>,
    response: ResponseView,
    cause: ErrorView,
    later: Seq<EventView>,
)
    requires
        status_is_unauthorized(response.status),
    ensures
        ({
            let events = seq![EventView::Response(response), EventView::RefreshFailed(cause)]
                + later;
            let actions = gate_actions(gate_started(call, token), events);
            &&& actions.len() == events.len()
            &&& actions[0] == ActionView::Refresh
            &&& actions[1] == ActionView::Finish(Err(refresh_error(cause)))
            &&& sends(actions) == 0
            &&& refreshes(actions) == 1
            &&& finishes(actions) == 1
            &&& forall|i: int|
                2 <= i < actions.len() ==> (#[trigger] actions[i]) == ActionView::Idle
            &&& gate_after(gate_started(call, token), events).token == token
        }),
{
    let start = gate_started(call, token);
    let events = seq![EventView::Response(response), EventView::RefreshFailed(cause)] + later;
    let refreshing = gate_step(start, events[0]).0;
    let finished = gate_step(refreshing, events[1]).0;
    let actions = gate_actions(start, events);
    let tail = gate_actions(refreshing, events.drop_first());
    let last = gate_actions(finished, later);
    assert(events.drop_first().drop_first() =~= later);
    assert(actions.drop_first() =~= tail);
    assert(tail.drop_first() =~= last);
    lemma_finished_stays_idle(finished, later);
    lemma_actions_answer_each_event(start, events);
    assert(gate_after(start, events) == gate_after(refreshing, events.drop_first()));
    assert(gate_after(refreshing, events.drop_first()) == gate_after(finished, later));
    assert(refreshes(tail) == refreshes(last) && sends(tail) == sends(last) && finishes(tail) == 1
        + finishes(last));
    assert(refreshes(actions) == 1 + refreshes(tail) && sends(actions) == sends(tail)
        && finishes(actions) == finishes(tail));
    assert forall|i: int| 2 <= i < actions.len() implies (#[trigger] actions[i])
        == ActionView::Idle by {
        assert(actions[i] == tail[i - 1]);
        assert(tail[i - 1] == last[i - 2]);
    }
}

/// A first response with any status but 401 ends the call with that
/// response: exactly one request was sent, no refresh is asked for, and the
/// token that is held stays as it was.
pub proof fn law_other_status_ends_the_call(
    call: CallView,
    token: Seq<char>,
    response: ResponseView,
    later: Seq<EventView>,
)
    requires
        !status_is_unauthorized(response.status),
    ensures
        ({
            let events = seq![EventView::Response(response)] + later;
            let actions = gate_actions(gate_started(call, token), events);
            &&& actions.len() == events.len()
            &&& actions[0] == ActionView::Finish(Ok(response))
            &&& sends(actions) == 0
            &&& refreshes(actions) == 0
            &&& gate_after(gate_started(call, token), events).token == token
        }),
{
    let start = gate_started(call, token);
    let events = seq![EventView::Response(response)] + later;
    let finished = gate_step(start, events[0]).0;
    let actions = gate_actions(start, events);
    assert(events.drop_first() =~= later);
    assert(actions.drop_first() =~= gate_actions(finished, later));
    lemma_finished_stays_idle(finished, later);
    lemma_actions_answer_each_event(start, events);
}

/// A first request that brings no response ends the call with a transport
/// failure: no refresh is asked for and nothing is sent again.
pub proof fn law_transport_failure_ends_the_call(
    call: CallView,
    token: Seq<char>,
    detail: Seq<char>,
    later: Seq<EventView>,
)
    ensures
        ({
            let events = seq![EventView::TransportFailed(detail)] + later;
            let actions = gate_actions(gate_started(call, token), events);
            &&& actions.len() == events.len()
            &&& actions[0] == ActionView::Finish(Err(transport_error(detail)))
            &&& sends(actions) == 0
            &&& refreshes(actions) == 0
        }),
{
    let start = gate_started(call, token);
    let events = seq![EventView::TransportFailed(detail)] + later;
    let finished = gate_step(start, events[0]).0;
    let actions = gate_actions(start, events);
    assert(events.drop_first() =~= later);
    assert(actions.drop_first() =~= gate_actions(finished, later));
    lemma_finished_stays_idle(finished, later);
    lemma_actions_answer_each_event(start, events);
}

/// The response to the second request ends the call, whatever its status:
/// a second 401 is handed on like any other response.
pub proof fn law_second_response_is_final(gate: GateView, response: ResponseView)
    requires
        gate.phase == Phase::Retrying,
    ensures
        gate_step(gate, EventView::Response(response)).1 == ActionView::Finish(Ok(response)),
        gate_step(gate, EventView::Response(response)).0.phase == Phase::Finished,
{
}

/// A gate answers each event with one action.
pub proof fn lemma_actions_answer_each_event(gate: GateView, events: Seq<EventView>)
    ensures
        gate_actions(gate, events).len() == events.len(),
    decreases events.len(),
{
    if events.len() > 0 {
        lemma_actions_answer_each_event(gate_step(gate, events[0]).0, events.drop_first());
    }
}

/// The token that a gate holds changes only when a refresh brings a new one;
/// the operation never changes.
pub proof fn law_token_changes_only_by_refresh(gate: GateView, event: EventView)
    ensures
        gate_step(gate, event).0.call == gate.call,
        gate_step(gate, event).0.token != gate.token ==> gate.phase == Phase::Refreshing
            && event == EventView::Refreshed(gate_step(gate, event).0.token),
        gate_step(gate, event).1 matches ActionView::Send(request) ==> request
            == gate.call.request(gate_step(gate, event).0.token),
{
}

} // verus!
