//! What the endpoint does with one request, as a machine of states and
//! events. The caller performs each action (a fetch, the writing of the
//! output as JSON text, the reply) and hands back what came of it.

use vstd::prelude::*;
use crate::assemble::{assemble_output, output_for};
use crate::encode::{base64_standard, encode_body};
use crate::model::{Output, OutputView, RaidResponse, RaidView, RaidresResponse, RaidresView};
use crate::upstream::{
    describe_failure, event_record_url, event_url, failure_text, lemma_descriptions_not_empty,
    raid_record_url, raid_url, FailedView, FetchFailure, EVENT_FETCH_FAILED, RAID_FETCH_FAILED,
};

verus! {

/// Status of a reply that carries the encoded output.
pub const STATUS_OK: u16 = 200;

/// Status of a reply to a request whose upstream fetch failed.
pub const STATUS_BAD_REQUEST: u16 = 400;

/// Status of a reply to a request whose output could not be written as JSON.
pub const STATUS_INTERNAL_SERVER_ERROR: u16 = 500;

/// Where the handling of a request stands.
#[derive(Clone, Debug, PartialEq, Eq)]
pub enum HandlerState {
    /// The event's record has been asked for.
    AwaitingEvent { id: String },
    /// The raid's record has been asked for.
    AwaitingCatalog { id: String, event: RaidresResponse },
    /// The output has been handed out to be written as JSON text.
    AwaitingJson,
    /// The reply has been given.
    Done,
}

/// What came of the last action. A failed writing carries its description.
#[derive(Debug, PartialEq, Eq)]
pub enum HandlerEvent {
    EventFetched(Result<RaidresResponse, FetchFailure>),
    CatalogFetched(Result<RaidResponse, FetchFailure>),
    Serialized(Result<String, String>),
}

/// What the caller has to do next.
#[derive(Clone, Debug, PartialEq, Eq)]
pub enum HandlerAction {
    /// Fetch the event's record from `url`.
    FetchEvent { url: String },
    /// Fetch the raid's record from `url`.
    FetchCatalog { url: String },
    /// Write `output` as JSON text.
    Serialize { output: Output },
    /// Reply with this status and this plain-text body.
    Respond { status: u16, body: String },
}

/// What a state is, as plain values.
pub enum StateView {
    AwaitingEvent { id: Seq<char> },
    AwaitingCatalog { id: Seq<char>, event: RaidresView },
    AwaitingJson,
    Done,
}

/// What an event is, as plain values.
pub enum EventView {
    EventFetched(Result<RaidresView, FailedView>),
    CatalogFetched(Result<RaidView, FailedView>),
    Serialized(Result<Seq<char>, Seq<char>>),
}

/// What an action is, as plain values.
pub enum ActionView {
    FetchEvent { url: Seq<char> },
    FetchCatalog { url: Seq<char> },
    Serialize { output: OutputView },
    Respond { status: u16, body: Seq<char> },
}

impl View for HandlerState {
    type V = StateView;

    open spec fn view(&self) -> StateView {
        match *self {
            HandlerState::AwaitingEvent { id } => StateView::AwaitingEvent { id: id@ },
            HandlerState::AwaitingCatalog { id, event } => StateView::AwaitingCatalog {
                id: id@,
                event: event@,
            },
            HandlerState::AwaitingJson => StateView::AwaitingJson,
            HandlerState::Done => StateView::Done,
        }
    }
}

impl View for HandlerEvent {
    type V = EventView;

    open spec fn view(&self) -> EventView {
        match *self {
            HandlerEvent::EventFetched(Ok(event)) => EventView::EventFetched(Ok(event@)),
            HandlerEvent::EventFetched(Err(why)) => EventView::EventFetched(Err(why@)),
            HandlerEvent::CatalogFetched(Ok(raid)) => EventView::CatalogFetched(Ok(raid@)),
            HandlerEvent::CatalogFetched(Err(why)) => EventView::CatalogFetched(Err(why@)),
            HandlerEvent::Serialized(Ok(json)) => EventView::Serialized(Ok(json@)),
            HandlerEvent::Serialized(Err(why)) => EventView::Serialized(Err(why@)),
        }
    }
}

impl View for HandlerAction {
    type V = ActionView;

    open spec fn view(&self) -> ActionView {
        match *self {
            HandlerAction::FetchEvent { url } => ActionView::FetchEvent { url: url@ },
            HandlerAction::FetchCatalog { url } => ActionView::FetchCatalog { url: url@ },
            HandlerAction::Serialize { output } => ActionView::Serialize { output: output@ },
            HandlerAction::Respond { status, body } => ActionView::Respond { status, body: body@ },
        }
    }
}

/// The end of a request with a reply of 400 and the given body.
pub open spec fn refusal(body: Seq<char>) -> (StateView, ActionView) {
    (StateView::Done, ActionView::Respond { status: 400, body })
}

/// The reply to a request that failed upstream: 400, with the failure's
/// description.
pub open spec fn upstream_failure(context: Seq<char>, why: FailedView) -> (StateView, ActionView) {
    refusal(failure_text(context, why))
}

/// The state and the action that follow on an event, where the state awaits
/// it; `None` where it does not.
///
/// - The event's record came: ask for the record of the raid it names.
/// - The raid's record came: derive the output and hand it out to be written.
/// - The JSON text came: reply 200 with its base64 encoding.
/// - A fetch failed: reply 400 with the failure's description, and fetch
///   nothing more.
/// - The writing failed: reply 500 with the failure's description.
pub open spec fn next_step(base: Seq<char>, state: StateView, event: EventView) -> Option<
    (StateView, ActionView),
> {
    match (state, event) {
        (StateView::AwaitingEvent { id }, EventView::EventFetched(Ok(record))) => Some(
            (
                StateView::AwaitingCatalog { id, event: record },
                ActionView::FetchCatalog { url: raid_url(base, record.raid_id) },
            ),
        ),
        (StateView::AwaitingEvent { id }, EventView::EventFetched(Err(why))) => Some(
            upstream_failure(EVENT_FETCH_FAILED@, why),
        ),
        (StateView::AwaitingCatalog { id, event: record }, EventView::CatalogFetched(Ok(raid))) => {
            Some(
                (
                    StateView::AwaitingJson,
                    ActionView::Serialize { output: output_for(id, record, raid) },
                ),
            )
        },
        (StateView::AwaitingCatalog { id, event: record }, EventView::CatalogFetched(Err(why))) => {
            Some(upstream_failure(RAID_FETCH_FAILED@, why))
        },
        (StateView::AwaitingJson, EventView::Serialized(Ok(json))) => Some(
            (StateView::Done, ActionView::Respond { status: 200, body: base64_standard(json) }),
        ),
        (StateView::AwaitingJson, EventView::Serialized(Err(why))) => Some(
            (StateView::Done, ActionView::Respond { status: 500, body: why }),
        ),
        _ => None,
    }
}

/// Takes up a request for the event `id`: the event's record is to be fetched.
pub fn begin(base: &str, id: String) -> (first: (HandlerState, HandlerAction))
    ensures
        first.0@ == (StateView::AwaitingEvent { id: id@ }),
        first.1@ == (ActionView::FetchEvent { url: event_url(base@, id@) }),
{
    let url = event_record_url(base, id.as_str());
    (HandlerState::AwaitingEvent { id }, HandlerAction::FetchEvent { url })
}

/// The reply that ends a request: `Done`, and the status with the body.
pub fn reply(status: u16, body: String) -> (last: (HandlerState, HandlerAction))
    ensures
        last.0@ == StateView::Done,
        last.1@ == (ActionView::Respond { status, body: body@ }),
{
    (HandlerState::Done, HandlerAction::Respond { status, body })
}

/// Decides what follows on an event. Returns `None` exactly where the state
/// does not await the event.
pub fn api_handler(base: &str, state: HandlerState, event: HandlerEvent) -> (next: Option<
    (HandlerState, HandlerAction),
>)
    ensures
        match next_step(base@, state@, event@) {
            Some(step) => next.is_some() && next.unwrap().0@ == step.0 && next.unwrap().1@
                == step.1,
            None => next.is_none(),
        },
{
    match (state, event) {
        (HandlerState::AwaitingEvent { id }, HandlerEvent::EventFetched(Ok(record))) => {
            let url = raid_record_url(base, record.raid_id);
            Some(
                (
                    HandlerState::AwaitingCatalog { id, event: record },
                    HandlerAction::FetchCatalog { url },
                ),
            )
        },
        (HandlerState::AwaitingEvent { id }, HandlerEvent::EventFetched(Err(why))) => Some(
            reply(STATUS_BAD_REQUEST, describe_failure(EVENT_FETCH_FAILED, why)),
        ),
        (
            HandlerState::AwaitingCatalog { id, event: record },
            HandlerEvent::CatalogFetched(Ok(raid)),
        ) => {
            let output = assemble_output(id, &record, raid);
            Some((HandlerState::AwaitingJson, HandlerAction::Serialize { output }))
        },
        (
            HandlerState::AwaitingCatalog { id, event: record },
            HandlerEvent::CatalogFetched(Err(why)),
        ) => Some(reply(STATUS_BAD_REQUEST, describe_failure(RAID_FETCH_FAILED, why))),
        (HandlerState::AwaitingJson, HandlerEvent::Serialized(Ok(json))) => {
            let body = encode_body(json.as_str());
            Some(reply(STATUS_OK, body))
        },
        (HandlerState::AwaitingJson, HandlerEvent::Serialized(Err(why))) => Some(
            reply(STATUS_INTERNAL_SERVER_ERROR, why),
        ),
        _ => None,
    }
}

/// A fetch that reached upstream and had no record from it ends the request
/// with a reply of 400 whose body is not empty.
pub proof fn law_failed_fetch_is_refused(base: Seq<char>, state: StateView, why: FailedView)
    requires
        !(why is Transport),
    ensures
        state is AwaitingEvent ==> next_step(base, state, EventView::EventFetched(Err(why)))
            == Some(refusal(EVENT_FETCH_FAILED@)),
        state is AwaitingCatalog ==> next_step(base, state, EventView::CatalogFetched(Err(why)))
            == Some(refusal(RAID_FETCH_FAILED@)),
        EVENT_FETCH_FAILED@.len() > 0,
        RAID_FETCH_FAILED@.len() > 0,
{
    lemma_descriptions_not_empty();
}

/// The same request with the same upstream records and the same JSON text
/// gets the same next state and action: what follows depends on the base
/// address and on the views of state and event, and on nothing else.
pub proof fn law_same_inputs_same_step(
    base: Seq<char>,
    state: HandlerState,
    event: HandlerEvent,
    again_state: HandlerState,
    again_event: HandlerEvent,
)
    requires
        state@ == again_state@,
        event@ == again_event@,
    ensures
        next_step(base, state@, event@) == next_step(base, again_state@, again_event@),
{
}

} // verus!
