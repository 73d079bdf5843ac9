//! Creating an experience: the session is checked, the experiences server is
//! asked to create the experience, and the new experience is registered in
//! the local store.
//!
//! The work outside (checking the session, the call over the network, the
//! store, the host's error reports) is done by the caller. This module
//! decides: from where the flow stands and what has just happened it says
//! where the flow stands next and what is to be done.

use vstd::prelude::*;
use crate::error::{status_of, ApiError, ApiErrorView, STATUS_OK};
use crate::event::{
    CreateExperienceRequest, CreateExperienceRequestView, DatabaseExperience,
    DatabaseExperienceView, Event, EventView, PluginKind,
};
use crate::upstream::{
    cookie_for, spec_cookie, UpstreamCall, UpstreamCallView, UpstreamReply, UpstreamReplyView,
};

verus! {

/// What the plugin is configured with: the address of the experiences server
/// and the password that it shares with it.
#[derive(Clone, Debug, PartialEq, Eq)]
pub struct ConfigData {
    pub password: String,
    pub url: String,
}

/// A [`ConfigData`] with its texts as sequences of characters.
pub struct ConfigDataView {
    pub password: Seq<char>,
    pub url: Seq<char>,
}

impl View for ConfigData {
    type V = ConfigDataView;

    open spec fn view(&self) -> ConfigDataView {
        ConfigDataView { password: self.password@, url: self.url@ }
    }
}

/// The answer to the caller: the outcome, and the status that goes with it.
#[derive(Debug, PartialEq, Eq)]
pub struct Response {
    pub status: u16,
    pub result: Result<(), ApiError>,
}

/// A [`Response`] with its texts as sequences of characters.
pub struct ResponseView {
    pub status: u16,
    pub result: Result<(), ApiErrorView>,
}

impl View for Response {
    type V = ResponseView;

    open spec fn view(&self) -> ResponseView {
        ResponseView {
            status: self.status,
            result: match self.result {
                Ok(_) => Ok(()),
                Err(error) => Err(error@),
            },
        }
    }
}

/// A failure of the store, to be reported to the host.
#[derive(Clone, Debug, PartialEq, Eq)]
pub struct ErrorReport {
    /// The plugin that met the failure.
    pub plugin: PluginKind,
    /// What the store said.
    pub error: String,
}

/// An [`ErrorReport`] with its text as a sequence of characters.
pub struct ErrorReportView {
    pub plugin: PluginKind,
    pub error: Seq<char>,
}

impl View for ErrorReport {
    type V = ErrorReportView;

    open spec fn view(&self) -> ErrorReportView {
        ErrorReportView { plugin: self.plugin, error: self.error@ }
    }
}

/// Where the creation of an experience stands.
#[derive(Clone, Debug, PartialEq, Eq)]
pub enum CreateState {
    /// The caller's session is being checked.
    Authenticating { request: CreateExperienceRequest, config: ConfigData },
    /// The experiences server has been asked, and has not answered yet.
    Sending { request: CreateExperienceRequest },
    /// The new experience is being registered in the store.
    Registering,
    /// The store has failed, and the failure is being reported to the host.
    Reporting { error: String },
    /// The caller has been answered.
    Finished,
}

/// A [`CreateState`] with its texts as sequences of characters.
pub enum CreateStateView {
    Authenticating { request: CreateExperienceRequestView, config: ConfigDataView },
    Sending { request: CreateExperienceRequestView },
    Registering,
    Reporting { error: Seq<char> },
    Finished,
}

impl View for CreateState {
    type V = CreateStateView;

    open spec fn view(&self) -> CreateStateView {
        match self {
            CreateState::Authenticating { request, config } => CreateStateView::Authenticating {
                request: request@,
                config: config@,
            },
            CreateState::Sending { request } => CreateStateView::Sending { request: request@ },
            CreateState::Registering => CreateStateView::Registering,
            CreateState::Reporting { error } => CreateStateView::Reporting { error: error@ },
            CreateState::Finished => CreateStateView::Finished,
        }
    }
}

/// What has just happened outside.
#[derive(Clone, Debug, PartialEq, Eq)]
pub enum CreateEvent {
    /// The caller holds a valid session.
    Authenticated,
    /// The caller holds no valid session.
    Unauthenticated,
    /// The request could not be sent to the experiences server.
    SendFailed(String),
    /// The experiences server answered, and the body of its answer could not
    /// be received.
    BodyUnreadable(String),
    /// The experiences server answered.
    Replied(UpstreamReply),
    /// The store has taken the event.
    Registered,
    /// The store has refused the event.
    RegisterFailed(String),
    /// The failure of the store has been reported to the host.
    Reported,
}

/// A [`CreateEvent`] with its texts as sequences of characters.
pub enum CreateEventView {
    Authenticated,
    Unauthenticated,
    SendFailed(Seq<char>),
    BodyUnreadable(Seq<char>),
    Replied(UpstreamReplyView),
    Registered,
    RegisterFailed(Seq<char>),
    Reported,
}

impl View for CreateEvent {
    type V = CreateEventView;

    open spec fn view(&self) -> CreateEventView {
        match self {
            CreateEvent::Authenticated => CreateEventView::Authenticated,
            CreateEvent::Unauthenticated => CreateEventView::Unauthenticated,
            CreateEvent::SendFailed(reason) => CreateEventView::SendFailed(reason@),
            CreateEvent::BodyUnreadable(reason) => CreateEventView::BodyUnreadable(reason@),
            CreateEvent::Replied(reply) => CreateEventView::Replied(reply@),
            CreateEvent::Registered => CreateEventView::Registered,
            CreateEvent::RegisterFailed(reason) => CreateEventView::RegisterFailed(reason@),
            CreateEvent::Reported => CreateEventView::Reported,
        }
    }
}

/// What is to be done outside.
#[derive(Debug, PartialEq, Eq)]
pub enum CreateAction {
    /// Ask the experiences server to create the experience.
    Send(UpstreamCall),
    /// Register the event in the store.
    Register(Event),
    /// Report the failure of the store to the host.
    Report(ErrorReport),
    /// Answer the caller.
    Respond(Response),
    /// Nothing: what happened was not awaited where the flow stands.
    Ignore,
}

/// A [`CreateAction`] with its texts as sequences of characters.
pub enum CreateActionView {
    Send(UpstreamCallView),
    Register(EventView),
    Report(ErrorReportView),
    Respond(ResponseView),
    Ignore,
}

impl View for CreateAction {
    type V = CreateActionView;

    open spec fn view(&self) -> CreateActionView {
        match self {
            CreateAction::Send(call) => CreateActionView::Send(call@),
            CreateAction::Register(event) => CreateActionView::Register(event@),
            CreateAction::Report(report) => CreateActionView::Report(report@),
            CreateAction::Respond(response) => CreateActionView::Respond(response@),
            CreateAction::Ignore => CreateActionView::Ignore,
        }
    }
}

/// How a failure to send the request is told to the caller.
pub open spec fn spec_send_failed(reason: Seq<char>) -> Seq<char> {
    "Unable to send request to experiences server: "@ + reason
}

/// How an answer that could not be read is told to the caller.
pub open spec fn spec_read_failed(reason: Seq<char>) -> Seq<char> {
    "Unable to read response from experiences server: "@ + reason
}

/// How a refusal of the experiences server is told to the caller.
pub open spec fn spec_rejected(complaint: Seq<char>) -> Seq<char> {
    "Unable to create experience on experiences server: The experiences server reported an error: "@
        + complaint
}

/// The answer that carries `result`.
pub open spec fn spec_respond(result: Result<(), ApiErrorView>) -> CreateActionView {
    CreateActionView::Respond(ResponseView { status: status_of(result), result })
}

/// The event under which an experience is stored: timed as the request
/// asked, named as the request asked, and under the id that the experiences
/// server gave.
pub open spec fn spec_stored_event(request: CreateExperienceRequestView, id: Seq<char>) -> EventView {
    EventView {
        timing: request.time,
        id,
        plugin: PluginKind::Experience,
        event: DatabaseExperienceView { name: request.name, id },
    }
}

/// The call that asks the experiences server to create what `request` asks
/// for.
pub open spec fn spec_upstream_call(
    request: CreateExperienceRequestView,
    config: ConfigDataView,
) -> UpstreamCallView {
    UpstreamCallView { base_url: config.url, cookie: spec_cookie(config.password), request }
}

/// The next state and the action, given the state and what has happened.
pub open spec fn spec_create_experience(state: CreateStateView, event: CreateEventView) -> (
    CreateStateView,
    CreateActionView,
) {
    match state {
        CreateStateView::Authenticating { request, config } => match event {
            CreateEventView::Unauthenticated => (
                CreateStateView::Finished,
                spec_respond(Err(ApiErrorView::AuthenticationError)),
            ),
            CreateEventView::Authenticated => (
                CreateStateView::Sending { request },
                CreateActionView::Send(spec_upstream_call(request, config)),
            ),
            _ => (state, CreateActionView::Ignore),
        },
        CreateStateView::Sending { request } => match event {
            CreateEventView::SendFailed(reason) => (
                CreateStateView::Finished,
                spec_respond(
                    Err(ApiErrorView::UpstreamCommunicationError(spec_send_failed(reason))),
                ),
            ),
            CreateEventView::BodyUnreadable(reason) => (
                CreateStateView::Finished,
                spec_respond(
                    Err(ApiErrorView::UpstreamCommunicationError(spec_read_failed(reason))),
                ),
            ),
            CreateEventView::Replied(UpstreamReplyView::Unreadable(reason)) => (
                CreateStateView::Finished,
                spec_respond(
                    Err(ApiErrorView::UpstreamCommunicationError(spec_read_failed(reason))),
                ),
            ),
            CreateEventView::Replied(UpstreamReplyView::Rejected(complaint)) => (
                CreateStateView::Finished,
                spec_respond(Err(ApiErrorView::UpstreamApplicationError(spec_rejected(complaint)))),
            ),
            CreateEventView::Replied(UpstreamReplyView::Created(id)) => (
                CreateStateView::Registering,
                CreateActionView::Register(spec_stored_event(request, id)),
            ),
            _ => (state, CreateActionView::Ignore),
        },
        CreateStateView::Registering => match event {
            CreateEventView::Registered => (CreateStateView::Finished, spec_respond(Ok(()))),
            CreateEventView::RegisterFailed(reason) => (
                CreateStateView::Reporting { error: reason },
                CreateActionView::Report(
                    ErrorReportView { plugin: PluginKind::Experience, error: reason },
                ),
            ),
            _ => (state, CreateActionView::Ignore),
        },
        CreateStateView::Reporting { error } => match event {
            CreateEventView::Reported => (
                CreateStateView::Finished,
                spec_respond(Err(ApiErrorView::PersistenceError(error))),
            ),
            _ => (state, CreateActionView::Ignore),
        },
        CreateStateView::Finished => (state, CreateActionView::Ignore),
    }
}

/// The answer that tells the caller of `error`.
pub fn failure(error: ApiError) -> (r: CreateAction)
    ensures
        r@ == spec_respond(Err(error@)),
{
    let status = error.status();
    CreateAction::Respond(Response { status, result: Err(error) })
}

/// The answer that tells the caller of success.
pub fn success() -> (r: CreateAction)
    ensures
        r@ == spec_respond(Ok(())),
{
    CreateAction::Respond(Response { status: STATUS_OK, result: Ok(()) })
}

/// The state in which the creation of an experience begins: the caller's
/// session is to be checked first.
pub fn begin_create(request: CreateExperienceRequest, config: ConfigData) -> (r: CreateState)
    ensures
        r@ == (CreateStateView::Authenticating { request: request@, config: config@ }),
{
    CreateState::Authenticating { request, config }
}

/// One step of the creation of an experience: from where the flow stands and
/// what has happened outside, where it stands next and what is to be done.
///
/// A caller without a valid session is turned away at once. A caller with
/// one has the request sent to the experiences server. When the server
/// cannot be reached, or its answer cannot be read, or it refuses, the caller
/// is told so and nothing is stored. When it has created the experience, the
/// event is registered in the store under the id that the server gave. When
/// the store fails, the failure is reported to the host and then told to the
/// caller.
pub fn create_experience(state: CreateState, event: CreateEvent) -> (out: (
    CreateState,
    CreateAction,
))
    ensures
        (out.0@, out.1@) == spec_create_experience(state@, event@),
{
    match state {
        CreateState::Authenticating { request, config } => match event {
            CreateEvent::Unauthenticated => (
                CreateState::Finished,
                failure(ApiError::AuthenticationError),
            ),
            CreateEvent::Authenticated => {
                let call = UpstreamCall {
                    base_url: config.url,
                    cookie: cookie_for(config.password.as_str()),
                    request: CreateExperienceRequest {
                        name: request.name.clone(),
                        time: request.time,
                    },
                };
                (CreateState::Sending { request }, CreateAction::Send(call))
            },
            _ => (CreateState::Authenticating { request, config }, CreateAction::Ignore),
        },
        CreateState::Sending { request } => match event {
            CreateEvent::SendFailed(reason) => {
                let message = String::from_str(
                    "Unable to send request to experiences server: ",
                ).concat(reason.as_str());
                (
                    CreateState::Finished,
                    failure(ApiError::UpstreamCommunicationError(message)),
                )
            },
            CreateEvent::BodyUnreadable(reason) => {
                let message = String::from_str(
                    "Unable to read response from experiences server: ",
                ).concat(reason.as_str());
                (
                    CreateState::Finished,
                    failure(ApiError::UpstreamCommunicationError(message)),
                )
            },
            CreateEvent::Replied(UpstreamReply::Unreadable(reason)) => {
                let message = String::from_str(
                    "Unable to read response from experiences server: ",
                ).concat(reason.as_str());
                (
                    CreateState::Finished,
                    failure(ApiError::UpstreamCommunicationError(message)),
                )
            },
            CreateEvent::Replied(UpstreamReply::Rejected(complaint)) => {
                let message = String::from_str(
                    "Unable to create experience on experiences server: The experiences server reported an error: ",
                ).concat(complaint.as_str());
                (CreateState::Finished, failure(ApiError::UpstreamApplicationError(message)))
            },
            CreateEvent::Replied(UpstreamReply::Created(id)) => {
                let stored = Event {
                    timing: request.time,
                    id: id.clone(),
                    plugin: PluginKind::Experience,
                    event: DatabaseExperience { name: request.name, id },
                };
                (CreateState::Registering, CreateAction::Register(stored))
            },
            _ => (CreateState::Sending { request }, CreateAction::Ignore),
        },
        CreateState::Registering => match event {
            CreateEvent::Registered => (CreateState::Finished, success()),
            CreateEvent::RegisterFailed(reason) => {
                let report = ErrorReport { plugin: PluginKind::Experience, error: reason.clone() };
                (CreateState::Reporting { error: reason }, CreateAction::Report(report))
            },
            _ => (CreateState::Registering, CreateAction::Ignore),
        },
        CreateState::Reporting { error } => match event {
            CreateEvent::Reported => (
                CreateState::Finished,
                failure(ApiError::PersistenceError(error)),
            ),
            _ => (CreateState::Reporting { error }, CreateAction::Ignore),
        },
        CreateState::Finished => (CreateState::Finished, CreateAction::Ignore),
    }
}

/// The actions that a flow asks for, one for each thing that happens, when it
/// starts in `state` and `events` happen in turn.
pub open spec fn spec_actions(state: CreateStateView, events: Seq<CreateEventView>) -> Seq<
    CreateActionView,
>
    decreases events.len(),
{
    if events.len() == 0 {
        Seq::empty()
    } else {
        let (next, action) = spec_create_experience(state, events.first());
        seq![action] + spec_actions(next, events.drop_first())
    }
}

/// The state in which the creation of an experience begins.
pub open spec fn spec_begin(
    request: CreateExperienceRequestView,
    config: ConfigDataView,
) -> CreateStateView {
    CreateStateView::Authenticating { request, config }
}

/// How many of the actions are calls to the experiences server.
pub open spec fn send_count(actions: Seq<CreateActionView>) -> nat {
    actions.filter(|action: CreateActionView| action is Send).len()
}

/// How many of the actions register an event in the store.
pub open spec fn register_count(actions: Seq<CreateActionView>) -> nat {
    actions.filter(|action: CreateActionView| action is Register).len()
}

/// How many of the actions are reports to the host.
pub open spec fn report_count(actions: Seq<CreateActionView>) -> nat {
    actions.filter(|action: CreateActionView| action is Report).len()
}

/// How many of the actions answer the caller.
pub open spec fn respond_count(actions: Seq<CreateActionView>) -> nat {
    actions.filter(|action: CreateActionView| action is Respond).len()
}

/// The actions of a flow are the action for what happens first, followed by
/// the actions of the flow that goes on from the next state.
pub proof fn lemma_actions_unfold(
    state: CreateStateView,
    first: CreateEventView,
    later: Seq<CreateEventView>,
)
    ensures
        spec_actions(state, seq![first] + later) == seq![spec_create_experience(state, first).1]
            + spec_actions(spec_create_experience(state, first).0, later),
{
    assert((seq![first] + later).drop_first() =~= later);
}

/// A flow that has answered the caller asks for nothing more, whatever
/// happens.
pub proof fn lemma_finished_asks_for_nothing(events: Seq<CreateEventView>)
    ensures
        spec_actions(CreateStateView::Finished, events).len() == events.len(),
        forall|i: int|
            0 <= i < events.len() ==> #[trigger] spec_actions(CreateStateView::Finished, events)[i]
                == CreateActionView::Ignore,
    decreases events.len(),
{
    if events.len() > 0 {
        lemma_finished_asks_for_nothing(events.drop_first());
    }
}

/// A caller without a valid session is answered that it is not
/// authenticated, and the flow asks for nothing else, whatever happens
/// afterwards: the experiences server is not called and nothing is
/// registered in the store.
pub proof fn lemma_unauthenticated_reaches_nothing(
    request: CreateExperienceRequestView,
    config: ConfigDataView,
    later: Seq<CreateEventView>,
)
    ensures
        ({
            let actions = spec_actions(
                spec_begin(request, config),
                seq![CreateEventView::Unauthenticated] + later,
            );
            &&& actions.len() == later.len() + 1
            &&& actions[0] == spec_respond(Err(ApiErrorView::AuthenticationError))
            &&& forall|i: int|
                0 <= i < actions.len() ==> !((#[trigger] actions[i]) is Send) && !(actions[i]
                    is Register) && !(actions[i] is Report)
            &&& forall|i: int| 1 <= i < actions.len() ==> #[trigger] actions[i] == CreateActionView::Ignore
        }),
{
    let events = seq![CreateEventView::Unauthenticated] + later;
    assert(events.drop_first() =~= later);
    lemma_finished_asks_for_nothing(later);
}

/// When the request cannot be sent to the experiences server, the caller is
/// told of a failure to communicate with it, and nothing is registered in
/// the store, whatever happens afterwards.
pub proof fn lemma_transport_failure_stores_nothing(
    request: CreateExperienceRequestView,
    config: ConfigDataView,
    reason: Seq<char>,
    later: Seq<CreateEventView>,
)
    ensures
        ({
            let actions = spec_actions(
                spec_begin(request, config),
                seq![CreateEventView::Authenticated, CreateEventView::SendFailed(reason)] + later,
            );
            &&& actions.len() == later.len() + 2
            &&& actions[0] == CreateActionView::Send(spec_upstream_call(request, config))
            &&& actions[1] == spec_respond(
                Err(ApiErrorView::UpstreamCommunicationError(spec_send_failed(reason))),
            )
            &&& forall|i: int|
                0 <= i < actions.len() ==> !((#[trigger] actions[i]) is Register) && !(actions[i]
                    is Report)
            &&& forall|i: int| 2 <= i < actions.len() ==> #[trigger] actions[i] == CreateActionView::Ignore
        }),
{
    let start = spec_begin(request, config);
    let failed = CreateEventView::SendFailed(reason);
    assert(seq![CreateEventView::Authenticated, failed] + later =~= seq![
        CreateEventView::Authenticated,
    ] + (seq![failed] + later));
    lemma_actions_unfold(start, CreateEventView::Authenticated, seq![failed] + later);
    lemma_actions_unfold(CreateStateView::Sending { request }, failed, later);
    lemma_finished_asks_for_nothing(later);
}

/// When the experiences server has created the experience and the store
/// then fails, the failure is reported to the host exactly once, under this
/// plugin's kind, and the caller is told of the failure of the store.
pub proof fn lemma_store_failure_is_reported_once(
    request: CreateExperienceRequestView,
    config: ConfigDataView,
    id: Seq<char>,
    reason: Seq<char>,
    later: Seq<CreateEventView>,
)
    ensures
        ({
            let actions = spec_actions(
                spec_begin(request, config),
                seq![
                    CreateEventView::Authenticated,
                    CreateEventView::Replied(UpstreamReplyView::Created(id)),
                    CreateEventView::RegisterFailed(reason),
                    CreateEventView::Reported,
                ] + later,
            );
            &&& actions.len() == later.len() + 4
            &&& actions[0] == CreateActionView::Send(spec_upstream_call(request, config))
            &&& actions[1] == CreateActionView::Register(spec_stored_event(request, id))
            &&& actions[2] == CreateActionView::Report(
                ErrorReportView { plugin: PluginKind::Experience, error: reason },
            )
            &&& actions[3] == spec_respond(Err(ApiErrorView::PersistenceError(reason)))
            &&& forall|i: int| 4 <= i < actions.len() ==> #[trigger] actions[i] == CreateActionView::Ignore
            &&& report_count(actions) == 1
        }),
{
    let start = spec_begin(request, config);
    let authenticated = CreateEventView::Authenticated;
    let created = CreateEventView::Replied(UpstreamReplyView::Created(id));
    let refused = CreateEventView::RegisterFailed(reason);
    let reported = CreateEventView::Reported;
    let events = seq![authenticated, created, refused, reported] + later;
    let actions = spec_actions(start, events);
    let send = CreateActionView::Send(spec_upstream_call(request, config));
    let register = CreateActionView::Register(spec_stored_event(request, id));
    let report = CreateActionView::Report(
        ErrorReportView { plugin: PluginKind::Experience, error: reason },
    );
    let respond = spec_respond(Err(ApiErrorView::PersistenceError(reason)));
    let ignored = spec_actions(CreateStateView::Finished, later);
    let after_report = seq![respond] + ignored;
    let after_register = seq![report] + after_report;
    let after_send = seq![register] + after_register;
    assert(actions == seq![send] + after_send) by {
        assert(events =~= seq![authenticated] + (seq![created] + (seq![refused] + (seq![reported]
            + later))));
        lemma_actions_unfold(
            start,
            authenticated,
            seq![created] + (seq![refused] + (seq![reported] + later)),
        );
        lemma_actions_unfold(
            CreateStateView::Sending { request },
            created,
            seq![refused] + (seq![reported] + later),
        );
        lemma_actions_unfold(CreateStateView::Registering, refused, seq![reported] + later);
        lemma_actions_unfold(CreateStateView::Reporting { error: reason }, reported, later);
    }
    lemma_finished_asks_for_nothing(later);
    assert(report_count(actions) == 1) by {
        let is_report = |action: CreateActionView| action is Report;
        ignored.lemma_all_neg_filter_empty(is_report);
        lemma_count_unfold(respond, ignored, is_report);
        lemma_count_unfold(report, after_report, is_report);
        lemma_count_unfold(register, after_register, is_report);
        lemma_count_unfold(send, after_send, is_report);
    }
}

/// Every answer carries the status of its outcome: 200 with a success, 401
/// with a caller that is not authenticated, 500 with any other failure.
pub proof fn lemma_answers_carry_their_status(state: CreateStateView, event: CreateEventView)
    ensures
        spec_create_experience(state, event).1 matches CreateActionView::Respond(response) ==> {
            &&& response.status == status_of(response.result)
            &&& response.status == 200 <==> response.result is Ok
            &&& response.status == 401 <==> response.result == Err::<(), ApiErrorView>(
                ApiErrorView::AuthenticationError,
            )
            &&& response.status == 200 || response.status == 401 || response.status == 500
        },
{
}

/// Counting the actions of one kind: the first action counts if it is of
/// the kind, and the others are counted after it.
proof fn lemma_count_unfold(
    first: CreateActionView,
    later: Seq<CreateActionView>,
    kind: spec_fn(CreateActionView) -> bool,
)
    ensures
        (seq![first] + later).filter(kind).len() == later.filter(kind).len() + (if kind(first) {
            1nat
        } else {
            0nat
        }),
{
    Seq::filter_distributes_over_add(seq![first], later, kind);
    assert(seq![first].filter(kind).len() == (if kind(first) {
        1nat
    } else {
        0nat
    })) by {
        reveal_with_fuel(Seq::filter, 2);
        assert(seq![first].drop_last() =~= Seq::empty());
    }
}

/// Whatever happens, and in whatever order, a flow does each thing at most
/// once: it calls the experiences server at most once, registers at most
/// one event, reports at most one failure and answers the caller at most
/// once. A flow that has passed the stage of one of these never does it.
pub proof fn lemma_each_action_at_most_once(state: CreateStateView, events: Seq<CreateEventView>)
    ensures
        send_count(spec_actions(state, events)) <= (if state is Authenticating {
            1nat
        } else {
            0nat
        }),
        register_count(spec_actions(state, events)) <= (if state is Authenticating || state
            is Sending {
            1nat
        } else {
            0nat
        }),
        report_count(spec_actions(state, events)) <= (if state is Authenticating || state
            is Sending || state is Registering {
            1nat
        } else {
            0nat
        }),
        respond_count(spec_actions(state, events)) <= (if state is Finished {
            0nat
        } else {
            1nat
        }),
    decreases events.len(),
{
    let is_send = |action: CreateActionView| action is Send;
    let is_register = |action: CreateActionView| action is Register;
    let is_report = |action: CreateActionView| action is Report;
    let is_respond = |action: CreateActionView| action is Respond;
    if events.len() == 0 {
        reveal(Seq::filter);
    } else {
        let (next, action) = spec_create_experience(state, events.first());
        let later = spec_actions(next, events.drop_first());
        lemma_each_action_at_most_once(next, events.drop_first());
        lemma_count_unfold(action, later, is_send);
        lemma_count_unfold(action, later, is_register);
        lemma_count_unfold(action, later, is_report);
        lemma_count_unfold(action, later, is_respond);
    }
}

} // verus!
