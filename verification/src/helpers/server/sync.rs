use vstd::prelude::*;
use crate::constants::{masked_key, official_server, SYNC_DEBOUNCE_SECONDS};
use crate::database::store::{is_changed_since, rows_with_uids, RecordStore};
use crate::helpers::server::encryption::{decrypt_encryption_key, spec_unwrap, CryptoError};
use crate::helpers::server::envelope::{decrypt_batch, opened_batch};
use crate::helpers::server::login::{ApiError, ApiErrorView};
use crate::helpers::server::reconcile::{applied, apply_delta, writes, WriteOp};
use crate::helpers::server::status::{Notice, SyncMessage};
use crate::helpers::text::same_text;
use crate::helpers::views::settings::ServerChoices;
use crate::models::fur_settings::FurSettings;
use crate::models::fur_shortcut::{EncryptedShortcut, FurShortcut};
use crate::models::fur_task::{EncryptedTask, FurTask};
use crate::models::fur_todo::{EncryptedTodo, FurTodo};
use crate::models::fur_user::{FurUser, FurUserFields};
use crate::models::record::SyncedRecord;
use crate::state::{AuthState, FurState};

verus! {

/// What one synchronisation round sends: the watermark, the device, and the
/// local changes, each record in its envelope.
#[derive(Debug)]
pub struct SyncRequest {
    pub last_sync: i64,
    pub device_id: String,
    pub tasks: Vec<EncryptedTask>,
    pub shortcuts: Vec<EncryptedShortcut>,
    pub todos: Vec<EncryptedTodo>,
}

/// What the server answers: its clock, its changes, and the identifiers of
/// records it could not associate with the user.
#[derive(Debug)]
pub struct SyncResponse {
    pub server_timestamp: i64,
    pub tasks: Vec<EncryptedTask>,
    pub shortcuts: Vec<EncryptedShortcut>,
    pub todos: Vec<EncryptedTodo>,
    pub orphaned_tasks: Vec<String>,
    pub orphaned_shortcuts: Vec<String>,
    pub orphaned_todos: Vec<String>,
}

/// Whether `delta` holds the records that a round sends from one store:
/// every row in store order, deleted ones included, where a full
/// synchronisation is due; else exactly the rows changed at or after the
/// watermark, in the order of their last change.
pub open spec fn gathered<R: SyncedRecord>(
    rows: Seq<R>,
    needs_full_sync: bool,
    last_sync: int,
    delta: Seq<R>,
) -> bool {
    if needs_full_sync {
        delta == rows
    } else {
        is_changed_since(rows, last_sync, delta)
    }
}

/// Gathers the local delta of one store.
pub fn gather<R: SyncedRecord>(store: &RecordStore<R>, settings: &FurSettings) -> (delta: Vec<R>)
    ensures
        gathered(store@, settings.needs_full_sync, settings.last_sync as int, delta@),
{
    if settings.needs_full_sync {
        store.fetch_all()
    } else {
        store.fetch_since(settings.last_sync)
    }
}

/// Puts a request together.
pub fn build_request(
    last_sync: i64,
    device_id: String,
    tasks: Vec<EncryptedTask>,
    shortcuts: Vec<EncryptedShortcut>,
    todos: Vec<EncryptedTodo>,
) -> (request: SyncRequest)
    ensures
        request.last_sync == last_sync,
        request.device_id == device_id,
        request.tasks == tasks,
        request.shortcuts == shortcuts,
        request.todos == todos,
{
    SyncRequest { last_sync, device_id, tasks, shortcuts, todos }
}

/// `n`, or the greatest `usize` where `n` is greater.
pub open spec fn capped(n: int) -> int {
    if n <= usize::MAX {
        n
    } else {
        usize::MAX as int
    }
}

/// The number of records that a request carries, capped at the greatest
/// `usize`.
pub open spec fn spec_request_count(request: SyncRequest) -> int {
    capped((request.tasks@.len() + request.shortcuts@.len() + request.todos@.len()) as int)
}

/// Counts the records that a request carries.
pub fn request_count(request: &SyncRequest) -> (count: usize)
    ensures
        count == spec_request_count(*request),
{
    request.tasks.len().saturating_add(request.shortcuts.len()).saturating_add(request.todos.len())
}

/// An optional text as an optional sequence of characters.
pub open spec fn text_view(text: Option<String>) -> Option<Seq<char>> {
    match text {
        Some(t) => Some(t@),
        None => None,
    }
}

/// How a refused request is classified from the `error` and `message` fields
/// of the server's answer: an inactive subscription where `error` says so,
/// with the server's message or a standard one; any other refusal is a
/// server failure.
pub open spec fn spec_sync_failure(error: Option<Seq<char>>, message: Option<Seq<char>>) -> ApiErrorView {
    if error == Some("inactive_subscription"@) {
        ApiErrorView::InactiveSubscription(
            match message {
                Some(m) => m,
                None => "Subscription inactive"@,
            },
        )
    } else {
        ApiErrorView::Server("Sync failed"@)
    }
}

/// Classifies a refused request.
pub fn sync_failure(error: &Option<String>, message: &Option<String>) -> (failure: ApiError)
    ensures
        failure@ == spec_sync_failure(text_view(*error), text_view(*message)),
{
    let inactive = match error {
        Some(kind) => same_text(kind.as_str(), "inactive_subscription"),
        None => false,
    };
    if inactive {
        match message {
            Some(m) => ApiError::InactiveSubscription(m.clone()),
            None => ApiError::InactiveSubscription(String::from_str("Subscription inactive")),
        }
    } else {
        ApiError::Server(String::from_str("Sync failed"))
    }
}

/// Where one transmission stands.
#[derive(Debug, Clone, Copy, PartialEq, Eq, Structural)]
pub enum AttemptState {
    /// The request is on its way with the stored access token.
    Sending,
    /// The server answered 401; a new access token has been asked for.
    Refreshing,
    /// The request is on its way again, with the new access token.
    Resending,
    /// The transmission is over.
    Finished,
}

/// How a transmission of the request ended.
#[derive(Debug)]
pub enum SyncReply {
    /// The request did not reach the server; the text says why.
    Unreachable(String),
    /// The server accepted the request and this is its answer.
    Delivered(SyncResponse),
    /// The server accepted the request, but its answer could not be read.
    Unreadable(String),
    /// The server answered 401.
    Unauthorized,
    /// The server refused the request; `error` and `message` are the fields
    /// of that name in its answer, where it has them.
    Rejected { error: Option<String>, message: Option<String> },
}

/// What happened since the last step.
#[derive(Debug)]
pub enum AttemptEvent {
    /// The request, sent or sent again, ended in this way.
    Reply(SyncReply),
    /// The renewal of the access token ended in this way.
    Refreshed(Result<String, ApiError>),
    /// The new access token could not be stored; the text says why.
    StoreFailed(String),
}

/// What is to be done next.
#[derive(Debug)]
pub enum AttemptAction {
    /// Ask the server for a new access token.
    Refresh,
    /// Store the new access token and send the request again with it.
    StoreAndResend(String),
    /// The attempt succeeded with this answer.
    Accept(SyncResponse),
    /// The attempt failed.
    Fail(ApiError),
}

/// The kinds of events, without what they carry.
#[derive(Debug, Clone, Copy, PartialEq, Eq, Structural)]
pub enum EventKind {
    Unreachable,
    Delivered,
    Unreadable,
    Unauthorized,
    Rejected,
    RefreshedOk,
    RefreshedErr,
    StoreFailed,
}

/// The kinds of actions, without what they carry.
#[derive(Debug, Clone, Copy, PartialEq, Eq, Structural)]
pub enum ActionKind {
    Refresh,
    StoreAndResend,
    Accept,
    Fail,
}

impl AttemptEvent {
    pub open spec fn kind(&self) -> EventKind {
        match *self {
            AttemptEvent::Reply(SyncReply::Unreachable(_)) => EventKind::Unreachable,
            AttemptEvent::Reply(SyncReply::Delivered(_)) => EventKind::Delivered,
            AttemptEvent::Reply(SyncReply::Unreadable(_)) => EventKind::Unreadable,
            AttemptEvent::Reply(SyncReply::Unauthorized) => EventKind::Unauthorized,
            AttemptEvent::Reply(SyncReply::Rejected { .. }) => EventKind::Rejected,
            AttemptEvent::Refreshed(Ok(_)) => EventKind::RefreshedOk,
            AttemptEvent::Refreshed(Err(_)) => EventKind::RefreshedErr,
            AttemptEvent::StoreFailed(_) => EventKind::StoreFailed,
        }
    }
}

impl AttemptAction {
    pub open spec fn kind(&self) -> ActionKind {
        match *self {
            AttemptAction::Refresh => ActionKind::Refresh,
            AttemptAction::StoreAndResend(_) => ActionKind::StoreAndResend,
            AttemptAction::Accept(_) => ActionKind::Accept,
            AttemptAction::Fail(_) => ActionKind::Fail,
        }
    }
}

/// The action that a state takes on an event. A first 401 asks for a new
/// token; a new token is stored and the request sent again; an answer is
/// accepted; everything else fails the attempt, a second 401 included.
pub open spec fn action_kind(state: AttemptState, event: EventKind) -> ActionKind {
    match (state, event) {
        (AttemptState::Sending, EventKind::Unauthorized) => ActionKind::Refresh,
        (AttemptState::Refreshing, EventKind::RefreshedOk) => ActionKind::StoreAndResend,
        (AttemptState::Sending, EventKind::Delivered) => ActionKind::Accept,
        (AttemptState::Resending, EventKind::Delivered) => ActionKind::Accept,
        _ => ActionKind::Fail,
    }
}

/// The state that follows: the attempt goes on only after `Refresh` and
/// `StoreAndResend`.
pub open spec fn next_state(state: AttemptState, event: EventKind) -> AttemptState {
    match action_kind(state, event) {
        ActionKind::Refresh => AttemptState::Refreshing,
        ActionKind::StoreAndResend => AttemptState::Resending,
        _ => AttemptState::Finished,
    }
}

/// The error with which a failing step fails.
pub open spec fn failure_of(state: AttemptState, event: AttemptEvent) -> ApiErrorView {
    match (state, event) {
        (AttemptState::Sending, AttemptEvent::Reply(SyncReply::Unreachable(text)))
        | (AttemptState::Resending, AttemptEvent::Reply(SyncReply::Unreachable(text)))
        | (AttemptState::Sending, AttemptEvent::Reply(SyncReply::Unreadable(text)))
        | (AttemptState::Resending, AttemptEvent::Reply(SyncReply::Unreadable(text))) => {
            ApiErrorView::Network(text@)
        },
        (AttemptState::Sending, AttemptEvent::Reply(SyncReply::Rejected { error, message }))
        | (AttemptState::Resending, AttemptEvent::Reply(SyncReply::Rejected { error, message })) => {
            spec_sync_failure(text_view(error), text_view(message))
        },
        (AttemptState::Resending, AttemptEvent::Reply(SyncReply::Unauthorized)) => {
            ApiErrorView::TokenRefresh("Failed to refresh token"@)
        },
        (AttemptState::Refreshing, AttemptEvent::Refreshed(Err(e))) => e@,
        (AttemptState::Resending, AttemptEvent::StoreFailed(text)) => ApiErrorView::TokenRefresh(
            text@,
        ),
        _ => ApiErrorView::Server("Sync failed"@),
    }
}

/// One step of a transmission: from the state and what happened to the next
/// state and what to do.
///
/// The request is sent once with the stored token. On 401 a new token is
/// asked for, once; with it the request is sent once more. A second 401, a
/// refused renewal, or a new token that cannot be stored ends the attempt
/// with a `TokenRefresh` error; a refused request ends it as `sync_failure`
/// says; a request that did not arrive, or an answer that cannot be read,
/// ends it with a `Network` error. An event that the state does not expect
/// ends it with a `Server` error.
pub fn sync_with_server(state: AttemptState, event: AttemptEvent) -> (step: (
    AttemptState,
    AttemptAction,
))
    ensures
        step.0 == next_state(state, event.kind()),
        step.1.kind() == action_kind(state, event.kind()),
        step.1 matches AttemptAction::StoreAndResend(token) ==> event matches AttemptEvent::Refreshed(
            Ok(t),
        ) && token == t,
        step.1 matches AttemptAction::Accept(answer) ==> event matches AttemptEvent::Reply(
            SyncReply::Delivered(r),
        ) && answer == r,
        step.1 matches AttemptAction::Fail(e) ==> e@ == failure_of(state, event),
{
    match state {
        AttemptState::Sending => match event {
            AttemptEvent::Reply(SyncReply::Unauthorized) => (
                AttemptState::Refreshing,
                AttemptAction::Refresh,
            ),
            AttemptEvent::Reply(reply) => (AttemptState::Finished, conclude(reply)),
            _ => (AttemptState::Finished, AttemptAction::Fail(unexpected())),
        },
        AttemptState::Refreshing => match event {
            AttemptEvent::Refreshed(Ok(token)) => (
                AttemptState::Resending,
                AttemptAction::StoreAndResend(token),
            ),
            AttemptEvent::Refreshed(Err(e)) => (AttemptState::Finished, AttemptAction::Fail(e)),
            _ => (AttemptState::Finished, AttemptAction::Fail(unexpected())),
        },
        AttemptState::Resending => match event {
            AttemptEvent::Reply(SyncReply::Unauthorized) => (
                AttemptState::Finished,
                AttemptAction::Fail(
                    ApiError::TokenRefresh(String::from_str("Failed to refresh token")),
                ),
            ),
            AttemptEvent::Reply(reply) => (AttemptState::Finished, conclude(reply)),
            AttemptEvent::StoreFailed(text) => (
                AttemptState::Finished,
                AttemptAction::Fail(ApiError::TokenRefresh(text)),
            ),
            _ => (AttemptState::Finished, AttemptAction::Fail(unexpected())),
        },
        AttemptState::Finished => (AttemptState::Finished, AttemptAction::Fail(unexpected())),
    }
}

/// The error for an event that the state does not expect.
fn unexpected() -> (e: ApiError)
    ensures
        e@ == ApiErrorView::Server("Sync failed"@),
{
    ApiError::Server(String::from_str("Sync failed"))
}

/// How a reply other than 401 ends the attempt.
fn conclude(reply: SyncReply) -> (action: AttemptAction)
    requires
        !(reply is Unauthorized),
    ensures
        match reply {
            SyncReply::Delivered(r) => action == AttemptAction::Accept(r),
            SyncReply::Unreachable(text) => action matches AttemptAction::Fail(e) && e@
                == ApiErrorView::Network(text@),
            SyncReply::Unreadable(text) => action matches AttemptAction::Fail(e) && e@
                == ApiErrorView::Network(text@),
            SyncReply::Rejected { error, message } => action matches AttemptAction::Fail(e) && e@
                == spec_sync_failure(text_view(error), text_view(message)),
            SyncReply::Unauthorized => false,
        },
{
    match reply {
        SyncReply::Delivered(answer) => AttemptAction::Accept(answer),
        SyncReply::Unreachable(text) => AttemptAction::Fail(ApiError::Network(text)),
        SyncReply::Unreadable(text) => AttemptAction::Fail(ApiError::Network(text)),
        SyncReply::Rejected { error, message } => AttemptAction::Fail(
            sync_failure(&error, &message),
        ),
        SyncReply::Unauthorized => AttemptAction::Fail(unexpected()),
    }
}

/// The state of a transmission after a run of events.
pub open spec fn state_after(state: AttemptState, events: Seq<EventKind>) -> AttemptState
    decreases events.len(),
{
    if events.len() == 0 {
        state
    } else {
        state_after(next_state(state, events[0]), events.subrange(1, events.len() as int))
    }
}

/// How often a run of events makes the transmission take an action of the
/// given kind.
pub open spec fn times(state: AttemptState, events: Seq<EventKind>, kind: ActionKind) -> nat
    decreases events.len(),
{
    if events.len() == 0 {
        0
    } else {
        let now: nat = if action_kind(state, events[0]) == kind {
            1
        } else {
            0
        };
        now + times(next_state(state, events[0]), events.subrange(1, events.len() as int), kind)
    }
}

/// The steps that a transmission in this state can take at most before it
/// is over.
pub open spec fn steps_left(state: AttemptState) -> nat {
    match state {
        AttemptState::Sending => 3,
        AttemptState::Refreshing => 2,
        AttemptState::Resending => 1,
        AttemptState::Finished => 0,
    }
}

/// Every step brings a transmission that is not over closer to its end, and
/// one that is over stays so.
pub proof fn lemma_step_descends(state: AttemptState, event: EventKind)
    ensures
        state != AttemptState::Finished ==> steps_left(next_state(state, event)) < steps_left(state),
        state == AttemptState::Finished ==> next_state(state, event) == AttemptState::Finished,
{
}

/// A transmission is over after as many events as it had steps left,
/// whatever the events were.
pub proof fn lemma_attempt_ends(state: AttemptState, events: Seq<EventKind>)
    requires
        events.len() >= steps_left(state),
    ensures
        state_after(state, events) == AttemptState::Finished,
    decreases events.len(),
{
    if events.len() > 0 {
        lemma_step_descends(state, events[0]);
        lemma_attempt_ends(next_state(state, events[0]), events.subrange(1, events.len() as int));
    }
}

/// From any state and on any run of events, a new token is asked for at most
/// once, and only if the request has not been answered yet; the request is
/// sent again at most once; and an answer is accepted at most once, and
/// never once the transmission is over.
pub proof fn lemma_times_bounded(state: AttemptState, events: Seq<EventKind>)
    ensures
        times(state, events, ActionKind::Refresh) <= if state == AttemptState::Sending {
            1nat
        } else {
            0nat
        },
        times(state, events, ActionKind::StoreAndResend) <= if state == AttemptState::Sending
            || state == AttemptState::Refreshing {
            1nat
        } else {
            0nat
        },
        times(state, events, ActionKind::Accept) <= if state == AttemptState::Finished {
            0nat
        } else {
            1nat
        },
    decreases events.len(),
{
    if events.len() > 0 {
        lemma_times_bounded(next_state(state, events[0]), events.subrange(1, events.len() as int));
    }
}

/// The token refresh flow. Whatever happens after the request has been
/// sent, the transmission asks for a new token at most once and sends the
/// request again at most once, and it is over after three events at the
/// latest: there is no retry loop. If the first answer is 401, the renewal
/// succeeds and the second answer is 401 again, the three steps are: ask
/// for a new token, store it and send again, fail.
pub proof fn lemma_token_refresh_flow(events: Seq<EventKind>)
    ensures
        times(AttemptState::Sending, events, ActionKind::Refresh) <= 1,
        times(AttemptState::Sending, events, ActionKind::StoreAndResend) <= 1,
        events.len() >= 3 ==> state_after(AttemptState::Sending, events) == AttemptState::Finished,
        events.len() >= 3 && events[0] == EventKind::Unauthorized && events[1]
            == EventKind::RefreshedOk && events[2] == EventKind::Unauthorized ==> {
            &&& action_kind(AttemptState::Sending, events[0]) == ActionKind::Refresh
            &&& action_kind(AttemptState::Refreshing, events[1]) == ActionKind::StoreAndResend
            &&& action_kind(AttemptState::Resending, events[2]) == ActionKind::Fail
            &&& next_state(AttemptState::Resending, events[2]) == AttemptState::Finished
        },
{
    lemma_times_bounded(AttemptState::Sending, events);
    if events.len() >= 3 {
        lemma_attempt_ends(AttemptState::Sending, events);
    }
}

/// Which round of a cycle is under way.
#[derive(Debug, Clone, Copy, PartialEq, Eq, Structural)]
pub enum Round {
    /// The round that sends the local delta.
    First,
    /// The one further round that sends again what the server reported as
    /// orphaned.
    Orphans,
}

/// A synchronisation cycle under way: its round, and the number of records
/// exchanged so far.
#[derive(Debug, Clone, Copy, PartialEq, Eq, Structural)]
pub struct SyncCycle {
    pub round: Round,
    pub sync_count: usize,
}

/// The local changes that a round is to send, and the data key to seal them
/// with.
pub struct LocalDelta {
    pub key: String,
    pub tasks: Vec<FurTask>,
    pub shortcuts: Vec<FurShortcut>,
    pub todos: Vec<FurTodo>,
}

/// How a request for synchronisation begins.
pub enum SyncStart {
    /// Nobody is logged in; nothing happens.
    NotLoggedIn,
    /// The data key could not be recovered; the cycle is over.
    KeyUnavailable,
    /// The local delta has been gathered and is ready to be sealed.
    Ready(LocalDelta),
}

/// The user's data key, recovered from its stored form on the device with
/// the given identity; `None` where there is no identity or the key does
/// not unwrap.
pub open spec fn data_key(user: FurUser, device: Result<String, CryptoError>) -> Option<Seq<char>> {
    match device {
        Ok(id) => spec_unwrap(user.encrypted_key@, user.key_nonce@, id@),
        Err(_) => None,
    }
}

/// Recovers the user's data key.
pub fn unlock_key(user: &FurUser, device: &Result<String, CryptoError>) -> (key: Option<String>)
    ensures
        match key {
            Some(k) => data_key(*user, *device) == Some(k@),
            None => data_key(*user, *device) is None,
        },
{
    match device {
        Ok(id) => match decrypt_encryption_key(
            user.encrypted_key.as_str(),
            user.key_nonce.as_str(),
            id.as_str(),
        ) {
            Ok(key) => Some(key),
            Err(_) => None,
        },
        Err(_) => None,
    }
}

/// Begins a synchronisation cycle. Without a user nothing happens. With
/// one, the data key is recovered; where that fails the status line says
/// so and the watermark is not touched. Otherwise the status line shows
/// "syncing" and the local delta is gathered from the three stores: all
/// rows where a full synchronisation is due, else those changed since the
/// watermark. Settings, credentials and stores are left as they are.
pub fn request_sync(state: &mut FurState, device: &Result<String, CryptoError>) -> (start: SyncStart)
    ensures
        final(state).settings == old(state).settings,
        final(state).user == old(state).user,
        final(state).user_fields == old(state).user_fields,
        final(state).tasks == old(state).tasks,
        final(state).shortcuts == old(state).shortcuts,
        final(state).todos == old(state).todos,
        match old(state).user {
            None => start is NotLoggedIn && final(state).sync_message == old(state).sync_message,
            Some(user) => match data_key(user, *device) {
                None => start is KeyUnavailable && final(state).sync_message
                    == SyncMessage::Negative(Notice::ErrorDecryptingKey),
                Some(key) => {
                    &&& final(state).sync_message == SyncMessage::Positive(Notice::Syncing)
                    &&& start matches SyncStart::Ready(delta)
                    &&& delta.key@ == key
                    &&& gathered(
                        old(state).tasks@,
                        old(state).settings.needs_full_sync,
                        old(state).settings.last_sync as int,
                        delta.tasks@,
                    )
                    &&& gathered(
                        old(state).shortcuts@,
                        old(state).settings.needs_full_sync,
                        old(state).settings.last_sync as int,
                        delta.shortcuts@,
                    )
                    &&& gathered(
                        old(state).todos@,
                        old(state).settings.needs_full_sync,
                        old(state).settings.last_sync as int,
                        delta.todos@,
                    )
                },
            },
        },
{
    let unlocked = match &state.user {
        None => {
            return SyncStart::NotLoggedIn;
        },
        Some(user) => unlock_key(user, device),
    };
    state.sync_message = SyncMessage::Positive(Notice::Syncing);
    match unlocked {
        None => {
            state.sync_message = SyncMessage::Negative(Notice::ErrorDecryptingKey);
            SyncStart::KeyUnavailable
        },
        Some(key) => {
            let tasks = gather(&state.tasks, &state.settings);
            let shortcuts = gather(&state.shortcuts, &state.settings);
            let todos = gather(&state.todos, &state.settings);
            SyncStart::Ready(LocalDelta { key, tasks, shortcuts, todos })
        },
    }
}

/// The start of a cycle: its first round, with the number of records that
/// the request carries.
pub fn begin_cycle(request: &SyncRequest) -> (cycle: SyncCycle)
    ensures
        cycle.round == Round::First,
        cycle.sync_count == spec_request_count(*request),
{
    SyncCycle { round: Round::First, sync_count: request_count(request) }
}

/// The cycle once the request of its further round has been put together:
/// the records that the request carries count as exchanged.
pub fn count_request(cycle: SyncCycle, request: &SyncRequest) -> (counted: SyncCycle)
    ensures
        counted.round == cycle.round,
        counted.sync_count == capped(cycle.sync_count + spec_request_count(*request)),
{
    SyncCycle {
        round: cycle.round,
        sync_count: cycle.sync_count.saturating_add(request_count(request)),
    }
}

/// The server's changes with every envelope opened: for each, the record's
/// bytes, or `None` where it did not decrypt.
pub struct OpenedResponse {
    pub tasks: Vec<Option<Vec<u8>>>,
    pub shortcuts: Vec<Option<Vec<u8>>>,
    pub todos: Vec<Option<Vec<u8>>>,
}

/// Opens the envelopes of the server's answer with the user's data key.
/// Without a user, or where the data key cannot be recovered, nothing is
/// opened and the status line says why. An envelope that does not decrypt
/// does not stop the others.
pub fn open_response(
    state: &mut FurState,
    device: &Result<String, CryptoError>,
    response: &SyncResponse,
) -> (opened: Option<OpenedResponse>)
    ensures
        final(state).settings == old(state).settings,
        final(state).user == old(state).user,
        final(state).user_fields == old(state).user_fields,
        final(state).tasks == old(state).tasks,
        final(state).shortcuts == old(state).shortcuts,
        final(state).todos == old(state).todos,
        match old(state).user {
            None => opened is None && final(state).sync_message == SyncMessage::Negative(
                Notice::LogInFirst,
            ),
            Some(user) => match data_key(user, *device) {
                None => opened is None && final(state).sync_message == SyncMessage::Negative(
                    Notice::ErrorDecryptingKey,
                ),
                Some(key) => {
                    &&& final(state).sync_message == old(state).sync_message
                    &&& opened matches Some(o)
                    &&& opened_batch(response.tasks@, o.tasks@, key)
                    &&& opened_batch(response.shortcuts@, o.shortcuts@, key)
                    &&& opened_batch(response.todos@, o.todos@, key)
                },
            },
        },
{
    let unlocked = match &state.user {
        None => {
            state.sync_message = SyncMessage::Negative(Notice::LogInFirst);
            return None;
        },
        Some(user) => unlock_key(user, device),
    };
    match unlocked {
        None => {
            state.sync_message = SyncMessage::Negative(Notice::ErrorDecryptingKey);
            None
        },
        Some(key) => {
            let tasks = decrypt_batch(&response.tasks, key.as_str());
            let shortcuts = decrypt_batch(&response.shortcuts, key.as_str());
            let todos = decrypt_batch(&response.todos, key.as_str());
            Some(OpenedResponse { tasks, shortcuts, todos })
        },
    }
}

/// The server's answer after its envelopes have been opened and their bytes
/// read as records: `None` stands for a record that could not be decrypted
/// or read.
pub struct Incoming {
    pub server_timestamp: i64,
    pub tasks: Vec<Option<FurTask>>,
    pub shortcuts: Vec<Option<FurShortcut>>,
    pub todos: Vec<Option<FurTodo>>,
    pub orphaned_tasks: Vec<String>,
    pub orphaned_shortcuts: Vec<String>,
    pub orphaned_todos: Vec<String>,
}

/// The writes that reconciliation made to the three stores, in order.
pub struct Written {
    pub tasks: Vec<WriteOp<FurTask>>,
    pub shortcuts: Vec<WriteOp<FurShortcut>>,
    pub todos: Vec<WriteOp<FurTodo>>,
}

/// The local records that a further round sends again.
pub struct OrphanDelta {
    pub last_sync: i64,
    pub tasks: Vec<FurTask>,
    pub shortcuts: Vec<FurShortcut>,
    pub todos: Vec<FurTodo>,
}

/// What follows the end of a round.
pub enum CycleAction {
    /// The server named orphans that exist locally: persist `written`, then
    /// send `orphans` in one further round with the new watermark.
    Resync { written: Written, orphans: OrphanDelta, cycle: SyncCycle },
    /// The cycle succeeded: persist `written`, and the watermark together
    /// with the cleared full-synchronisation flag.
    Completed { written: Written, sync_count: usize },
    /// The credentials are no longer valid: tell the server, as far as it
    /// listens, that `user` logs out, and delete the stored credentials.
    Reauthenticate { user: FurUser },
    /// The cycle failed; nothing is to be persisted.
    Failed,
}

/// Whether an error means that the credentials were invalidated remotely.
pub open spec fn demands_login(error: ApiErrorView) -> bool {
    error == ApiErrorView::TokenRefresh("Failed to refresh token"@)
}

/// Whether an error means that the credentials were invalidated remotely.
pub fn requires_login(error: &ApiError) -> (r: bool)
    ensures
        r == demands_login(error@),
{
    match error {
        ApiError::TokenRefresh(text) => same_text(text.as_str(), "Failed to refresh token"),
        _ => false,
    }
}

/// The notice for a failed cycle.
pub open spec fn failure_notice(error: ApiErrorView) -> Notice {
    if demands_login(error) {
        Notice::ReauthenticateError
    } else if error is InactiveSubscription {
        Notice::SubscriptionInactive
    } else {
        Notice::SyncFailed
    }
}

/// Whether a round is followed by one more: only the first round is, and
/// only if the server named orphans of which some exist locally.
pub open spec fn follows_up(round: Round, orphans_found: nat) -> bool {
    round == Round::First && orphans_found > 0
}

/// Applies the server's records to the three stores, each store on its
/// own, and returns the writes made.
fn reconcile_all(state: &mut FurState, incoming: &Incoming) -> (written: Written)
    ensures
        final(state).tasks@ == applied(old(state).tasks@, incoming.tasks@),
        final(state).shortcuts@ == applied(old(state).shortcuts@, incoming.shortcuts@),
        final(state).todos@ == applied(old(state).todos@, incoming.todos@),
        written.tasks@ == writes(old(state).tasks@, incoming.tasks@),
        written.shortcuts@ == writes(old(state).shortcuts@, incoming.shortcuts@),
        written.todos@ == writes(old(state).todos@, incoming.todos@),
        final(state).settings == old(state).settings,
        final(state).user == old(state).user,
        final(state).user_fields == old(state).user_fields,
        final(state).sync_message == old(state).sync_message,
{
    let tasks = apply_delta(&mut state.tasks, &incoming.tasks);
    let shortcuts = apply_delta(&mut state.shortcuts, &incoming.shortcuts);
    let todos = apply_delta(&mut state.todos, &incoming.todos);
    Written { tasks, shortcuts, todos }
}

/// The number of records exchanged once the writes of a round are counted
/// in.
fn add_writes(count: usize, written: &Written) -> (sum: usize)
    ensures
        sum == capped(
            count + written.tasks@.len() + written.shortcuts@.len() + written.todos@.len(),
        ),
{
    count.saturating_add(written.tasks.len()).saturating_add(
        written.shortcuts.len(),
    ).saturating_add(written.todos.len())
}

/// Looks up the local rows that carry an identifier the server reported as
/// orphaned.
fn find_orphans(state: &FurState, incoming: &Incoming) -> (orphans: OrphanDelta)
    ensures
        orphans.last_sync == incoming.server_timestamp,
        orphans.tasks@ == rows_with_uids(state.tasks@, incoming.orphaned_tasks.deep_view()),
        orphans.shortcuts@ == rows_with_uids(
            state.shortcuts@,
            incoming.orphaned_shortcuts.deep_view(),
        ),
        orphans.todos@ == rows_with_uids(state.todos@, incoming.orphaned_todos.deep_view()),
{
    OrphanDelta {
        last_sync: incoming.server_timestamp,
        tasks: state.tasks.fetch_by_ids(&incoming.orphaned_tasks),
        shortcuts: state.shortcuts.fetch_by_ids(&incoming.orphaned_shortcuts),
        todos: state.todos.fetch_by_ids(&incoming.orphaned_todos),
    }
}

/// Completes a cycle: the watermark becomes the server's clock and the
/// full-synchronisation flag is cleared, both at once, and the status line
/// reports the number of records exchanged.
fn close_cycle(state: &mut FurState, server_timestamp: i64, sync_count: usize)
    ensures
        final(state).settings == (FurSettings {
            last_sync: server_timestamp,
            needs_full_sync: false,
            ..old(state).settings
        }),
        final(state).sync_message == SyncMessage::Positive(Notice::SyncSuccessful(sync_count)),
        final(state).user == old(state).user,
        final(state).user_fields == old(state).user_fields,
        final(state).tasks == old(state).tasks,
        final(state).shortcuts == old(state).shortcuts,
        final(state).todos == old(state).todos,
{
    state.settings.last_sync = server_timestamp;
    state.settings.needs_full_sync = false;
    state.sync_message = SyncMessage::Positive(Notice::SyncSuccessful(sync_count));
}

/// Ends a cycle that failed: the status line names the failure, and where
/// the failure demands a new login the user is logged out here.
fn fail_cycle(state: &mut FurState, error: ApiError) -> (action: CycleAction)
    ensures
        failed(*old(state), error, *final(state), action),
{
    if requires_login(&error) {
        match state.user.take() {
            Some(user) => {
                state.user_fields = FurUserFields::default();
                state.sync_message = SyncMessage::Negative(Notice::ReauthenticateError);
                CycleAction::Reauthenticate { user }
            },
            None => CycleAction::Failed,
        }
    } else {
        let notice = match error {
            ApiError::InactiveSubscription(_) => Notice::SubscriptionInactive,
            _ => Notice::SyncFailed,
        };
        state.sync_message = SyncMessage::Negative(notice);
        CycleAction::Failed
    }
}

/// What the end of a round on an answer of the server comes to.
///
/// The server's records are applied to the three stores by last-write-wins,
/// each store on its own, and the user and the login form stay as they are.
/// Then the local rows that carry an identifier the server reported as
/// orphaned are looked up. In the first round, if there are any, they are
/// handed back for one further round with the server's clock as watermark,
/// and settings and status line stay as they are. In every other case the
/// cycle is complete: the watermark becomes the server's clock and the
/// full-synchronisation flag is cleared, both at once, and the status line
/// reports the number of records exchanged.
pub open spec fn settled(
    before: FurState,
    cycle: SyncCycle,
    incoming: Incoming,
    after: FurState,
    action: CycleAction,
) -> bool {
    let tasks = applied(before.tasks@, incoming.tasks@);
    let shortcuts = applied(before.shortcuts@, incoming.shortcuts@);
    let todos = applied(before.todos@, incoming.todos@);
    let wrote = writes(before.tasks@, incoming.tasks@).len() + writes(
        before.shortcuts@,
        incoming.shortcuts@,
    ).len() + writes(before.todos@, incoming.todos@).len();
    let orphan_tasks = rows_with_uids(tasks, incoming.orphaned_tasks.deep_view());
    let orphan_shortcuts = rows_with_uids(shortcuts, incoming.orphaned_shortcuts.deep_view());
    let orphan_todos = rows_with_uids(todos, incoming.orphaned_todos.deep_view());
    let count = capped(cycle.sync_count + wrote);
    &&& after.tasks@ == tasks
    &&& after.shortcuts@ == shortcuts
    &&& after.todos@ == todos
    &&& after.user == before.user
    &&& before.user is Some ==> after.auth_state() == AuthState::LoggedIn
    &&& after.user_fields == before.user_fields
    &&& if follows_up(
        cycle.round,
        orphan_tasks.len() + orphan_shortcuts.len() + orphan_todos.len(),
    ) {
        &&& after.settings == before.settings
        &&& after.sync_message == before.sync_message
        &&& action matches CycleAction::Resync { written, orphans, cycle: next }
        &&& written.tasks@ == writes(before.tasks@, incoming.tasks@)
        &&& written.shortcuts@ == writes(before.shortcuts@, incoming.shortcuts@)
        &&& written.todos@ == writes(before.todos@, incoming.todos@)
        &&& orphans.last_sync == incoming.server_timestamp
        &&& orphans.tasks@ == orphan_tasks
        &&& orphans.shortcuts@ == orphan_shortcuts
        &&& orphans.todos@ == orphan_todos
        &&& next.round == Round::Orphans
        &&& next.sync_count == count
    } else {
        &&& after.settings == (FurSettings {
            last_sync: incoming.server_timestamp,
            needs_full_sync: false,
            ..before.settings
        })
        &&& after.sync_message == SyncMessage::Positive(Notice::SyncSuccessful(count as usize))
        &&& action matches CycleAction::Completed { written, sync_count }
        &&& written.tasks@ == writes(before.tasks@, incoming.tasks@)
        &&& written.shortcuts@ == writes(before.shortcuts@, incoming.shortcuts@)
        &&& written.todos@ == writes(before.todos@, incoming.todos@)
        &&& sync_count == count
    }
}

/// What the end of a round on an error comes to.
///
/// Nothing is applied and the settings stay as they are. Where the error
/// says that the credentials were invalidated, the user is logged out and
/// the login form is reset; an inactive subscription and every other
/// failure leave the credentials alone. The status line names the failure.
pub open spec fn failed(before: FurState, error: ApiError, after: FurState, action: CycleAction) -> bool {
    &&& after.settings == before.settings
    &&& after.tasks == before.tasks
    &&& after.shortcuts == before.shortcuts
    &&& after.todos == before.todos
    &&& if demands_login(error@) {
        match before.user {
            Some(user) => {
                &&& after.user is None
                &&& after.auth_state() == AuthState::LoggedOut
                &&& after.user_fields.is_blank()
                &&& after.sync_message == SyncMessage::Negative(Notice::ReauthenticateError)
                &&& action == (CycleAction::Reauthenticate { user })
            },
            None => {
                &&& after.user is None
                &&& after.user_fields == before.user_fields
                &&& after.sync_message == before.sync_message
                &&& action is Failed
            },
        }
    } else {
        &&& after.user == before.user
        &&& after.user_fields == before.user_fields
        &&& after.sync_message == SyncMessage::Negative(failure_notice(error@))
        &&& action is Failed
    }
}

/// Ends a round on an answer of the server.
fn settle(state: &mut FurState, cycle: SyncCycle, incoming: Incoming) -> (action: CycleAction)
    ensures
        settled(*old(state), cycle, incoming, *final(state), action),
{
    let written = reconcile_all(state, &incoming);
    let sync_count = add_writes(cycle.sync_count, &written);
    let orphans = find_orphans(state, &incoming);
    let found = orphans.tasks.len() > 0 || orphans.shortcuts.len() > 0 || orphans.todos.len() > 0;
    let first = match cycle.round {
        Round::First => true,
        Round::Orphans => false,
    };
    if first && found {
        CycleAction::Resync { written, orphans, cycle: SyncCycle { round: Round::Orphans, sync_count } }
    } else {
        close_cycle(state, incoming.server_timestamp, sync_count);
        CycleAction::Completed { written, sync_count }
    }
}

/// Ends a round.
///
/// On an answer, the server's records are applied to the three stores by
/// last-write-wins, each store on its own. Then the local rows that carry an
/// identifier the server reported as orphaned are looked up. In the first
/// round, if there are any, they are handed back for one further round with
/// the server's clock as watermark, and the settings stay as they are. In
/// every other case the cycle is complete: the watermark becomes the
/// server's clock and the full-synchronisation flag is cleared, both at
/// once, and the status line reports the number of records exchanged.
///
/// On an error nothing is applied and the settings stay as they are. Where
/// the error says that the credentials were invalidated, the user is logged
/// out here and the login form is reset; an inactive subscription and every
/// other failure leave the credentials alone. The status line names the
/// failure.
pub fn process_sync_result(
    state: &mut FurState,
    cycle: SyncCycle,
    result: Result<Incoming, ApiError>,
) -> (action: CycleAction)
    ensures
        match result {
            Ok(incoming) => settled(*old(state), cycle, incoming, *final(state), action),
            Err(error) => failed(*old(state), error, *final(state), action),
        },
{
    match result {
        Ok(incoming) => settle(state, cycle, incoming),
        Err(error) => fail_cycle(state, error),
    }
}

/// The round that follows a round after which `orphans_found` local
/// orphans turned up, if one follows.
pub open spec fn round_after(round: Round, orphans_found: nat) -> Option<Round> {
    if follows_up(round, orphans_found) {
        Some(Round::Orphans)
    } else {
        None
    }
}

/// The number of rounds that a cycle makes from the round under way, where
/// `found[k]` local orphans turn up after the round `k` rounds from now, and
/// none after later ones.
pub open spec fn rounds_made(round: Round, found: Seq<nat>) -> nat
    decreases found.len(),
{
    if found.len() == 0 {
        1
    } else {
        match round_after(round, found[0]) {
            Some(next) => 1 + rounds_made(next, found.subrange(1, found.len() as int)),
            None => 1,
        }
    }
}

/// The orphan bound. However often the server reports orphans, a cycle makes
/// its first round and at most one more: exactly one more where orphans
/// turn up after the first round, and none after the further round, whatever
/// that round's answer reports.
pub proof fn lemma_orphan_bound(found: Seq<nat>)
    ensures
        rounds_made(Round::Orphans, found) == 1,
        rounds_made(Round::First, found) <= 2,
        rounds_made(Round::First, found) == 2 <==> found.len() > 0 && found[0] > 0,
{
    if found.len() > 0 {
        let rest = found.subrange(1, found.len() as int);
        assert(rounds_made(Round::Orphans, rest) == 1) by {
            if rest.len() > 0 {
                assert(round_after(Round::Orphans, rest[0]) is None);
            }
        }
        assert(round_after(Round::Orphans, found[0]) is None);
    }
}

/// The logged-in user as the credential store gives it: the stored user, or
/// nobody where the store could not be read.
pub fn get_user(retrieved: Result<Option<FurUser>, String>) -> (user: Option<FurUser>)
    ensures
        user == match retrieved {
            Ok(stored) => stored,
            Err(_) => None,
        },
{
    match retrieved {
        Ok(stored) => stored,
        Err(_) => None,
    }
}

/// The login form for a user: the user's email and server, a mask in place
/// of the key, and the official server selected exactly where the user's
/// server is the official one. Without a user, the empty form.
pub fn get_user_fields(user: &Option<FurUser>) -> (fields: FurUserFields)
    ensures
        match *user {
            Some(u) => {
                &&& fields.email == u.email
                &&& fields.encryption_key@ == "xxxxxxxxxxxxxxxxxxxxxxxxxxxxxxxx"@
                &&& fields.server == u.server
                &&& fields.server_selection == if u.server@ == "https://sync.furtherance.app"@ {
                    ServerChoices::Official
                } else {
                    ServerChoices::Custom
                }
            },
            None => fields.is_blank(),
        },
{
    match user {
        Some(u) => FurUserFields {
            email: u.email.clone(),
            encryption_key: String::from_str(masked_key()),
            server: u.server.clone(),
            server_selection: if same_text(u.server.as_str(), official_server()) {
                ServerChoices::Official
            } else {
                ServerChoices::Custom
            },
        },
        None => FurUserFields::default(),
    }
}

/// Logs the user out locally. The stored credentials are to be deleted.
pub fn reset_user(state: &mut FurState)
    ensures
        final(state).user is None,
        final(state).user_fields == old(state).user_fields,
        final(state).settings == old(state).settings,
        final(state).sync_message == old(state).sync_message,
        final(state).tasks == old(state).tasks,
        final(state).shortcuts == old(state).shortcuts,
        final(state).todos == old(state).todos,
{
    state.user = None;
}

/// Keeps synchronisation to one round-trip at a time and the periodic loop
/// to one instance.
#[derive(Debug, Clone, Copy, PartialEq, Eq, Structural)]
pub struct SyncScheduler {
    /// The periodic loop has been started.
    pub started: bool,
    /// A cycle is under way.
    pub in_flight: bool,
    /// A cycle was asked for while another was under way.
    pub pending: bool,
}

impl SyncScheduler {
    /// A scheduler that has started nothing.
    pub fn new() -> (scheduler: SyncScheduler)
        ensures
            scheduler == (SyncScheduler { started: false, in_flight: false, pending: false }),
    {
        SyncScheduler { started: false, in_flight: false, pending: false }
    }

    /// Asks for a cycle. The answer is `true` where none is under way: the
    /// cycle may begin and is now under way. Where one is under way, the
    /// request is remembered and the answer is `false`: requests that
    /// overlap a cycle are folded into one that follows it.
    pub fn try_begin(&mut self) -> (begin: bool)
        ensures
            begin == !old(self).in_flight,
            final(self).in_flight,
            final(self).started == old(self).started,
            final(self).pending == (old(self).pending || old(self).in_flight),
    {
        if self.in_flight {
            self.pending = true;
            false
        } else {
            self.in_flight = true;
            true
        }
    }

    /// Records that the cycle under way is over. The answer is `true` where
    /// a cycle was asked for meanwhile: one more is to be requested.
    pub fn finish(&mut self) -> (again: bool)
        ensures
            again == old(self).pending,
            !final(self).in_flight,
            !final(self).pending,
            final(self).started == old(self).started,
    {
        let again = self.pending;
        self.in_flight = false;
        self.pending = false;
        again
    }
}

/// Starts the periodic synchronisation, once: the answer is `true` the
/// first time and `false` ever after.
pub fn schedule_sync(scheduler: &mut SyncScheduler) -> (start: bool)
    ensures
        start == !old(scheduler).started,
        final(scheduler).started,
        final(scheduler).in_flight == old(scheduler).in_flight,
        final(scheduler).pending == old(scheduler).pending,
{
    let start = !scheduler.started;
    scheduler.started = true;
    start
}

/// Whether the periodic loop requests a cycle when its interval has passed:
/// it does while a user is logged in.
pub fn periodic_sync_due(user: &Option<FurUser>) -> (due: bool)
    ensures
        due == user is Some,
{
    user.is_some()
}

/// After a local change: the seconds to wait before a cycle is requested,
/// so that edits in quick succession travel together; `None` where nobody
/// is logged in and nothing is to be requested.
pub fn sync_after_change(user: &Option<FurUser>) -> (delay: Option<u64>)
    ensures
        delay == if user is Some {
            Some(SYNC_DEBOUNCE_SECONDS)
        } else {
            None
        },
{
    if user.is_some() {
        Some(SYNC_DEBOUNCE_SECONDS)
    } else {
        None
    }
}

/// The device's identity for a synchronisation request, or a `Device` error
/// where the device has none: without an identity nothing is sent.
pub fn device_for_sync(device: &Result<String, CryptoError>) -> (id: Result<String, ApiError>)
    ensures
        match *device {
            Ok(text) => id == Ok::<String, ApiError>(text),
            Err(_) => id matches Err(e) && e@ == ApiErrorView::Device(
                "Failed to generate device ID"@,
            ),
        },
{
    match device {
        Ok(text) => Ok(text.clone()),
        Err(_) => Err(ApiError::Device(String::from_str("Failed to generate device ID"))),
    }
}

/// A second 401 ends the attempt with the error that demands a new login.
/// A refused renewal, and a new token that could not be stored, demand one
/// exactly where their text is that of a failed renewal. An unreachable
/// server and a refused request never do.
pub proof fn lemma_what_demands_login(text: String, error: Option<String>, message: Option<String>)
    ensures
        demands_login(
            failure_of(AttemptState::Resending, AttemptEvent::Reply(SyncReply::Unauthorized)),
        ),
        demands_login(
            failure_of(
                AttemptState::Refreshing,
                AttemptEvent::Refreshed(Err(ApiError::TokenRefresh(text))),
            ),
        ) <==> text@ == "Failed to refresh token"@,
        demands_login(failure_of(AttemptState::Resending, AttemptEvent::StoreFailed(text)))
            <==> text@ == "Failed to refresh token"@,
        !demands_login(
            failure_of(AttemptState::Sending, AttemptEvent::Reply(SyncReply::Unreachable(text))),
        ),
        !demands_login(
            failure_of(
                AttemptState::Sending,
                AttemptEvent::Reply(SyncReply::Rejected { error, message }),
            ),
        ),
{
}

} // verus!
