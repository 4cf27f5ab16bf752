use furtherance::database::store::RecordStore;
use furtherance::helpers::server::encryption::{
    decrypt, derive_device_id, encrypt_encryption_key, encrypt_with_nonce, CryptoError,
};
use furtherance::helpers::server::envelope::{
    collect_sealed, decrypt_batch, delta_entry, encrypt_batch, read_record, seal_each, seal_record,
    seal_record_with_nonce, Prepared,
};
use furtherance::helpers::server::persisted::{discount_failed, writes_persisted};
use furtherance::helpers::server::login::ApiError;
use furtherance::helpers::server::status::{
    clear_sync_message, set_negative_sync_message, set_positive_sync_messsage, Notice, SyncMessage,
};
use furtherance::helpers::server::sync::{
    begin_cycle, build_request, count_request, gather, get_user, get_user_fields, open_response,
    periodic_sync_due, process_sync_result, request_count, request_sync, requires_login, reset_user,
    schedule_sync, sync_after_change, sync_failure, sync_with_server, AttemptAction,
    AttemptEvent, AttemptState, CycleAction, Incoming, Round, SyncCycle, SyncReply, SyncResponse,
    SyncScheduler, SyncStart,
};
use furtherance::helpers::text::same_text;
use furtherance::helpers::views::settings::ServerChoices;
use furtherance::models::fur_settings::FurSettings;
use furtherance::models::fur_task::{EncryptedTask, FurTask};
use furtherance::models::fur_todo::{EncryptedTodo, FurTodo};
use furtherance::models::fur_user::FurUser;
use furtherance::models::moment::Moment;
use furtherance::models::rate::Rate;
use furtherance::state::FurState;

fn task(uid: &str, name: &str, last_updated: i64, is_deleted: bool) -> FurTask {
    FurTask {
        name: name.to_string(),
        start_time: Moment { seconds: 1_700_000_000, nanos: 0 },
        stop_time: Moment { seconds: 1_700_003_600, nanos: 0 },
        tags: String::new(),
        project: String::new(),
        rate: Rate { bits: 0 },
        currency: String::new(),
        uid: uid.to_string(),
        is_deleted,
        last_updated,
    }
}

fn todo(uid: &str, last_updated: i64) -> FurTodo {
    FurTodo {
        name: "todo".to_string(),
        project: String::new(),
        tags: String::new(),
        rate: Rate { bits: 0 },
        currency: String::new(),
        date: Moment { seconds: 1_700_000_000, nanos: 0 },
        uid: uid.to_string(),
        is_completed: false,
        is_deleted: false,
        last_updated,
    }
}

fn uids(rows: &[FurTask]) -> Vec<String> {
    rows.iter().map(|t| t.uid.clone()).collect()
}

fn device() -> Result<String, CryptoError> {
    derive_device_id("test-host/tester")
}

fn user_with_key(key: &str) -> FurUser {
    let (encrypted_key, key_nonce) =
        encrypt_encryption_key(key, &device().expect("a device id")).expect("wrapping works");
    FurUser {
        email: "a@example.org".to_string(),
        encrypted_key,
        key_nonce,
        access_token: "access".to_string(),
        refresh_token: "refresh".to_string(),
        server: "https://sync.example.org".to_string(),
    }
}

fn incoming(server_timestamp: i64, tasks: Vec<Option<FurTask>>) -> Incoming {
    Incoming {
        server_timestamp,
        tasks,
        shortcuts: Vec::new(),
        todos: Vec::new(),
        orphaned_tasks: Vec::new(),
        orphaned_shortcuts: Vec::new(),
        orphaned_todos: Vec::new(),
    }
}

fn empty_response() -> SyncResponse {
    SyncResponse {
        server_timestamp: 1,
        tasks: Vec::new(),
        shortcuts: Vec::new(),
        todos: Vec::new(),
        orphaned_tasks: Vec::new(),
        orphaned_shortcuts: Vec::new(),
        orphaned_todos: Vec::new(),
    }
}

fn first_round() -> SyncCycle {
    SyncCycle { round: Round::First, sync_count: 0 }
}

#[test]
fn full_gather_includes_deleted_records() {
    let mut store = RecordStore::new();
    store.insert(task("old", "", 10, false));
    store.insert(task("gone", "", 20, true));
    store.insert(task("new", "", 300, false));
    let mut settings = FurSettings::default();
    settings.change_last_sync(&100);
    settings.change_needs_full_sync(&true);
    assert_eq!(uids(&gather(&store, &settings)), vec!["old", "gone", "new"]);
}

#[test]
fn incremental_gather_takes_what_changed_since_the_watermark() {
    let mut store = RecordStore::new();
    store.insert(task("old", "", 10, false));
    store.insert(task("edge", "", 100, false));
    store.insert(task("gone", "", 150, true));
    store.insert(task("new", "", 300, false));
    let mut settings = FurSettings::default();
    settings.change_last_sync(&100);
    settings.change_needs_full_sync(&false);
    assert_eq!(uids(&gather(&store, &settings)), vec!["edge", "gone", "new"]);
}

#[test]
fn first_unauthorized_reply_asks_for_one_refresh_and_one_retransmission() {
    let (state, action) =
        sync_with_server(AttemptState::Sending, AttemptEvent::Reply(SyncReply::Unauthorized));
    assert_eq!(state, AttemptState::Refreshing);
    assert!(matches!(action, AttemptAction::Refresh));
    let (state, action) =
        sync_with_server(state, AttemptEvent::Refreshed(Ok("new-token".to_string())));
    assert_eq!(state, AttemptState::Resending);
    assert!(matches!(action, AttemptAction::StoreAndResend(ref t) if t == "new-token"));
    let (state, action) =
        sync_with_server(state, AttemptEvent::Reply(SyncReply::Delivered(empty_response())));
    assert_eq!(state, AttemptState::Finished);
    assert!(matches!(action, AttemptAction::Accept(ref r) if r.server_timestamp == 1));
}

#[test]
fn second_unauthorized_reply_fails_with_a_token_refresh_error_and_clears_credentials() {
    let mut refreshes = 0;
    let mut sends = 1;
    let events = vec![
        AttemptEvent::Reply(SyncReply::Unauthorized),
        AttemptEvent::Refreshed(Ok("new-token".to_string())),
        AttemptEvent::Reply(SyncReply::Unauthorized),
    ];
    let mut state = AttemptState::Sending;
    let mut failure = None;
    for event in events {
        let (next, action) = sync_with_server(state, event);
        state = next;
        match action {
            AttemptAction::Refresh => refreshes += 1,
            AttemptAction::StoreAndResend(_) => sends += 1,
            AttemptAction::Accept(_) => panic!("nothing to accept"),
            AttemptAction::Fail(e) => failure = Some(e),
        }
    }
    assert_eq!(state, AttemptState::Finished);
    assert_eq!(refreshes, 1);
    assert_eq!(sends, 2);
    let failure = failure.expect("the attempt failed");
    assert!(matches!(failure, ApiError::TokenRefresh(ref m) if m == "Failed to refresh token"));
    assert!(requires_login(&failure));

    let mut app = FurState::new();
    app.user = Some(user_with_key("k"));
    app.user_fields = get_user_fields(&app.user);
    app.settings.change_last_sync(&7);
    let action = process_sync_result(&mut app, first_round(), Err(failure));
    assert!(matches!(action, CycleAction::Reauthenticate { ref user } if user.email == "a@example.org"));
    assert!(app.user.is_none());
    assert_eq!(app.user_fields.email, "");
    assert_eq!(app.user_fields.server, "https://sync.furtherance.app");
    assert_eq!(app.sync_message, SyncMessage::Negative(Notice::ReauthenticateError));
    assert_eq!(app.settings.last_sync, 7);
}

#[test]
fn finished_attempt_takes_no_further_action() {
    let (state, action) =
        sync_with_server(AttemptState::Finished, AttemptEvent::Reply(SyncReply::Unauthorized));
    assert_eq!(state, AttemptState::Finished);
    assert!(matches!(action, AttemptAction::Fail(ApiError::Server(ref m)) if m == "Sync failed"));
}

#[test]
fn refused_refresh_fails_the_attempt() {
    let (state, action) = sync_with_server(
        AttemptState::Refreshing,
        AttemptEvent::Refreshed(Err(ApiError::TokenRefresh("Failed to refresh token".to_string()))),
    );
    assert_eq!(state, AttemptState::Finished);
    assert!(matches!(action, AttemptAction::Fail(ref e) if requires_login(e)));
}

#[test]
fn token_that_cannot_be_stored_fails_without_demanding_a_login() {
    let (state, action) = sync_with_server(
        AttemptState::Resending,
        AttemptEvent::StoreFailed("database is locked".to_string()),
    );
    assert_eq!(state, AttemptState::Finished);
    match action {
        AttemptAction::Fail(e) => {
            assert!(matches!(e, ApiError::TokenRefresh(ref m) if m == "database is locked"));
            assert!(!requires_login(&e));
        }
        _ => panic!("the attempt fails"),
    }
}

#[test]
fn unreachable_server_is_a_network_error() {
    let (state, action) = sync_with_server(
        AttemptState::Sending,
        AttemptEvent::Reply(SyncReply::Unreachable("connection refused".to_string())),
    );
    assert_eq!(state, AttemptState::Finished);
    assert!(matches!(action, AttemptAction::Fail(ApiError::Network(ref m)) if m == "connection refused"));
    let (_, action) = sync_with_server(
        AttemptState::Sending,
        AttemptEvent::Reply(SyncReply::Unreadable("expected value".to_string())),
    );
    assert!(matches!(action, AttemptAction::Fail(ApiError::Network(ref m)) if m == "expected value"));
}

#[test]
fn out_of_turn_events_fail_the_attempt() {
    let (state, action) =
        sync_with_server(AttemptState::Sending, AttemptEvent::Refreshed(Ok("t".to_string())));
    assert_eq!(state, AttemptState::Finished);
    assert!(matches!(action, AttemptAction::Fail(ApiError::Server(_))));
    let (state, action) =
        sync_with_server(AttemptState::Refreshing, AttemptEvent::StoreFailed("x".to_string()));
    assert_eq!(state, AttemptState::Finished);
    assert!(matches!(action, AttemptAction::Fail(ApiError::Server(_))));
}

#[test]
fn inactive_subscription_is_told_apart_from_other_failures() {
    let e = sync_failure(
        &Some("inactive_subscription".to_string()),
        &Some("Your subscription ended".to_string()),
    );
    assert!(matches!(e, ApiError::InactiveSubscription(ref m) if m == "Your subscription ended"));
    let e = sync_failure(&Some("inactive_subscription".to_string()), &None);
    assert!(matches!(e, ApiError::InactiveSubscription(ref m) if m == "Subscription inactive"));
    let e = sync_failure(&Some("rate_limited".to_string()), &Some("slow down".to_string()));
    assert!(matches!(e, ApiError::Server(ref m) if m == "Sync failed"));
    let e = sync_failure(&None, &Some("inactive_subscription".to_string()));
    assert!(matches!(e, ApiError::Server(ref m) if m == "Sync failed"));
}

#[test]
fn rejected_reply_is_classified_by_its_error_field() {
    let (state, action) = sync_with_server(
        AttemptState::Resending,
        AttemptEvent::Reply(SyncReply::Rejected {
            error: Some("inactive_subscription".to_string()),
            message: None,
        }),
    );
    assert_eq!(state, AttemptState::Finished);
    assert!(matches!(action, AttemptAction::Fail(ApiError::InactiveSubscription(_))));
}

#[test]
fn inactive_subscription_keeps_the_credentials() {
    let mut app = FurState::new();
    app.user = Some(user_with_key("k"));
    let action = process_sync_result(
        &mut app,
        first_round(),
        Err(ApiError::InactiveSubscription("ended".to_string())),
    );
    assert!(matches!(action, CycleAction::Failed));
    assert!(app.user.is_some());
    assert_eq!(app.sync_message, SyncMessage::Negative(Notice::SubscriptionInactive));
}

#[test]
fn network_failure_reports_sync_failed_and_keeps_the_watermark() {
    let mut app = FurState::new();
    app.user = Some(user_with_key("k"));
    app.settings.change_last_sync(&42);
    app.settings.change_needs_full_sync(&false);
    app.tasks.insert(task("a", "local", 50, false));
    let action =
        process_sync_result(&mut app, first_round(), Err(ApiError::Network("timeout".to_string())));
    assert!(matches!(action, CycleAction::Failed));
    assert!(app.user.is_some());
    assert_eq!(app.sync_message, SyncMessage::Negative(Notice::SyncFailed));
    assert_eq!(app.settings.last_sync, 42);
    assert!(!app.settings.needs_full_sync);
    assert_eq!(app.tasks.len(), 1);
}

#[test]
fn reauthentication_without_a_user_does_nothing() {
    let mut app = FurState::new();
    let action = process_sync_result(
        &mut app,
        first_round(),
        Err(ApiError::TokenRefresh("Failed to refresh token".to_string())),
    );
    assert!(matches!(action, CycleAction::Failed));
    assert_eq!(app.sync_message, SyncMessage::Clear);
}

#[test]
fn orphans_cause_exactly_one_further_round() {
    let mut app = FurState::new();
    app.user = Some(user_with_key("k"));
    app.settings.change_last_sync(&10);
    app.tasks.insert(task("a", "local a", 5, false));
    app.tasks.insert(task("b", "local b", 6, false));

    let mut first = incoming(200, vec![Some(task("c", "server c", 7, false))]);
    first.orphaned_tasks = vec!["b".to_string(), "missing".to_string()];
    let cycle = SyncCycle { round: Round::First, sync_count: 2 };
    let action = process_sync_result(&mut app, cycle, Ok(first));
    let next = match action {
        CycleAction::Resync { written, orphans, cycle } => {
            assert_eq!(written.tasks.len(), 1);
            assert_eq!(orphans.last_sync, 200);
            assert_eq!(uids(&orphans.tasks), vec!["b"]);
            assert!(orphans.shortcuts.is_empty());
            assert!(orphans.todos.is_empty());
            assert_eq!(cycle.round, Round::Orphans);
            assert_eq!(cycle.sync_count, 3);
            cycle
        }
        _ => panic!("one further round is due"),
    };
    // Until the cycle is complete the settings stay as they were.
    assert_eq!(app.settings.last_sync, 10);
    assert!(app.settings.needs_full_sync);

    // The further round reports orphans again: no third round follows.
    let mut second = incoming(250, Vec::new());
    second.orphaned_tasks = vec!["a".to_string(), "b".to_string()];
    let action = process_sync_result(&mut app, next, Ok(second));
    match action {
        CycleAction::Completed { written, sync_count } => {
            assert!(written.tasks.is_empty());
            assert_eq!(sync_count, 3);
        }
        _ => panic!("the cycle is complete"),
    }
    assert_eq!(app.settings.last_sync, 250);
    assert!(!app.settings.needs_full_sync);
    assert_eq!(app.sync_message, SyncMessage::Positive(Notice::SyncSuccessful(3)));
}

#[test]
fn orphans_that_do_not_exist_locally_cause_no_further_round() {
    let mut app = FurState::new();
    app.user = Some(user_with_key("k"));
    let mut answer = incoming(200, Vec::new());
    answer.orphaned_todos = vec!["nowhere".to_string()];
    let action = process_sync_result(&mut app, first_round(), Ok(answer));
    assert!(matches!(action, CycleAction::Completed { sync_count: 0, .. }));
    assert_eq!(app.settings.last_sync, 200);
    assert!(!app.settings.needs_full_sync);
}

#[test]
fn orphaned_todos_are_sent_again() {
    let mut app = FurState::new();
    app.todos.insert(todo("t1", 5));
    let mut answer = incoming(300, Vec::new());
    answer.orphaned_todos = vec!["t1".to_string()];
    let action = process_sync_result(&mut app, first_round(), Ok(answer));
    match action {
        CycleAction::Resync { orphans, .. } => {
            assert_eq!(orphans.todos.len(), 1);
            assert_eq!(orphans.todos[0].uid, "t1");
            assert!(orphans.tasks.is_empty());
        }
        _ => panic!("one further round is due"),
    }
}

#[test]
fn end_to_end_newer_server_task_replaces_the_local_one() {
    let key = "the user's data key";
    let mut app = FurState::new();
    app.user = Some(user_with_key(key));
    app.settings.change_last_sync(&0);
    app.settings.change_needs_full_sync(&false);
    app.tasks.insert(task("a", "local content", 50, false));

    // Request: the local delta, sealed.
    let delta = match request_sync(&mut app, &device()) {
        SyncStart::Ready(delta) => delta,
        _ => panic!("the cycle begins"),
    };
    assert_eq!(app.sync_message, SyncMessage::Positive(Notice::Syncing));
    assert_eq!(delta.key, key);
    assert_eq!(uids(&delta.tasks), vec!["a"]);
    let prepared: Vec<Prepared<FurTask>> = delta
        .tasks
        .into_iter()
        .map(|t| Prepared { payload: t.name.clone().into_bytes(), record: t })
        .collect();
    let sealed: Vec<EncryptedTask> = encrypt_batch(&prepared, &delta.key);
    assert_eq!(sealed.len(), 1);
    assert_eq!(sealed[0].uid, "a");
    assert_eq!(sealed[0].last_updated, 50);
    let request = build_request(
        app.settings.last_sync,
        device().expect("a device id"),
        sealed,
        Vec::new(),
        Vec::new(),
    );
    assert_eq!(request.last_sync, 0);
    let cycle = begin_cycle(&request);
    assert_eq!(cycle, SyncCycle { round: Round::First, sync_count: 1 });

    // The server's answer: a newer version of task "a", sealed under the same key.
    let newer = task("a", "newer content", 80, false);
    let envelope: EncryptedTask = seal_record(
        &Prepared { payload: newer.name.clone().into_bytes(), record: newer },
        key,
    )
    .expect("sealing works");
    let mut response = empty_response();
    response.server_timestamp = 200;
    response.tasks = vec![envelope];

    let opened = open_response(&mut app, &device(), &response).expect("the answer opens");
    assert_eq!(opened.tasks.len(), 1);
    let bytes = opened.tasks[0].clone().expect("the envelope opens");
    let decoded = task("a", &String::from_utf8(bytes).expect("text"), 80, false);

    let action = process_sync_result(&mut app, cycle, Ok(incoming(200, vec![Some(decoded)])));
    match action {
        CycleAction::Completed { written, sync_count } => {
            assert_eq!(written.tasks.len(), 1);
            assert_eq!(sync_count, 2);
        }
        _ => panic!("the cycle is complete"),
    }
    let a = app.tasks.fetch_by_id(&"a".to_string()).expect("a is stored");
    assert_eq!(a.name, "newer content");
    assert_eq!(a.last_updated, 80);
    assert_eq!(app.tasks.len(), 1);
    assert_eq!(app.settings.last_sync, 200);
    assert!(!app.settings.needs_full_sync);
    assert_eq!(app.sync_message, SyncMessage::Positive(Notice::SyncSuccessful(2)));
}

#[test]
fn request_sync_without_a_user_does_nothing() {
    let mut app = FurState::new();
    assert!(matches!(request_sync(&mut app, &device()), SyncStart::NotLoggedIn));
    assert_eq!(app.sync_message, SyncMessage::Clear);
}

#[test]
fn request_sync_reports_a_key_that_does_not_unwrap() {
    let mut app = FurState::new();
    let mut user = user_with_key("k");
    user.key_nonce = "not a nonce".to_string();
    app.user = Some(user);
    app.settings.change_last_sync(&9);
    assert!(matches!(request_sync(&mut app, &device()), SyncStart::KeyUnavailable));
    assert_eq!(app.sync_message, SyncMessage::Negative(Notice::ErrorDecryptingKey));
    assert_eq!(app.settings.last_sync, 9);

    let mut app = FurState::new();
    app.user = Some(user_with_key("k"));
    let no_device = Err(CryptoError::DeviceDerivationFailed);
    assert!(matches!(request_sync(&mut app, &no_device), SyncStart::KeyUnavailable));
}

#[test]
fn open_response_needs_a_user_and_a_key() {
    let mut app = FurState::new();
    assert!(open_response(&mut app, &device(), &empty_response()).is_none());
    assert_eq!(app.sync_message, SyncMessage::Negative(Notice::LogInFirst));
    app.user = Some(user_with_key("k"));
    let no_device = Err(CryptoError::DeviceDerivationFailed);
    assert!(open_response(&mut app, &no_device, &empty_response()).is_none());
    assert_eq!(app.sync_message, SyncMessage::Negative(Notice::ErrorDecryptingKey));
}

#[test]
fn one_envelope_that_does_not_open_does_not_stop_the_others() {
    let good: EncryptedTodo = seal_record(
        &Prepared { record: todo("t1", 5), payload: b"one".to_vec() },
        "key",
    )
    .expect("sealing works");
    let other_key: EncryptedTodo = seal_record(
        &Prepared { record: todo("t2", 6), payload: b"two".to_vec() },
        "another key",
    )
    .expect("sealing works");
    let broken = EncryptedTodo {
        encrypted_data: "%%%".to_string(),
        nonce: good.nonce.clone(),
        uid: "t3".to_string(),
        last_updated: 7,
    };
    let again: EncryptedTodo = seal_record(
        &Prepared { record: todo("t4", 8), payload: b"four".to_vec() },
        "key",
    )
    .expect("sealing works");
    let opened = decrypt_batch(&vec![good, other_key, broken, again], "key");
    assert_eq!(opened, vec![Some(b"one".to_vec()), None, None, Some(b"four".to_vec())]);
}

#[test]
fn sealed_batch_keeps_identifier_and_timestamp_in_the_clear() {
    let items = vec![
        Prepared { record: task("a", "", 11, false), payload: b"first".to_vec() },
        Prepared { record: task("b", "", 22, true), payload: b"second".to_vec() },
    ];
    let batch: Vec<EncryptedTask> = encrypt_batch(&items, "key");
    assert_eq!(batch.len(), 2);
    assert_eq!((batch[0].uid.as_str(), batch[0].last_updated), ("a", 11));
    assert_eq!((batch[1].uid.as_str(), batch[1].last_updated), ("b", 22));
    assert_eq!(decrypt(&batch[0].encrypted_data, &batch[0].nonce, "key"), Ok(b"first".to_vec()));
    assert_eq!(decrypt(&batch[1].encrypted_data, &batch[1].nonce, "key"), Ok(b"second".to_vec()));
    assert_ne!(batch[0].encrypted_data, "first");
}

#[test]
fn request_count_adds_the_three_collections() {
    let envelope = |uid: &str| EncryptedTask {
        encrypted_data: String::new(),
        nonce: String::new(),
        uid: uid.to_string(),
        last_updated: 0,
    };
    let request =
        build_request(5, "device".to_string(), vec![envelope("a"), envelope("b")], Vec::new(), Vec::new());
    assert_eq!(request_count(&request), 2);
    assert_eq!(request.device_id, "device");
    let cycle = count_request(SyncCycle { round: Round::Orphans, sync_count: 40 }, &request);
    assert_eq!(cycle, SyncCycle { round: Round::Orphans, sync_count: 42 });
    let cycle = count_request(SyncCycle { round: Round::Orphans, sync_count: usize::MAX }, &request);
    assert_eq!(cycle.sync_count, usize::MAX);
}

#[test]
fn status_line_is_set_and_cleared() {
    let mut message = SyncMessage::Clear;
    set_positive_sync_messsage(&mut message, Notice::SyncSuccessful(3));
    assert_eq!(message, SyncMessage::Positive(Notice::SyncSuccessful(3)));
    clear_sync_message(&mut message);
    assert_eq!(message, SyncMessage::Clear);
    set_negative_sync_message(&mut message, Notice::SyncFailed);
    assert_eq!(message, SyncMessage::Negative(Notice::SyncFailed));
    clear_sync_message(&mut message);
    assert_eq!(message, SyncMessage::Clear);
}

#[test]
fn syncing_is_not_cleared() {
    let mut message = SyncMessage::Clear;
    set_positive_sync_messsage(&mut message, Notice::Syncing);
    clear_sync_message(&mut message);
    assert_eq!(message, SyncMessage::Positive(Notice::Syncing));
    let mut negative = SyncMessage::Negative(Notice::Syncing);
    clear_sync_message(&mut negative);
    assert_eq!(negative, SyncMessage::Clear);
}

#[test]
fn notices_have_catalogue_keys() {
    assert_eq!(Notice::Syncing.message_key(), "syncing");
    assert_eq!(Notice::SyncSuccessful(4).message_key(), "sync-successful");
    assert_eq!(Notice::SyncFailed.message_key(), "sync-failed");
    assert_eq!(Notice::ErrorDecryptingKey.message_key(), "error-decrypting-key");
    assert_eq!(Notice::LogInFirst.message_key(), "log-in-first");
    assert_eq!(Notice::ReauthenticateError.message_key(), "reauthenticate-error");
    assert_eq!(Notice::SubscriptionInactive.message_key(), "subscription-inactive");
    assert_eq!(Notice::LoggingIn.message_key(), "logging-in");
    assert_eq!(Notice::LoginSuccessful.message_key(), "login-successful");
    assert_eq!(Notice::LoginFailed.message_key(), "login-failed");
    assert_eq!(Notice::ServerMustContainProtocol.message_key(), "server-must-contain-protocol");
    assert_eq!(Notice::ErrorStoringCredentials.message_key(), "error-storing-credentials");
}

#[test]
fn scheduler_starts_once_and_runs_one_cycle_at_a_time() {
    let mut scheduler = SyncScheduler::new();
    assert!(schedule_sync(&mut scheduler));
    assert!(!schedule_sync(&mut scheduler));
    assert!(scheduler.try_begin());
    assert!(!scheduler.try_begin());
    assert!(!scheduler.try_begin());
    assert!(scheduler.finish());
    assert!(scheduler.try_begin());
    assert!(!scheduler.finish());
    assert!(scheduler.started);
}

#[test]
fn automatic_sync_needs_a_user() {
    assert!(!periodic_sync_due(&None));
    assert_eq!(sync_after_change(&None), None);
    let user = Some(user_with_key("k"));
    assert!(periodic_sync_due(&user));
    assert_eq!(sync_after_change(&user), Some(1));
}

#[test]
fn user_fields_follow_the_user() {
    let mut user = user_with_key("k");
    let fields = get_user_fields(&Some(user_with_key("k")));
    assert_eq!(fields.email, "a@example.org");
    assert_eq!(fields.encryption_key, "xxxxxxxxxxxxxxxxxxxxxxxxxxxxxxxx");
    assert_eq!(fields.server, "https://sync.example.org");
    assert_eq!(fields.server_selection, ServerChoices::Custom);
    user.server = "https://sync.furtherance.app".to_string();
    assert_eq!(get_user_fields(&Some(user)).server_selection, ServerChoices::Official);
    let blank = get_user_fields(&None);
    assert_eq!(blank.email, "");
    assert_eq!(blank.encryption_key, "");
    assert_eq!(blank.server, "https://sync.furtherance.app");
    assert_eq!(blank.server_selection, ServerChoices::Official);
}

#[test]
fn get_user_treats_an_unreadable_store_as_nobody() {
    assert!(get_user(Err("disk I/O error".to_string())).is_none());
    assert!(get_user(Ok(None)).is_none());
    assert_eq!(get_user(Ok(Some(user_with_key("k")))).expect("a user").email, "a@example.org");
}

#[test]
fn reset_user_logs_out_locally() {
    let mut app = FurState::new();
    app.user = Some(user_with_key("k"));
    app.user_fields = get_user_fields(&app.user);
    reset_user(&mut app);
    assert!(app.user.is_none());
    assert_eq!(app.user_fields.email, "a@example.org");
}

#[test]
fn same_text_compares_by_content() {
    assert!(same_text("abc", "abc"));
    assert!(!same_text("abc", "abd"));
    assert!(!same_text("abc", "ab"));
    assert!(same_text("", ""));
}

#[test]
fn bytes_that_are_no_record_fail_to_deserialize_and_are_passed_over() {
    assert_eq!(read_record::<u8>(None), Err(CryptoError::DeserializationFailed));
    assert_eq!(read_record(Some(7u8)), Ok(7));
    assert_eq!(delta_entry::<u8>(Err(CryptoError::DeserializationFailed)), None);
    assert_eq!(delta_entry::<u8>(Err(CryptoError::DecryptionFailed)), None);
    assert_eq!(delta_entry(Ok(7u8)), Some(7));
}

#[test]
fn a_record_sealed_with_a_given_nonce_is_the_cipher_text_of_its_bytes() {
    let item = Prepared { record: task("a", "name", 11, false), payload: b"payload".to_vec() };
    let nonce = vec![7u8; 12];
    let sealed: EncryptedTask =
        seal_record_with_nonce(&item, "key", &nonce).expect("sealing works");
    let (ciphertext, nonce_text) =
        encrypt_with_nonce(&item.payload, "key", &nonce).expect("sealing works");
    assert_eq!(sealed.encrypted_data, ciphertext);
    assert_eq!(sealed.nonce, nonce_text);
    assert_eq!(sealed.nonce, "BwcHBwcHBwcHBwcH");
    assert_eq!(sealed.uid, "a");
    assert_eq!(sealed.last_updated, 11);
    assert_eq!(decrypt(&sealed.encrypted_data, &sealed.nonce, "key"), Ok(b"payload".to_vec()));
}

#[test]
fn a_record_is_not_sealed_with_a_nonce_of_the_wrong_length() {
    let item = Prepared { record: task("a", "name", 11, false), payload: b"payload".to_vec() };
    let short: Option<EncryptedTask> = seal_record_with_nonce(&item, "key", &vec![7u8; 11]);
    assert!(short.is_none());
    let long: Option<EncryptedTask> = seal_record_with_nonce(&item, "key", &vec![7u8; 13]);
    assert!(long.is_none());
    let empty: Option<EncryptedTask> = seal_record_with_nonce(&item, "key", &Vec::new());
    assert!(empty.is_none());
}

#[test]
fn a_freshly_sealed_record_carries_its_record() {
    let item = Prepared { record: todo("t1", 5), payload: b"one".to_vec() };
    let sealed: EncryptedTodo = seal_record(&item, "key").expect("sealing works");
    assert_eq!(sealed.uid, "t1");
    assert_eq!(sealed.last_updated, 5);
    assert_eq!(decrypt(&sealed.encrypted_data, &sealed.nonce, "key"), Ok(b"one".to_vec()));
    // Sixteen characters of base64 stand for the twelve bytes of the nonce.
    assert_eq!(sealed.nonce.len(), 16);
    let again: EncryptedTodo = seal_record(&item, "key").expect("sealing works");
    assert_ne!(again.nonce, sealed.nonce);
}

#[test]
fn incremental_gather_sends_the_changes_in_the_order_in_which_they_were_made() {
    let mut store = RecordStore::new();
    store.insert(task("third", "", 300, false));
    store.insert(task("first", "", 100, true));
    store.insert(task("before", "", 99, false));
    store.insert(task("second", "", 200, false));
    let mut settings = FurSettings::default();
    settings.change_last_sync(&100);
    settings.change_needs_full_sync(&false);
    assert_eq!(uids(&gather(&store, &settings)), vec!["first", "second", "third"]);
    settings.change_needs_full_sync(&true);
    assert_eq!(uids(&gather(&store, &settings)), vec!["third", "first", "before", "second"]);
}

#[test]
fn the_batch_holds_exactly_the_records_that_were_sealed() {
    let envelope = |uid: &str| EncryptedTask {
        encrypted_data: format!("data of {}", uid),
        nonce: String::new(),
        uid: uid.to_string(),
        last_updated: 1,
    };
    let batch = collect_sealed(vec![
        None,
        Some(envelope("a")),
        None,
        None,
        Some(envelope("b")),
        Some(envelope("c")),
        None,
    ]);
    let kept: Vec<&str> = batch.iter().map(|e| e.uid.as_str()).collect();
    assert_eq!(kept, vec!["a", "b", "c"]);
    assert_eq!(batch[1].encrypted_data, "data of b");
    assert!(collect_sealed::<EncryptedTask>(vec![None, None]).is_empty());
    assert!(collect_sealed::<EncryptedTask>(Vec::new()).is_empty());
    assert_eq!(collect_sealed(vec![Some(envelope("only"))]).len(), 1);
}

#[test]
fn every_record_of_a_batch_has_its_outcome() {
    let items = vec![
        Prepared { record: task("a", "", 11, false), payload: b"first".to_vec() },
        Prepared { record: task("b", "", 22, false), payload: Vec::new() },
    ];
    let outcomes: Vec<Option<EncryptedTask>> = seal_each(&items, "key");
    assert_eq!(outcomes.len(), 2);
    let a = outcomes[0].as_ref().expect("sealing works");
    let b = outcomes[1].as_ref().expect("sealing works");
    assert_eq!((a.uid.as_str(), a.last_updated), ("a", 11));
    assert_eq!((b.uid.as_str(), b.last_updated), ("b", 22));
    assert_eq!(decrypt(&a.encrypted_data, &a.nonce, "key"), Ok(b"first".to_vec()));
    assert_eq!(decrypt(&b.encrypted_data, &b.nonce, "key"), Ok(Vec::new()));
}

#[test]
fn writes_that_the_database_refused_do_not_count() {
    assert_eq!(
        discount_failed(SyncCycle { round: Round::Orphans, sync_count: 5 }, 2),
        SyncCycle { round: Round::Orphans, sync_count: 3 }
    );
    assert_eq!(discount_failed(SyncCycle { round: Round::First, sync_count: 1 }, 4).sync_count, 0);
    assert_eq!(discount_failed(SyncCycle { round: Round::First, sync_count: 4 }, 0).sync_count, 4);

    let mut app = FurState::new();
    app.sync_message = SyncMessage::Positive(Notice::SyncSuccessful(5));
    assert_eq!(writes_persisted(&mut app, 5, 2), 3);
    assert_eq!(app.sync_message, SyncMessage::Positive(Notice::SyncSuccessful(3)));
    assert_eq!(writes_persisted(&mut app, 3, 0), 3);
    assert_eq!(app.sync_message, SyncMessage::Positive(Notice::SyncSuccessful(3)));
    assert_eq!(writes_persisted(&mut app, 3, 9), 0);
    assert_eq!(app.sync_message, SyncMessage::Positive(Notice::SyncSuccessful(0)));

    // A status line that reports something else is left alone.
    let mut app = FurState::new();
    app.sync_message = SyncMessage::Positive(Notice::Syncing);
    assert_eq!(writes_persisted(&mut app, 5, 1), 4);
    assert_eq!(app.sync_message, SyncMessage::Positive(Notice::Syncing));
    app.sync_message = SyncMessage::Positive(Notice::SyncSuccessful(7));
    assert_eq!(writes_persisted(&mut app, 5, 1), 4);
    assert_eq!(app.sync_message, SyncMessage::Positive(Notice::SyncSuccessful(7)));
}
