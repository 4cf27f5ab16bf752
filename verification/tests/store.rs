use furtherance::database::init::{get_directory, get_settings_path, join_path};
use furtherance::database::store::RecordStore;
use furtherance::database::sync::CredentialStore;
use furtherance::database::tasks::{select_tasks_query, SortBy, SortOrder};
use furtherance::models::fur_task::FurTask;
use furtherance::models::moment::Moment;
use furtherance::models::rate::Rate;

fn task(uid: &str, name: &str, last_updated: i64, is_deleted: bool) -> FurTask {
    FurTask {
        name: name.to_string(),
        start_time: Moment { seconds: 1_700_000_000, nanos: 0 },
        stop_time: Moment { seconds: 1_700_003_600, nanos: 0 },
        tags: String::new(),
        project: String::new(),
        rate: Rate { bits: 0 },
        currency: String::new(),
        uid: uid.to_string(),
        is_deleted,
        last_updated,
    }
}

fn uids(rows: &[FurTask]) -> Vec<String> {
    rows.iter().map(|t| t.uid.clone()).collect()
}

#[test]
fn store_insert_then_fetch_by_id() {
    let mut store: RecordStore<FurTask> = RecordStore::new();
    store.insert(task("a", "first", 50, false));
    store.insert(task("b", "second", 60, false));
    assert_eq!(store.len(), 2);
    let found = store.fetch_by_id(&"b".to_string()).expect("b is stored");
    assert_eq!(found.name, "second");
    assert_eq!(found.last_updated, 60);
    assert!(store.fetch_by_id(&"c".to_string()).is_none());
    assert!(store.contains(&"a".to_string()));
    assert!(!store.contains(&"c".to_string()));
}

#[test]
fn fetch_by_id_finds_the_first_row() {
    let mut store = RecordStore::new();
    store.insert(task("a", "first", 50, false));
    store.insert(task("a", "second", 60, false));
    assert_eq!(store.fetch_by_id(&"a".to_string()).expect("a is stored").name, "first");
}

#[test]
fn fetch_since_takes_the_watermark_itself() {
    let mut store = RecordStore::new();
    store.insert(task("a", "", 99, false));
    store.insert(task("b", "", 100, true));
    store.insert(task("c", "", 101, false));
    assert_eq!(uids(&store.fetch_since(100)), vec!["b", "c"]);
    assert_eq!(uids(&store.fetch_since(102)), Vec::<String>::new());
    assert_eq!(uids(&store.fetch_since(i64::MIN)), vec!["a", "b", "c"]);
}

#[test]
fn fetch_all_includes_deleted_rows() {
    let mut store = RecordStore::new();
    store.insert(task("a", "", 1, true));
    store.insert(task("b", "", 2, false));
    assert_eq!(uids(&store.fetch_all()), vec!["a", "b"]);
    assert_eq!(uids(&store.fetch_existing()), vec!["b"]);
}

#[test]
fn fetch_by_ids_follows_the_order_of_the_identifiers() {
    let mut store = RecordStore::new();
    store.insert(task("a", "", 1, false));
    store.insert(task("b", "", 2, false));
    store.insert(task("c", "", 3, false));
    let wanted = vec!["c".to_string(), "x".to_string(), "a".to_string()];
    assert_eq!(uids(&store.fetch_by_ids(&wanted)), vec!["c", "a"]);
    assert!(store.fetch_by_ids(&Vec::new()).is_empty());
}

#[test]
fn soft_delete_marks_and_stamps_but_keeps_the_row() {
    let mut store = RecordStore::new();
    store.insert(task("a", "keep me", 10, false));
    store.insert(task("b", "other", 20, false));
    store.soft_delete(&"a".to_string(), 500);
    assert_eq!(store.len(), 2);
    let a = store.fetch_by_id(&"a".to_string()).expect("a is stored");
    assert!(a.is_deleted);
    assert_eq!(a.last_updated, 500);
    assert_eq!(a.name, "keep me");
    let b = store.fetch_by_id(&"b".to_string()).expect("b is stored");
    assert!(!b.is_deleted);
    assert_eq!(b.last_updated, 20);
    // The deletion is part of the next incremental delta.
    assert_eq!(uids(&store.fetch_since(100)), vec!["a"]);
}

#[test]
fn soft_delete_all_deletes_each_identifier() {
    let mut store = RecordStore::new();
    store.insert(task("a", "", 10, false));
    store.insert(task("b", "", 20, false));
    store.insert(task("c", "", 30, false));
    store.soft_delete_all(&vec!["a".to_string(), "c".to_string()], 77);
    assert_eq!(uids(&store.fetch_existing()), vec!["b"]);
    assert_eq!(store.len(), 3);
}

#[test]
fn from_rows_keeps_the_order() {
    let store = RecordStore::from_rows(vec![task("z", "", 1, false), task("a", "", 2, false)]);
    assert_eq!(uids(&store.fetch_all()), vec!["z", "a"]);
}

#[test]
fn credentials_are_stored_replaced_and_deleted() {
    let mut store = CredentialStore::new();
    assert!(store.retrieve_credentials().is_none());
    store.store_credentials("a@example.org", "wrapped", "nonce", "access", "refresh", "https://s");
    let user = store.retrieve_credentials().expect("a user");
    assert_eq!(user.email, "a@example.org");
    assert_eq!(user.encrypted_key, "wrapped");
    assert_eq!(user.key_nonce, "nonce");
    assert_eq!(user.access_token, "access");
    assert_eq!(user.refresh_token, "refresh");
    assert_eq!(user.server, "https://s");
    store.update_access_token("a@example.org", "access-2");
    let user = store.retrieve_credentials().expect("a user");
    assert_eq!(user.access_token, "access-2");
    assert_eq!(user.refresh_token, "refresh");
    store.update_access_token("b@example.org", "access-3");
    assert_eq!(store.retrieve_credentials().expect("a user").access_token, "access-2");
    store.store_credentials("b@example.org", "w", "n", "a", "r", "s");
    assert_eq!(store.retrieve_credentials().expect("a user").email, "b@example.org");
    store.delete_all_credentials();
    assert!(store.retrieve_credentials().is_none());
}

#[test]
fn sort_words_for_queries() {
    assert_eq!(SortOrder::Ascending.to_sqlite(), "ASC");
    assert_eq!(SortOrder::Descending.to_sqlite(), "DESC");
    assert_eq!(SortBy::StartTime.to_sqlite(), "start_time");
    assert_eq!(SortBy::StopTime.to_sqlite(), "stop_time");
    assert_eq!(SortBy::TaskName.to_sqlite(), "task_name");
    assert_eq!(SortOrder::default(), SortOrder::Ascending);
    assert_eq!(SortBy::default(), SortBy::StartTime);
    assert_eq!(
        select_tasks_query(false, SortBy::StartTime, SortOrder::Ascending),
        "SELECT * FROM tasks ORDER BY start_time ASC"
    );
    assert_eq!(
        select_tasks_query(true, SortBy::StopTime, SortOrder::Descending),
        "SELECT * FROM tasks WHERE is_deleted = 0 ORDER BY stop_time DESC"
    );
}

#[test]
fn fetch_since_orders_by_the_time_of_the_last_change() {
    let mut store = RecordStore::new();
    store.insert(task("late", "", 5, false));
    store.insert(task("early", "", 3, false));
    assert_eq!(uids(&store.fetch_since(0)), vec!["early", "late"]);
    assert_eq!(uids(&store.fetch_all()), vec!["late", "early"]);

    let mut store = RecordStore::new();
    for (uid, stamp) in [("d", 40), ("a", 10), ("old", 1), ("c", 30), ("b", 20), ("e", 50)] {
        store.insert(task(uid, "", stamp, uid == "c"));
    }
    assert_eq!(uids(&store.fetch_since(10)), vec!["a", "b", "c", "d", "e"]);
    assert_eq!(uids(&store.fetch_since(31)), vec!["d", "e"]);
}

#[test]
fn fetch_since_keeps_every_row_of_a_shared_stamp() {
    let mut store = RecordStore::new();
    store.insert(task("x", "", 7, false));
    store.insert(task("y", "", 2, false));
    store.insert(task("z", "", 7, false));
    store.insert(task("x", "", 7, false));
    let found = store.fetch_since(2);
    let stamps: Vec<i64> = found.iter().map(|t| t.last_updated).collect();
    assert_eq!(stamps, vec![2, 7, 7, 7]);
    let mut sevens = uids(&found[1..]);
    sevens.sort();
    assert_eq!(sevens, vec!["x", "x", "z"]);
}

#[test]
fn paths_of_the_database_and_the_settings() {
    assert_eq!(get_directory("/home/u/.local/share"), "/home/u/.local/share/furtherance.db");
    assert_eq!(get_directory("/home/u/.local/share/"), "/home/u/.local/share/furtherance.db");
    assert_eq!(get_directory("."), "./furtherance.db");
    assert_eq!(get_directory(""), "furtherance.db");
    assert_eq!(get_directory("/"), "/furtherance.db");
    assert_eq!(get_settings_path("/data"), "/data/settings.toml");
    assert_eq!(get_settings_path(""), "settings.toml");
    assert_eq!(join_path("a/b", "c"), "a/b/c");
    assert_eq!(join_path("a//", "c"), "a//c");
}
