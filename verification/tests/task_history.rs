use furtherance::helpers::formatters::{format_title_date, TitleDate};
use furtherance::helpers::views::task_history::{
    get_task_history, group_by_day, group_tasks, update_todos_after_refresh,
};
use furtherance::helpers::views::todos::{get_all_todos, todo_window};
use furtherance::models::fur_task::FurTask;
use furtherance::models::fur_todo::FurTodo;
use furtherance::models::moment::Moment;
use furtherance::models::rate::Rate;

fn task(name: &str, project: &str, tags: &str, rate: f32, start: i64, stop: i64) -> FurTask {
    FurTask::new(
        name.to_string(),
        Moment { seconds: start, nanos: 0 },
        Moment { seconds: stop, nanos: 0 },
        tags.to_string(),
        project.to_string(),
        Rate { bits: rate.to_bits() },
        String::new(),
        1,
    )
}

fn shape(tasks: Vec<FurTask>) -> Vec<(String, i64, Vec<i64>)> {
    group_tasks(tasks)
        .into_iter()
        .map(|g| (g.name, g.total_time, g.tasks.iter().map(|t| t.start_time.seconds).collect()))
        .collect()
}

#[test]
fn no_tasks_make_no_groups() {
    assert!(group_tasks(Vec::new()).is_empty());
}

#[test]
fn equal_tasks_share_a_group_in_the_order_in_which_they_come() {
    let groups = shape(vec![
        task("write", "work", "docs", 10.0, 1_000, 1_600),
        task("read", "work", "docs", 10.0, 2_000, 2_300),
        task("write", "WORK", "docs", 10.0, 3_000, 3_060),
        task("read", "work", "other", 10.0, 4_000, 4_010),
        task("write", "work", "docs", 10.0, 5_000, 5_001),
    ]);
    assert_eq!(
        groups,
        vec![
            ("write".to_string(), 661, vec![1_000, 3_000, 5_000]),
            ("read".to_string(), 300, vec![2_000]),
            ("read".to_string(), 10, vec![4_000]),
        ]
    );
}

#[test]
fn a_group_takes_its_head_from_its_first_task() {
    let first = task("write", "Work", "docs", 10.0, 1_000, 1_600);
    let uid = first.uid.clone();
    let groups = group_tasks(vec![first, task("write", "work", "docs", 10.0, 2_000, 2_600)]);
    assert_eq!(groups.len(), 1);
    assert_eq!(groups[0].uid, uid);
    assert_eq!(groups[0].project, "Work");
    assert_eq!(groups[0].tags, "docs");
    assert_eq!(groups[0].rate, Rate { bits: 10.0f32.to_bits() });
    assert_eq!(groups[0].total_time, 1_200);
}

#[test]
fn tasks_that_differ_in_rate_or_name_are_kept_apart() {
    let groups = shape(vec![
        task("write", "work", "docs", 10.0, 0, 1),
        task("write", "work", "docs", 12.0, 10, 12),
        task("Write", "work", "docs", 10.0, 20, 23),
        task("write", "work", "docs", f32::NAN, 30, 34),
        task("write", "work", "docs", f32::NAN, 40, 45),
    ]);
    assert_eq!(groups.len(), 5);
    assert_eq!(groups.iter().map(|g| g.1).collect::<Vec<i64>>(), vec![1, 2, 3, 4, 5]);
}

#[test]
fn items_are_arranged_by_day_in_the_calendars_order() {
    let days = group_by_day(vec![
        (20, "d"),
        (10, "a"),
        (20, "e"),
        (15, "c"),
        (10, "b"),
        (-3, "z"),
    ]);
    let shape: Vec<(i64, Vec<&str>)> = days.into_iter().map(|d| (d.day, d.items)).collect();
    assert_eq!(
        shape,
        vec![(-3, vec!["z"]), (10, vec!["a", "b"]), (15, vec!["c"]), (20, vec!["d", "e"])]
    );
    let none: Vec<(i64, u8)> = Vec::new();
    assert!(group_by_day(none).is_empty());
}

#[test]
fn history_groups_the_tasks_of_each_day() {
    let history = get_task_history(vec![
        (2, task("write", "work", "docs", 10.0, 9_000, 9_100)),
        (1, task("write", "work", "docs", 10.0, 1_000, 1_600)),
        (2, task("read", "", "", 0.0, 8_000, 8_050)),
        (1, task("write", "Work", "docs", 10.0, 2_000, 2_600)),
        (2, task("write", "work", "docs", 10.0, 7_000, 7_001)),
    ]);
    let shape: Vec<(i64, Vec<(String, i64, usize)>)> = history
        .into_iter()
        .map(|d| (d.day, d.items.into_iter().map(|g| (g.name, g.total_time, g.tasks.len())).collect()))
        .collect();
    assert_eq!(
        shape,
        vec![
            (1, vec![("write".to_string(), 1_200, 2)]),
            (2, vec![("write".to_string(), 101, 2), ("read".to_string(), 50, 1)]),
        ]
    );
}

#[test]
fn todos_are_listed_by_day_within_a_window() {
    let todo = |name: &str, seconds: i64| {
        FurTodo::new(
            name.to_string(),
            String::new(),
            String::new(),
            Rate { bits: 0 },
            Moment { seconds, nanos: 0 },
            1,
        )
    };
    let days = get_all_todos(vec![(3, todo("c", 300)), (1, todo("a", 100)), (3, todo("d", 301))]);
    let shape: Vec<(i64, Vec<String>)> =
        days.into_iter().map(|d| (d.day, d.items.into_iter().map(|t| t.name).collect())).collect();
    assert_eq!(
        shape,
        vec![(1, vec!["a".to_string()]), (3, vec!["c".to_string(), "d".to_string()])]
    );

    let now = Moment { seconds: 1_700_000_000, nanos: 5 };
    let (past, future) = todo_window(now);
    assert_eq!(past, Moment { seconds: 1_700_000_000 - 60 * 86_400, nanos: 5 });
    assert_eq!(future, Moment { seconds: 1_700_000_000 + 3 * 86_400, nanos: 5 });
    let (past, _) = todo_window(Moment { seconds: i64::MIN + 10, nanos: 0 });
    assert_eq!(past.seconds, i64::MIN);
    let (_, future) = todo_window(Moment { seconds: i64::MAX - 10, nanos: 0 });
    assert_eq!(future.seconds, i64::MAX);
}

#[test]
fn title_dates() {
    assert_eq!(format_title_date(100, 2025, 100, 2025), TitleDate::Today);
    assert_eq!(format_title_date(99, 2025, 100, 2025), TitleDate::Yesterday);
    assert_eq!(format_title_date(101, 2025, 100, 2025), TitleDate::Tomorrow);
    assert_eq!(format_title_date(98, 2025, 100, 2025), TitleDate::ThisYear);
    assert_eq!(format_title_date(102, 2025, 100, 2025), TitleDate::ThisYear);
    assert_eq!(format_title_date(-300, 2024, 100, 2025), TitleDate::AnotherYear);
    // Yesterday of the first of January is a day of another year, and still yesterday.
    assert_eq!(format_title_date(0, 2024, 1, 2025), TitleDate::Yesterday);
    assert_eq!(format_title_date(i64::MAX, 1, i64::MIN, 1), TitleDate::ThisYear);
    assert_eq!(format_title_date(i64::MIN, 1, i64::MAX, 2), TitleDate::AnotherYear);
}

#[test]
fn todos_are_done_by_the_work_of_the_day() {
    let todo = |name: &str, is_completed: bool| FurTodo {
        name: name.to_string(),
        project: "home".to_string(),
        tags: String::new(),
        rate: Rate { bits: 0 },
        currency: String::new(),
        date: Moment { seconds: 100, nanos: 0 },
        uid: format!("uid-{}", name),
        is_completed,
        is_deleted: false,
        last_updated: 7,
    };
    let mut todos = vec![todo("call", false), todo("write", false), todo("read", true), todo("late", false)];
    let todo_lines: Vec<String> =
        todos.iter().take(3).map(|t| t.to_string("0.00")).collect();
    assert_eq!(todo_lines, vec!["call @home", "write @home", "read @home"]);
    let group_lines = vec!["write @home".to_string(), "other".to_string(), "read @home".to_string()];
    let done = update_todos_after_refresh(&mut todos, &todo_lines, &group_lines);
    assert_eq!(done, vec!["uid-write", "uid-read"]);
    assert!(!todos[0].is_completed);
    assert!(todos[1].is_completed);
    assert!(todos[2].is_completed);
    assert!(!todos[3].is_completed);
    assert_eq!(todos[1].last_updated, 7);
    assert_eq!(todos[1].name, "write");
    let mut none: Vec<FurTodo> = vec![todo("call", false)];
    assert!(update_todos_after_refresh(&mut none, &Vec::new(), &group_lines).is_empty());
    assert!(!none[0].is_completed);
}
