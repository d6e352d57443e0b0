use time_tracker::error::TaskError;
use time_tracker::store::Store;
use time_tracker::task::Task;
use time_tracker::tasks::{ChronoUnit, Tasks};
use time_tracker::time::{Date, Timestamp};

// Wednesday 2024-06-05T12:00:00+02:00
const TODAY: i64 = 1_717_581_600;
const DAY: i64 = 86_400;

fn at(secs: i64) -> Timestamp {
    Timestamp::new(secs, 0, 7200).unwrap()
}

fn task(name: &str, start: i64, end: Option<i64>) -> Task {
    Task {
        name: name.to_string(),
        ticket_number: None,
        project: "infra".to_string(),
        start: at(start),
        end: end.map(at),
        current: false,
    }
}

fn store_of(tasks: &[Task]) -> Store {
    let mut store = Store::new();
    for t in tasks {
        t.write_to_log_file(&mut store).unwrap();
    }
    store
}

fn names(tasks: &Tasks) -> Vec<String> {
    tasks.inner.iter().map(|t| t.name.clone()).collect()
}

#[test]
fn day_takes_a_task_that_ended_today_and_leaves_an_old_open_one() {
    let store = store_of(&[
        task("yesterday to today", TODAY - DAY, Some(TODAY - 3600)),
        task("two days ago, open", TODAY - 2 * DAY, None),
    ]);
    let loaded = Tasks::new(ChronoUnit::Day, &store, &at(TODAY)).unwrap().unwrap();
    assert_eq!(names(&loaded), vec!["yesterday to today"]);
    assert!(!loaded.inner[0].current);
}

#[test]
fn day_takes_an_open_task_that_began_today() {
    let store = store_of(&[
        task("open today", TODAY - 3600, None),
        task("closed yesterday", TODAY - DAY - 60, Some(TODAY - DAY)),
        task("began today", TODAY - 7200, Some(TODAY + 2 * DAY)),
    ]);
    let loaded = Tasks::new(ChronoUnit::Day, &store, &at(TODAY)).unwrap().unwrap();
    assert_eq!(names(&loaded), vec!["began today", "open today"]);
}

#[test]
fn day_goes_by_the_local_calendar() {
    // 2024-06-05T00:30:00+02:00 is the 4th in UTC and the 5th on the local clock.
    let store = store_of(&[task("just after midnight", 1_717_540_200, None)]);
    let loaded = Tasks::new(ChronoUnit::Day, &store, &at(TODAY)).unwrap().unwrap();
    assert_eq!(names(&loaded), vec!["just after midnight"]);
    // Seen from a zone where that instant falls on the 4th, today is the 5th: not taken.
    let mut utc_store = Store::new();
    Task {
        name: "utc".to_string(),
        ticket_number: None,
        project: "infra".to_string(),
        start: Timestamp::new(1_717_540_200, 0, 0).unwrap(),
        end: None,
        current: false,
    }
    .write_to_log_file(&mut utc_store)
    .unwrap();
    assert!(Tasks::new(ChronoUnit::Day, &utc_store, &at(TODAY)).unwrap().is_none());
}

#[test]
fn week_leaves_out_its_monday_and_takes_its_sunday() {
    let store = store_of(&[
        task("sunday before", 1_717_362_000, None),
        task("monday", 1_717_401_600, Some(1_717_401_690)),
        task("tuesday", 1_717_495_200, None),
        task("sunday", 1_717_970_399, None),
        task("next monday", 1_717_970_400, None),
    ]);
    let loaded = Tasks::new(ChronoUnit::Week, &store, &at(TODAY)).unwrap().unwrap();
    assert_eq!(names(&loaded), vec!["sunday", "tuesday"]);
}

#[test]
fn week_seen_from_its_monday_leaves_the_monday_out() {
    let store = store_of(&[task("monday", 1_717_401_600, None)]);
    assert!(Tasks::new(ChronoUnit::Week, &store, &at(1_717_408_800)).unwrap().is_none());
    assert!(Tasks::new(ChronoUnit::Day, &store, &at(1_717_408_800)).unwrap().is_some());
}

#[test]
fn month_takes_everything_latest_first() {
    let all = [
        task("a", TODAY - 4 * DAY, Some(TODAY - 4 * DAY + 10)),
        task("b", TODAY - 3 * DAY, None),
        task("c", TODAY + 20 * DAY, Some(TODAY + 21 * DAY)),
    ];
    let store = store_of(&all);
    let loaded = Tasks::new(ChronoUnit::Month, &store, &at(TODAY)).unwrap().unwrap();
    assert_eq!(names(&loaded), vec!["c", "b", "a"]);
    assert_eq!(loaded.inner[2], all[0]);
    let week = Tasks::new(ChronoUnit::Week, &store, &at(TODAY)).unwrap();
    assert!(week.is_none());
}

#[test]
fn week_is_part_of_month() {
    let store = store_of(&[
        task("a", TODAY - 4 * DAY, None),
        task("b", TODAY - DAY, None),
        task("c", TODAY, None),
        task("d", TODAY + 20 * DAY, None),
    ]);
    let month = Tasks::new(ChronoUnit::Month, &store, &at(TODAY)).unwrap().unwrap();
    let week = Tasks::new(ChronoUnit::Week, &store, &at(TODAY)).unwrap().unwrap();
    assert_eq!(names(&week), vec!["c", "b"]);
    for t in &week.inner {
        assert!(month.inner.contains(t));
    }
    let day = Tasks::new(ChronoUnit::Day, &store, &at(TODAY)).unwrap().unwrap();
    assert_eq!(names(&day), vec!["c"]);
}

#[test]
fn year_is_not_supported() {
    let store = store_of(&[task("a", TODAY, None)]);
    assert_eq!(Tasks::new(ChronoUnit::Year, &store, &at(TODAY)).err(), Some(TaskError::Unsupported));
    assert_eq!(
        Tasks::new(ChronoUnit::Year, &Store::new(), &at(TODAY)).err(),
        Some(TaskError::Unsupported)
    );
}

#[test]
fn missing_log_is_no_data() {
    let store = store_of(&[task("may", TODAY - 30 * DAY, None)]);
    assert!(store.log(2024, 5).is_some());
    for unit in [ChronoUnit::Day, ChronoUnit::Week, ChronoUnit::Month] {
        assert!(Tasks::new(unit, &store, &at(TODAY)).unwrap().is_none());
        assert!(Tasks::new(unit, &Store::new(), &at(TODAY)).unwrap().is_none());
    }
    assert!(Tasks::new(ChronoUnit::Month, &store, &at(TODAY - 30 * DAY)).unwrap().is_some());
}

#[test]
fn log_with_only_the_header_is_no_data() {
    let mut store = Store::new();
    store.set_log(2024, 6, "Name,TicketNumber,Project,Start,End\n".to_string());
    assert!(Tasks::new(ChronoUnit::Month, &store, &at(TODAY)).unwrap().is_none());
    store.set_log(2024, 6, String::new());
    assert!(Tasks::new(ChronoUnit::Month, &store, &at(TODAY)).unwrap().is_none());
}

#[test]
fn malformed_log_is_an_error() {
    let mut store = Store::new();
    for text in [
        "Name,TicketNumber,Project,Start,End\nA,,infra,not a time,\n",
        "Name,TicketNumber,Project,Start,End\nA,,infra\n",
        "A,,infra,2024-06-03T10:00:00+02:00,\n",
        "Name,TicketNumber,Project,Start,End\nA,,infra,2024-06-03T10:00:00+02:00,later\n",
    ] {
        store.set_log(2024, 6, text.to_string());
        for unit in [ChronoUnit::Day, ChronoUnit::Week, ChronoUnit::Month] {
            assert_eq!(Tasks::new(unit, &store, &at(TODAY)).err(), Some(TaskError::Io), "{:?}", text);
        }
        assert_eq!(Tasks::apply_month(&store, vec![], &at(TODAY)), Err(TaskError::Io));
    }
}

#[test]
fn log_record_without_a_name_is_read() {
    let mut store = Store::new();
    store.set_log(
        2024,
        6,
        "Name,TicketNumber,Project,Start,End\n,T-1,infra,2024-06-05T10:00:00+02:00,\n".to_string(),
    );
    let loaded = Tasks::new(ChronoUnit::Month, &store, &at(TODAY)).unwrap().unwrap();
    assert_eq!(loaded.inner.len(), 1);
    assert_eq!(loaded.inner[0].name, "");
    assert_eq!(loaded.inner[0].ticket_number.as_deref(), Some("T-1"));
}

#[test]
fn apply_puts_records_behind_what_is_given() {
    let store = store_of(&[task("b", TODAY, None), task("c", TODAY + 20 * DAY, None)]);
    let given = vec![task("a", 0, None)];
    let month = Tasks::apply_month(&store, given.clone(), &at(TODAY)).unwrap();
    assert_eq!(month.iter().map(|t| t.name.as_str()).collect::<Vec<_>>(), vec!["a", "b", "c"]);
    let week = Tasks::apply_week(&store, given.clone(), &at(TODAY)).unwrap();
    assert_eq!(week.iter().map(|t| t.name.as_str()).collect::<Vec<_>>(), vec!["a", "b"]);
    let day = Tasks::apply_day(&store, given.clone(), &at(TODAY + DAY)).unwrap();
    assert_eq!(day, given);
    let none = Tasks::apply_month(&Store::new(), given.clone(), &at(TODAY)).unwrap();
    assert_eq!(none, given);
}

#[test]
fn total_counts_completed_tasks_only() {
    let tasks = Tasks {
        inner: vec![
            task("a", TODAY, Some(TODAY + 90)),
            task("open", TODAY, None),
            task("b", TODAY + 100, Some(TODAY + 3_700)),
        ],
    };
    assert_eq!(tasks.time_spent(), 90 + 3_600);
    let open = Tasks { inner: vec![task("x", TODAY, None), task("y", TODAY + 5, None)] };
    assert_eq!(open.time_spent(), 0);
    assert_eq!(Tasks { inner: vec![] }.time_spent(), 0);
    let backwards = Tasks { inner: vec![task("z", TODAY, Some(TODAY - 30))] };
    assert_eq!(backwards.time_spent(), -30);
}

#[test]
fn names_come_once_each() {
    let tasks = Tasks {
        inner: vec![
            task("b", TODAY, None),
            task("a", TODAY, None),
            task("b", TODAY, None),
            task("c", TODAY, None),
            task("a", TODAY, None),
        ],
    };
    assert_eq!(tasks.get_names(), vec!["b", "a", "c"]);
    assert!(Tasks { inner: vec![] }.get_names().is_empty());
}

#[test]
fn latest_by_name_is_the_first_in_the_list() {
    let tasks = Tasks {
        inner: vec![
            task("a", TODAY + 30, None),
            task("b", TODAY + 20, None),
            task("a", TODAY + 10, Some(TODAY + 15)),
        ],
    };
    assert_eq!(tasks.get_latest_task_by_name("a").unwrap().start, at(TODAY + 30));
    assert_eq!(tasks.get_latest_task_by_name("b").unwrap().start, at(TODAY + 20));
    assert!(tasks.get_latest_task_by_name("c").is_none());
    assert!(tasks.get_latest_task_by_name("").is_none());
}

#[test]
fn week_runs_from_monday_to_sunday() {
    // 2024-06-05 is day 19879, a Wednesday.
    let (first, last) = Tasks::first_and_last_dates_of_week(Date { days: 19_879 });
    assert_eq!(first, Date { days: 19_877 });
    assert_eq!(last, Date { days: 19_883 });
    let (first, last) = Tasks::first_and_last_dates_of_week(Date { days: 19_877 });
    assert_eq!((first.days, last.days), (19_877, 19_883));
    let (first, last) = Tasks::first_and_last_dates_of_week(Date { days: 19_883 });
    assert_eq!((first.days, last.days), (19_877, 19_883));
    // 1970-01-01 was a Thursday; 1969-12-28 a Sunday.
    let (first, last) = Tasks::first_and_last_dates_of_week(Date { days: 0 });
    assert_eq!((first.days, last.days), (-3, 3));
    let (first, last) = Tasks::first_and_last_dates_of_week(Date { days: -4 });
    assert_eq!((first.days, last.days), (-10, -4));
}

#[test]
fn output_shows_each_task() {
    let tasks = Tasks {
        inner: vec![task("a", TODAY, Some(TODAY + 120)), task("b", TODAY, Some(TODAY + 7_260))],
    };
    let lines = tasks.output_task(&at(TODAY + 10_000));
    assert_eq!(
        lines,
        vec![
            "*******************",
            "* a",
            "* - Project: infra",
            "* - Time Logged: 2 (Mins)",
            "*******************",
            "*******************",
            "* b",
            "* - Project: infra",
            "* - Time Logged: 2:1 (Hours:Mins)",
            "*******************",
        ]
    );
}
