use time_tracker::config::Config;
use time_tracker::dir::Dir;
use time_tracker::input::{confirm, confirm_prompt, input, prompt};
use time_tracker::out::projects::ProjectsOut;
use time_tracker::out::task::{pretty_duration, TaskOut};
use time_tracker::projects::Projects;
use time_tracker::store::Store;
use time_tracker::task::Task;
use time_tracker::text::{
    chars, contains_char, decimal_text, join, push_decimal, same_texts, split, text_of, trim,
};
use time_tracker::time::Timestamp;

fn strings(list: &[&str]) -> Vec<String> {
    list.iter().map(|s| s.to_string()).collect()
}

#[test]
fn trim_removes_white_space_around() {
    assert_eq!(trim("  a b \t\n"), "a b");
    assert_eq!(trim("a"), "a");
    assert_eq!(trim(""), "");
    assert_eq!(trim(" \n\t "), "");
    assert_eq!(trim("\u{2003}x\u{a0}"), "x");
    assert_eq!(trim(" é "), "é");
}

#[test]
fn split_cuts_at_every_separator() {
    assert_eq!(split("a,b,c", ','), vec!["a", "b", "c"]);
    assert_eq!(split("", ','), vec![""]);
    assert_eq!(split(",", ','), vec!["", ""]);
    assert_eq!(split("a,,b,", ','), vec!["a", "", "b", ""]);
    assert_eq!(split("no separator", ','), vec!["no separator"]);
    for text in ["a,b", "", ",,", "x", ",x,"] {
        let expected: Vec<&str> = text.split(',').collect();
        assert_eq!(split(text, ','), expected);
    }
}

#[test]
fn join_puts_the_separator_between() {
    assert_eq!(join(&strings(&["a", "b", "c"]), ","), "a,b,c");
    assert_eq!(join(&strings(&["a"]), ","), "a");
    assert_eq!(join(&strings(&[]), ","), "");
    assert_eq!(join(&strings(&["", ""]), ", "), ", ");
}

#[test]
fn decimal_numerals() {
    assert_eq!(decimal_text(0), "0");
    assert_eq!(decimal_text(7), "7");
    assert_eq!(decimal_text(10), "10");
    assert_eq!(decimal_text(2024), "2024");
    assert_eq!(decimal_text(-15), "-15");
    assert_eq!(decimal_text(i64::MAX), "9223372036854775807");
    assert_eq!(decimal_text(i64::MIN), "-9223372036854775808");
    let mut text = String::from("n=");
    push_decimal(&mut text, 405);
    assert_eq!(text, "n=405");
    push_decimal(&mut text, u64::MAX);
    assert_eq!(text, "n=40518446744073709551615");
}

#[test]
fn characters_in_and_out() {
    assert_eq!(chars("héllo"), vec!['h', 'é', 'l', 'l', 'o']);
    assert_eq!(text_of(&chars("héllo"), 1, 4), "éll");
    assert_eq!(text_of(&chars("héllo"), 2, 2), "");
    assert!(contains_char("a\nb", '\n'));
    assert!(!contains_char("ab", '\n'));
    assert!(!contains_char("", 'a'));
    assert!(same_texts(&strings(&["a", "b"]), &strings(&["a", "b"])));
    assert!(!same_texts(&strings(&["a", "b"]), &strings(&["a", "c"])));
    assert!(!same_texts(&strings(&["a"]), &strings(&["a", "b"])));
    assert!(same_texts(&strings(&[]), &strings(&[])));
}

#[test]
fn projects_are_read_trimmed() {
    let projects = Projects::new(" infra , web,ops ");
    assert_eq!(projects.get(), &strings(&["infra", "web", "ops"]));
    assert!(projects.contains("web"));
    assert!(!projects.contains(" web"));
    assert!(!projects.contains("Web"));
    assert_eq!(Projects::new("").get(), &strings(&[""]));
    assert!(Projects::new("").contains(""));
    assert_eq!(Projects::new("a,,b").get(), &strings(&["a", "", "b"]));
}

#[test]
fn projects_are_added_once() {
    let mut projects = Projects::new("b,a");
    assert!(projects.add("c"));
    assert!(!projects.add("a"));
    assert_eq!(projects.get(), &strings(&["b", "a", "c"]));
}

#[test]
fn first_project_of_a_name_is_deleted() {
    let mut projects = Projects::new("a,b,a,c");
    assert!(projects.delete("a"));
    assert_eq!(projects.get(), &strings(&["b", "a", "c"]));
    assert!(!projects.delete("z"));
    assert_eq!(projects.get(), &strings(&["b", "a", "c"]));
    assert!(projects.delete("c"));
    assert_eq!(projects.get(), &strings(&["b", "a"]));
}

#[test]
fn projects_are_saved_sorted_without_empty_names() {
    assert_eq!(Projects::new("web, infra,,ops").save(), "infra,ops,web");
    assert_eq!(Projects::new("").save(), "");
    assert_eq!(Projects::new("b,a,b").save(), "a,b,b");
    assert_eq!(Projects::new("ab,a,B,é,z").save(), "B,a,ab,z,é");
    let saved = Projects::new(" x ,y").save();
    assert_eq!(Projects::new(&saved).get(), &strings(&["x", "y"]));
}

#[test]
fn projects_are_listed() {
    assert_eq!(
        ProjectsOut::list(&Projects::new("infra,web")),
        vec!["Available projects:", " - infra", " - web"]
    );
    assert_eq!(ProjectsOut::list(&Projects::new("")), vec!["Available projects:", " - "]);
}

#[test]
fn prompts_show_the_default() {
    assert_eq!(prompt("Task name", &Some("last".to_string())), "Task name (last):");
    assert_eq!(prompt("Task name", &None), "Task name:");
    assert_eq!(confirm_prompt("Are you sure"), "Are you sure (y):");
}

#[test]
fn answers_fall_back_to_the_default() {
    assert_eq!(input("  typed \n", Some("d".to_string())), Some("typed".to_string()));
    assert_eq!(input("\n", Some("d".to_string())), Some("d".to_string()));
    assert_eq!(input("", None), None);
    assert_eq!(input("   ", None), None);
    assert_eq!(input("x", None), Some("x".to_string()));
}

#[test]
fn yes_is_y_yes_or_nothing() {
    for answer in ["y\n", "Y", " yes ", "YES\n", "", "\n", "  "] {
        assert!(confirm(answer), "{:?}", answer);
    }
    for answer in ["n", "no", "yess", "y e s", "ja"] {
        assert!(!confirm(answer), "{:?}", answer);
    }
}

#[test]
fn durations_are_shown_in_days_hours_and_minutes() {
    assert_eq!(pretty_duration(0), "0 (Mins)");
    assert_eq!(pretty_duration(59), "0 (Mins)");
    assert_eq!(pretty_duration(60), "1 (Mins)");
    assert_eq!(pretty_duration(90), "1 (Mins)");
    assert_eq!(pretty_duration(3_599), "59 (Mins)");
    assert_eq!(pretty_duration(3_600), "1:0 (Hours:Mins)");
    assert_eq!(pretty_duration(3_600 * 5 + 60 * 7 + 3), "5:7 (Hours:Mins)");
    assert_eq!(pretty_duration(86_400), "1:0:0 (Days:Hours:Mins)");
    assert_eq!(pretty_duration(86_400 * 12 + 3_600 * 23 + 60 * 59 + 59), "12:23:59 (Days:Hours:Mins)");
    assert_eq!(pretty_duration(-1), "0 (Mins)");
    assert_eq!(pretty_duration(-300), "-5 (Mins)");
    assert_eq!(pretty_duration(-3_900), "-5 (Mins)");
    assert_eq!(pretty_duration(i64::MAX), "106751991167300:15:30 (Days:Hours:Mins)");
    assert_eq!(pretty_duration(i64::MIN), "-30 (Mins)");
}

#[test]
fn durations_agree_with_chrono() {
    for seconds in [0_i64, 59, 61, 3_600, 86_399, 86_400, 100_000, 1_000_000, -59, -61, -4_000, -90_000] {
        let duration = chrono::TimeDelta::seconds(seconds);
        let days = duration.num_days();
        let hours = (duration - chrono::TimeDelta::days(days)).num_hours();
        let minutes = (duration - chrono::TimeDelta::days(days) - chrono::TimeDelta::hours(hours))
            .num_minutes();
        let time = format!(
            "{}{}{}",
            if days > 0 { format!("{}:", days) } else { String::new() },
            if hours > 0 || days > 0 { format!("{}:", hours) } else { String::new() },
            minutes
        );
        let units = format!(
            "{}{}Mins",
            if days > 0 { "Days:" } else { "" },
            if hours > 0 || days > 0 { "Hours:" } else { "" }
        );
        assert_eq!(pretty_duration(seconds), format!("{} ({})", time, units));
    }
}

#[test]
fn task_is_shown_with_its_ticket() {
    let start = Timestamp::new(1_717_401_600, 0, 7200).unwrap();
    let later = Timestamp::new(1_717_401_600 + 3_600 * 26, 0, 7200).unwrap();
    let mut task = Task {
        name: "Fix bug".to_string(),
        ticket_number: Some("AB-12".to_string()),
        project: "infra".to_string(),
        start,
        end: Some(Timestamp::new(1_717_401_690, 0, 7200).unwrap()),
        current: false,
    };
    assert_eq!(
        TaskOut::current_task(&task, &later),
        vec![
            "*******************",
            "* Fix bug <AB-12>",
            "* - Project: infra",
            "* - Time Logged: 1 (Mins)",
            "*******************",
        ]
    );
    task.current = true;
    assert_eq!(TaskOut::current_task(&task, &later)[3], "* - Time Logged: 1:2:0 (Days:Hours:Mins)");
    task.current = false;
    task.end = None;
    task.ticket_number = None;
    assert_eq!(TaskOut::current_task(&task, &later)[1], "* Fix bug");
    assert_eq!(TaskOut::current_task(&task, &later)[3], "* - Time Logged: 1:2:0 (Days:Hours:Mins)");
}

#[test]
fn paths_lie_below_the_home_directory() {
    let now = Timestamp::new(1_717_401_600, 0, 7200).unwrap();
    let dir = Dir::new("/home/me", &now);
    assert_eq!(dir.time_tracker_dir, "/home/me/.time_tracker");
    assert_eq!(dir.config_file, "/home/me/.time_tracker/config.toml");
    assert_eq!(dir.projects_file, "/home/me/.time_tracker/projects");
    assert_eq!(dir.current_file, "/home/me/.time_tracker/current");
    assert_eq!(dir.last_file, "/home/me/.time_tracker/last");
    assert_eq!(dir.current_year, "2024");
    assert_eq!(dir.current_month, "6");
    assert_eq!(dir.log_file, "/home/me/.time_tracker/2024/6");
    assert_eq!(dir.get_log_file_location(), "/home/me/.time_tracker/2024/6");
    assert_eq!(dir.month_file("2023", "12"), "/home/me/.time_tracker/2023/12");
    assert_eq!(Dir::time_tracker_dir("/root"), "/root/.time_tracker");
    assert_eq!(Dir::year_dir("/root/.time_tracker", "1999"), "/root/.time_tracker/1999");
}

#[test]
fn editor_falls_back() {
    assert_eq!(Config { editor: Some("vim".to_string()) }.editor_or("xdg-open"), "vim");
    assert_eq!(Config { editor: None }.editor_or("xdg-open"), "xdg-open");
}

#[test]
fn store_holds_one_log_for_each_month() {
    let mut store = Store::new();
    assert!(store.current().is_none() && store.last().is_none() && store.logs().is_empty());
    store.set_log(2024, 6, "a".to_string());
    store.set_log(2024, 7, "b".to_string());
    store.set_log(2024, 6, "c".to_string());
    assert_eq!(store.logs().len(), 2);
    assert_eq!(store.log(2024, 6).map(|s| s.as_str()), Some("c"));
    assert_eq!(store.log(2024, 7).map(|s| s.as_str()), Some("b"));
    assert!(store.log(2023, 6).is_none());
    store.append_log(2024, 6, "d");
    store.append_log(2025, 1, "e");
    assert_eq!(store.log(2024, 6).map(|s| s.as_str()), Some("cd"));
    assert_eq!(store.log(2025, 1).map(|s| s.as_str()), Some("e"));
    assert_eq!(store.logs().len(), 3);
    store.set_current(Some("now".to_string()));
    store.set_last(Some("then".to_string()));
    assert_eq!(store.current().map(|s| s.as_str()), Some("now"));
    assert_eq!(store.last().map(|s| s.as_str()), Some("then"));
    store.set_current(None);
    assert!(store.current().is_none());
    assert_eq!(store.last().map(|s| s.as_str()), Some("then"));
}
