//! The tasks of a reporting window, read from the log of a month, latest first.

use crate::error::TaskError;
use crate::out::task::{task_lines, TaskOut};
use crate::store::{Store, StoreView};
use crate::task::{
    lemma_written_reads_back, log_key, persistable, records_of, stored, views, with_logged, Task,
    TaskView,
};
use crate::text::texts;
use crate::time::{days_from_monday, seconds_between, week_end, week_start, Date, Timestamp};
use vstd::prelude::*;
use vstd::string::*;

verus! {

/// The tasks of a reporting window, the one logged last first.
#[derive(Clone, Debug)]
pub struct Tasks {
    pub inner: Vec<Task>,
}

/// The reporting windows.
#[derive(Clone, Copy, Debug, PartialEq, Eq, Structural)]
pub enum ChronoUnit {
    Year,
    Month,
    Week,
    Day,
}

/// Whether a task began in the week of `today`: after its Monday, and on or
/// before its Sunday. A task that began on the Monday itself is left out.
pub open spec fn in_week(task: TaskView, today: Date) -> bool {
    let began = task.start.spec_date();
    week_start(today).days < began.days && week_end(today).days >= began.days
}

/// Whether a task began on `today`, or has an end and ended on `today`.
pub open spec fn in_day(task: TaskView, today: Date) -> bool {
    task.start.spec_date() == today || (task.end matches Some(end) && end.spec_date() == today)
}

/// Whether a window around `today` takes a task of the month's log.
pub open spec fn keeps(unit: ChronoUnit, task: TaskView, today: Date) -> bool {
    match unit {
        ChronoUnit::Year => false,
        ChronoUnit::Month => true,
        ChronoUnit::Week => in_week(task, today),
        ChronoUnit::Day => in_day(task, today),
    }
}

/// The test that a window around `today` puts to each task.
pub open spec fn keeper(unit: ChronoUnit, today: Date) -> spec_fn(TaskView) -> bool {
    |task: TaskView| keeps(unit, task, today)
}

/// The records of a log that a window takes, in the order of the log.
pub open spec fn selected(unit: ChronoUnit, records: Seq<TaskView>, today: Date) -> Seq<TaskView> {
    match unit {
        ChronoUnit::Month => records,
        _ => records.filter(keeper(unit, today)),
    }
}

/// What gathering a window's tasks behind `given` comes to: `given` alone
/// where the month of `reference` has no log, an error where its log is not
/// well formed, else `given` followed by what the window takes of the log.
pub open spec fn gathered(
    unit: ChronoUnit,
    store: StoreView,
    given: Seq<TaskView>,
    reference: Timestamp,
) -> Result<Seq<TaskView>, TaskError> {
    match store.log(reference.spec_year(), reference.spec_month()) {
        None => Ok(given),
        Some(text) => match records_of(text) {
            None => Err(TaskError::Io),
            Some(records) => Ok(given + selected(unit, records, reference.spec_date())),
        },
    }
}

/// What loading a window comes to: an error for the window of a year, which
/// is not offered, and for a log that is not well formed; else the tasks that
/// the window takes of the log of the month of `reference`, the one logged
/// last first, or none where there are none.
pub open spec fn loaded(unit: ChronoUnit, store: StoreView, reference: Timestamp) -> Result<
    Option<Seq<TaskView>>,
    TaskError,
> {
    if unit == ChronoUnit::Year {
        Err(TaskError::Unsupported)
    } else {
        match gathered(unit, store, Seq::<TaskView>::empty(), reference) {
            Err(e) => Err(e),
            Ok(found) => if found.len() == 0 {
                Ok(None)
            } else {
                Ok(Some(found.reverse()))
            },
        }
    }
}

/// The seconds from the start of a task to its end; none for an open task.
pub open spec fn ended_seconds(task: TaskView) -> int {
    match task.end {
        Some(end) => seconds_between(task.start, end),
        None => 0,
    }
}

/// The seconds of all the tasks that have ended.
pub open spec fn total_seconds(tasks: Seq<TaskView>) -> int
    decreases tasks.len(),
{
    if tasks.len() == 0 {
        0
    } else {
        total_seconds(tasks.drop_last()) + ended_seconds(tasks.last())
    }
}

/// The names of the tasks, each once, in the order in which they first occur.
pub open spec fn distinct_names(tasks: Seq<TaskView>) -> Seq<Seq<char>>
    decreases tasks.len(),
{
    if tasks.len() == 0 {
        Seq::<Seq<char>>::empty()
    } else {
        let before = distinct_names(tasks.drop_last());
        if before.contains(tasks.last().name) {
            before
        } else {
            before.push(tasks.last().name)
        }
    }
}

/// The lines that show some tasks, one task after the other.
pub open spec fn all_task_lines(tasks: Seq<TaskView>, now: Timestamp) -> Seq<Seq<char>>
    decreases tasks.len(),
{
    if tasks.len() == 0 {
        Seq::<Seq<char>>::empty()
    } else {
        all_task_lines(tasks.drop_last(), now) + task_lines(tasks.last(), now)
    }
}

/// Whether each of some tasks has timestamps in range.
pub open spec fn all_wf(tasks: Seq<Task>) -> bool {
    forall|i: int| 0 <= i < tasks.len() ==> (#[trigger] tasks[i]).wf()
}

/// Whether a window around `today`, whose week runs from `first` to `last`,
/// takes a task.
fn takes(unit: ChronoUnit, task: &Task, today: Date, first: Date, last: Date) -> (taken: bool)
    requires
        task.wf(),
        first == week_start(today),
        last == week_end(today),
    ensures
        taken == keeps(unit, task@, today),
{
    match unit {
        ChronoUnit::Year => false,
        ChronoUnit::Month => true,
        ChronoUnit::Week => {
            let began = task.start.date();
            first.days < began.days && last.days >= began.days
        },
        ChronoUnit::Day => {
            if task.start.date() == today {
                true
            } else {
                match task.end {
                    Some(end) => end.date() == today,
                    None => false,
                }
            }
        },
    }
}

/// Puts behind `tasks` what a window takes of the log of the month of `reference`.
fn gather(unit: ChronoUnit, store: &Store, tasks: Vec<Task>, reference: &Timestamp) -> (result:
    Result<Vec<Task>, TaskError>)
    requires
        store.wf(),
        reference.wf(),
    ensures
        gathered(unit, store@, views(tasks@), *reference) == (match result {
            Ok(list) => Ok::<Seq<TaskView>, TaskError>(views(list@)),
            Err(e) => Err(e),
        }),
        all_wf(tasks@) ==> (result matches Ok(list) ==> all_wf(list@)),
{
    let text = match store.log(reference.year(), reference.month()) {
        Some(text) => text,
        None => {
            return Ok(tasks);
        },
    };
    let records = match Task::read_all(text.as_str()) {
        Some(records) => records,
        None => {
            return Err(TaskError::Io);
        },
    };
    let today = reference.date();
    let (first, last) = Tasks::first_and_last_dates_of_week(today);
    let mut tasks = tasks;
    let ghost given = tasks@;
    let ghost test = keeper(unit, today);
    let mut at: usize = 0;
    assert(views(records@).take(0).filter(test) =~= Seq::<TaskView>::empty()) by {
        reveal(Seq::filter);
    }
    while at < records.len()
        invariant
            at <= records.len(),
            first == week_start(today),
            last == week_end(today),
            test == keeper(unit, today),
            all_wf(records@),
            all_wf(given) ==> all_wf(tasks@),
            views(tasks@) == views(given) + views(records@).take(at as int).filter(test),
        decreases records.len() - at,
    {
        let ghost seen = views(records@).take(at as int);
        let ghost more = views(records@).take(at as int + 1);
        proof {
            reveal(Seq::filter);
            assert(more.drop_last() =~= seen);
            assert(more.filter(test) == (if test(more.last()) {
                seen.filter(test).push(more.last())
            } else {
                seen.filter(test)
            }));
        }
        if takes(unit, &records[at], today, first, last) {
            let ghost before = tasks@;
            tasks.push(records[at].duplicate());
            assert(views(tasks@) =~= views(before).push(records@[at as int]@));
        }
        at = at + 1;
    }
    proof {
        assert(views(records@).take(at as int) =~= views(records@));
        if unit == ChronoUnit::Month {
            lemma_month_takes_all(views(records@), today);
        }
    }
    Ok(tasks)
}

impl View for Tasks {
    type V = Seq<TaskView>;

    open spec fn view(&self) -> Seq<TaskView> {
        views(self.inner@)
    }
}

impl Tasks {
    /// Whether the timestamps of every task are in range.
    pub open spec fn wf(&self) -> bool {
        all_wf(self.inner@)
    }

    /// Loads the tasks of a window around `reference` from the log of its
    /// month, the one logged last first. A month without a log, and a window
    /// that takes nothing, give `None`; the window of a year is not offered;
    /// a log that is not well formed is an error.
    pub fn new(unit: ChronoUnit, store: &Store, reference: &Timestamp) -> (result: Result<
        Option<Tasks>,
        TaskError,
    >)
        requires
            store.wf(),
            reference.wf(),
        ensures
            loaded(unit, store@, *reference) == (match result {
                Ok(Some(tasks)) => Ok::<Option<Seq<TaskView>>, TaskError>(Some(tasks@)),
                Ok(None) => Ok(None),
                Err(e) => Err(e),
            }),
            result matches Ok(Some(tasks)) ==> tasks.wf() && tasks@.len() > 0,
    {
        let tasks: Vec<Task> = Vec::new();
        let found = match unit {
            ChronoUnit::Year => {
                return Err(TaskError::Unsupported);
            },
            ChronoUnit::Month => Tasks::apply_month(store, tasks, reference),
            ChronoUnit::Week => Tasks::apply_week(store, tasks, reference),
            ChronoUnit::Day => Tasks::apply_day(store, tasks, reference),
        };
        let mut found = match found {
            Ok(found) => found,
            Err(e) => {
                return Err(e);
            },
        };
        if found.len() == 0 {
            return Ok(None);
        }
        let ghost whole = found@;
        let mut inner: Vec<Task> = Vec::new();
        while found.len() > 0
            invariant
                all_wf(found@),
                all_wf(inner@),
                found@.len() <= whole.len(),
                inner@.len() == whole.len() - found@.len(),
                found@ == whole.take(found@.len() as int),
                forall|i: int|
                    0 <= i < inner@.len() ==> (#[trigger] inner@[i]) == whole[whole.len() - 1 - i],
            decreases found.len(),
        {
            let task = found.pop().unwrap();
            assert(task.wf());
            inner.push(task);
        }
        assert(views(inner@) =~= views(whole).reverse());
        Ok(Some(Tasks { inner }))
    }

    /// The Monday and the Sunday of the week of `date`.
    pub fn first_and_last_dates_of_week(date: Date) -> (week: (Date, Date))
        requires
            date.wf(),
        ensures
            week.0 == week_start(date),
            week.1 == week_end(date),
            week.1.days == week.0.days + 6,
            week.0.days <= date.days <= week.1.days,
            days_from_monday(week.0) == 0,
            days_from_monday(week.1) == 6,
    {
        let first = Date { days: date.days - date.days_from_monday() };
        let last = Date { days: first.days + 6 };
        (first, last)
    }

    /// Puts behind `tasks` the tasks of the log of the month of `reference`
    /// that began in its week, after the Monday.
    pub fn apply_week(store: &Store, tasks: Vec<Task>, reference: &Timestamp) -> (result: Result<
        Vec<Task>,
        TaskError,
    >)
        requires
            store.wf(),
            reference.wf(),
        ensures
            gathered(ChronoUnit::Week, store@, views(tasks@), *reference) == (match result {
                Ok(list) => Ok::<Seq<TaskView>, TaskError>(views(list@)),
                Err(e) => Err(e),
            }),
            all_wf(tasks@) ==> (result matches Ok(list) ==> all_wf(list@)),
    {
        gather(ChronoUnit::Week, store, tasks, reference)
    }

    /// Puts behind `tasks` the tasks of the log of the month of `reference`
    /// that began or ended on its day.
    pub fn apply_day(store: &Store, tasks: Vec<Task>, reference: &Timestamp) -> (result: Result<
        Vec<Task>,
        TaskError,
    >)
        requires
            store.wf(),
            reference.wf(),
        ensures
            gathered(ChronoUnit::Day, store@, views(tasks@), *reference) == (match result {
                Ok(list) => Ok::<Seq<TaskView>, TaskError>(views(list@)),
                Err(e) => Err(e),
            }),
            all_wf(tasks@) ==> (result matches Ok(list) ==> all_wf(list@)),
    {
        gather(ChronoUnit::Day, store, tasks, reference)
    }

    /// Puts behind `tasks` every task of the log of the month of `reference`.
    pub fn apply_month(store: &Store, tasks: Vec<Task>, reference: &Timestamp) -> (result: Result<
        Vec<Task>,
        TaskError,
    >)
        requires
            store.wf(),
            reference.wf(),
        ensures
            gathered(ChronoUnit::Month, store@, views(tasks@), *reference) == (match result {
                Ok(list) => Ok::<Seq<TaskView>, TaskError>(views(list@)),
                Err(e) => Err(e),
            }),
            all_wf(tasks@) ==> (result matches Ok(list) ==> all_wf(list@)),
    {
        gather(ChronoUnit::Month, store, tasks, reference)
    }

    /// The seconds spent on the tasks that have ended; open tasks count for nothing.
    pub fn time_spent(&self) -> (seconds: i64)
        requires
            self.wf(),
            i64::MIN <= total_seconds(self@) <= i64::MAX,
        ensures
            seconds == total_seconds(self@),
    {
        let mut sum: i128 = 0;
        let mut at: usize = 0;
        while at < self.inner.len()
            invariant
                at <= self.inner.len(),
                self.wf(),
                sum == total_seconds(self@.take(at as int)),
                -(at as int) * 400_000_000_000 <= sum <= (at as int) * 400_000_000_000,
            decreases self.inner.len() - at,
        {
            assert(self@.take(at as int + 1).drop_last() =~= self@.take(at as int));
            let task = &self.inner[at];
            let spent: i64 = match task.end {
                Some(end) => end.seconds_since(&task.start),
                None => 0,
            };
            sum = sum + spent as i128;
            at = at + 1;
        }
        assert(self@.take(at as int) =~= self@);
        sum as i64
    }

    /// The lines that show the tasks, one task after the other, as seen at `now`.
    pub fn output_task(&self, now: &Timestamp) -> (lines: Vec<String>)
        requires
            self.wf(),
            now.wf(),
        ensures
            texts(lines@) == all_task_lines(self@, *now),
    {
        let mut lines: Vec<String> = Vec::new();
        let mut at: usize = 0;
        while at < self.inner.len()
            invariant
                at <= self.inner.len(),
                self.wf(),
                now.wf(),
                texts(lines@) == all_task_lines(self@.take(at as int), *now),
            decreases self.inner.len() - at,
        {
            assert(self@.take(at as int + 1).drop_last() =~= self@.take(at as int));
            let mut shown = TaskOut::current_task(&self.inner[at], now);
            lines.append(&mut shown);
            at = at + 1;
        }
        assert(self@.take(at as int) =~= self@);
        lines
    }

    /// The names of the tasks, each once, in the order in which they first occur.
    pub fn get_names(&self) -> (names: Vec<String>)
        ensures
            texts(names@) == distinct_names(self@),
            texts(names@).no_duplicates(),
            forall|name: Seq<char>|
                texts(names@).contains(name) <==> exists|i: int|
                    0 <= i < self@.len() && (#[trigger] self@[i]).name == name,
    {
        proof {
            lemma_distinct_names(self@);
        }
        let mut names: Vec<String> = Vec::new();
        let mut at: usize = 0;
        while at < self.inner.len()
            invariant
                at <= self.inner.len(),
                texts(names@) == distinct_names(self@.take(at as int)),
            decreases self.inner.len() - at,
        {
            assert(self@.take(at as int + 1).drop_last() =~= self@.take(at as int));
            let name = &self.inner[at].name;
            let mut known = false;
            let mut seen: usize = 0;
            while seen < names.len()
                invariant
                    seen <= names.len(),
                    known == (exists|i: int| 0 <= i < seen && texts(names@)[i] == name@),
                decreases names.len() - seen,
            {
                if names[seen].as_str().eq(name.as_str()) {
                    assert(texts(names@)[seen as int] == name@);
                    known = true;
                }
                seen = seen + 1;
            }
            if !known {
                names.push(name.clone());
            }
            at = at + 1;
        }
        assert(self@.take(at as int) =~= self@);
        names
    }

    /// The first task of this name, which is the one logged last.
    pub fn get_latest_task_by_name(&self, name: &str) -> (task: Option<&Task>)
        ensures
            match task {
                Some(found) => exists|i: int|
                    0 <= i < self.inner@.len() && *found == #[trigger] self.inner@[i] && found@.name
                        == name@ && forall|j: int| 0 <= j < i ==> self@[j].name != name@,
                None => forall|i: int| 0 <= i < self@.len() ==> self@[i].name != name@,
            },
    {
        let mut at: usize = 0;
        while at < self.inner.len()
            invariant
                at <= self.inner.len(),
                forall|j: int| 0 <= j < at ==> self@[j].name != name@,
            decreases self.inner.len() - at,
        {
            if self.inner[at].name.as_str().eq(name) {
                return Some(&self.inner[at]);
            }
            at = at + 1;
        }
        None
    }
}

/// The test of the month's window takes every record.
proof fn lemma_month_takes_all(records: Seq<TaskView>, today: Date)
    ensures
        records.filter(keeper(ChronoUnit::Month, today)) == records,
    decreases records.len(),
{
    reveal(Seq::filter);
    if records.len() > 0 {
        lemma_month_takes_all(records.drop_last(), today);
    }
}

/// The window of a month holds every record of the log of that month, the
/// one added last first.
pub proof fn lemma_month_is_whole_log(store: StoreView, reference: Timestamp)
    ensures
        store.log(reference.spec_year(), reference.spec_month()) matches Some(text) ==> (records_of(
            text,
        ) matches Some(records) ==> loaded(ChronoUnit::Month, store, reference) == (if records.len()
            == 0 {
            Ok::<Option<Seq<TaskView>>, TaskError>(None)
        } else {
            Ok(Some(records.reverse()))
        })),
{
}

/// What the window of a week or of a day holds, the window of the month
/// around the same instant holds too.
pub proof fn lemma_window_within_month(
    unit: ChronoUnit,
    store: StoreView,
    reference: Timestamp,
    task: TaskView,
)
    requires
        loaded(unit, store, reference) matches Ok(Some(window)) && window.contains(task),
    ensures
        loaded(ChronoUnit::Month, store, reference) matches Ok(Some(month)) && month.contains(task)
            && month.len() >= (loaded(unit, store, reference)->Ok_0)->0.len(),
{
    let text = store.log(reference.spec_year(), reference.spec_month())->0;
    let records = records_of(text)->0;
    let today = reference.spec_date();
    if unit != ChronoUnit::Month {
        records.lemma_filter_len(keeper(unit, today));
        records.lemma_filter_contains_rev(keeper(unit, today), task);
    }
    let place = choose|i: int| 0 <= i < records.len() && records[i] == task;
    assert(records.reverse()[records.len() - 1 - place] == task);
}

/// A task logged under a month that had no log is, alone, what the window of
/// that month then holds.
pub proof fn lemma_logged_is_loaded(store: StoreView, task: TaskView, reference: Timestamp)
    requires
        persistable(task),
        log_key(task) == (reference.spec_year(), reference.spec_month()),
        store.log(reference.spec_year(), reference.spec_month()) is None,
    ensures
        loaded(ChronoUnit::Month, with_logged(store, task), reference) == Ok::<
            Option<Seq<TaskView>>,
            TaskError,
        >(Some(seq![stored(task)])),
{
    lemma_written_reads_back(task);
    let records = seq![stored(task)];
    assert(records.reverse() =~= records);
}

/// Tasks that are all open have spent no time between them.
pub proof fn lemma_open_tasks_total_zero(tasks: Seq<TaskView>)
    requires
        forall|i: int| 0 <= i < tasks.len() ==> (#[trigger] tasks[i]).end is None,
    ensures
        total_seconds(tasks) == 0,
    decreases tasks.len(),
{
    if tasks.len() > 0 {
        let before = tasks.drop_last();
        lemma_open_tasks_total_zero(before);
    }
}

/// The total of two lists of tasks, one after the other, is the sum of their totals.
pub proof fn lemma_total_of_both(first: Seq<TaskView>, second: Seq<TaskView>)
    ensures
        total_seconds(first + second) == total_seconds(first) + total_seconds(second),
    decreases second.len(),
{
    if second.len() > 0 {
        assert((first + second).drop_last() =~= first + second.drop_last());
        lemma_total_of_both(first, second.drop_last());
    }
}

/// The distinct names hold each name of the tasks, nothing else, and nothing twice.
pub proof fn lemma_distinct_names(tasks: Seq<TaskView>)
    ensures
        distinct_names(tasks).no_duplicates(),
        forall|name: Seq<char>|
            distinct_names(tasks).contains(name) <==> exists|i: int|
                0 <= i < tasks.len() && (#[trigger] tasks[i]).name == name,
    decreases tasks.len(),
{
    if tasks.len() > 0 {
        let before = tasks.drop_last();
        let names = distinct_names(before);
        let last = tasks.last().name;
        lemma_distinct_names(before);
        assert forall|name: Seq<char>|
            distinct_names(tasks).contains(name) <==> exists|i: int|
                0 <= i < tasks.len() && (#[trigger] tasks[i]).name == name by {
            if distinct_names(tasks).contains(name) {
                if names.contains(name) {
                    let i = choose|i: int| 0 <= i < before.len() && (#[trigger] before[i]).name == name;
                } else {
                    let at = choose|i: int|
                        0 <= i < distinct_names(tasks).len() && distinct_names(tasks)[i] == name;
                }
            }
            if exists|i: int| 0 <= i < tasks.len() && (#[trigger] tasks[i]).name == name {
                let i = choose|i: int| 0 <= i < tasks.len() && (#[trigger] tasks[i]).name == name;
                if i < before.len() {
                    assert(before[i].name == name);
                    assert(names.contains(name));
                    let at = choose|k: int| 0 <= k < names.len() && names[k] == name;
                    assert(distinct_names(tasks)[at] == name);
                } else {
                    if !names.contains(last) {
                        assert(distinct_names(tasks)[names.len() as int] == last);
                    }
                }
            }
        }
    }
}

} // verus!
