//! The task record, its written form, and its life: opened as the current
//! task, completed, kept as the last task and logged under the month it began in.

use crate::codec::{csv_record_text, csv_rows, read_rows, rows_view, write_record};
use crate::error::TaskError;
use crate::projects::Projects;
use crate::store::{Store, StoreView};
use crate::text::{contains_char, optional_text, same_texts, texts};
use crate::time::{seconds_between, timestamp_of, Timestamp};
use vstd::prelude::*;
use vstd::string::*;

verus! {

/// One unit of tracked work.
#[derive(Clone, Debug, PartialEq, Eq)]
pub struct Task {
    pub name: String,
    pub ticket_number: Option<String>,
    pub project: String,
    pub start: Timestamp,
    pub end: Option<Timestamp>,
    /// Set on the record read from the current-task file; never written.
    pub current: bool,
}

/// What a task record holds.
pub struct TaskView {
    pub name: Seq<char>,
    pub ticket_number: Option<Seq<char>>,
    pub project: Seq<char>,
    pub start: Timestamp,
    pub end: Option<Timestamp>,
    pub current: bool,
}

/// The two written forms of a record: `line` is the record alone, as it is
/// added to a log; `file` is the column names followed by the record.
#[derive(Clone, Debug, PartialEq, Eq)]
pub struct Written {
    pub file: String,
    pub line: String,
}

impl View for Task {
    type V = TaskView;

    open spec fn view(&self) -> TaskView {
        TaskView {
            name: self.name@,
            ticket_number: match self.ticket_number {
                Some(ticket) => Some(ticket@),
                None => None,
            },
            project: self.project@,
            start: self.start,
            end: self.end,
            current: self.current,
        }
    }
}

/// What each of some tasks holds.
pub open spec fn views(tasks: Seq<Task>) -> Seq<TaskView> {
    tasks.map_values(|task: Task| task@)
}

/// The names of the columns, in their fixed order.
pub open spec fn header_fields() -> Seq<Seq<char>> {
    seq!["Name"@, "TicketNumber"@, "Project"@, "Start"@, "End"@]
}

/// The fields of a record, in the order of the columns: a missing ticket
/// number and a missing end are empty fields.
pub open spec fn fields_of(task: TaskView) -> Seq<Seq<char>> {
    seq![
        task.name,
        match task.ticket_number {
            Some(ticket) => ticket,
            None => Seq::<char>::empty(),
        },
        task.project,
        task.start.text(),
        match task.end {
            Some(end) => end.text(),
            None => Seq::<char>::empty(),
        },
    ]
}

/// The record made of five fields and of the timestamps read from the fourth
/// and the fifth: none where the start was not read, or the end is written
/// and was not read; an empty ticket number or end is a missing one.
pub open spec fn assembled(
    fields: Seq<Seq<char>>,
    start: Option<Timestamp>,
    end: Option<Timestamp>,
) -> Option<TaskView> {
    if fields.len() != 5 || start is None || (fields[4].len() > 0 && end is None) {
        None
    } else {
        Some(
            TaskView {
                name: fields[0],
                ticket_number: if fields[1].len() == 0 {
                    None
                } else {
                    Some(fields[1])
                },
                project: fields[2],
                start: start->0,
                end: if fields[4].len() == 0 {
                    None
                } else {
                    end
                },
                current: false,
            },
        )
    }
}

/// The record that a row of fields stands for.
pub open spec fn record_of(fields: Seq<Seq<char>>) -> Option<TaskView> {
    if fields.len() != 5 {
        None
    } else {
        assembled(fields, timestamp_of(fields[3]), timestamp_of(fields[4]))
    }
}

/// The line of the column names.
pub open spec fn header_line() -> Option<Seq<char>> {
    csv_record_text(header_fields())
}

/// The line of a record.
pub open spec fn line_of(task: TaskView) -> Option<Seq<char>> {
    csv_record_text(fields_of(task))
}

/// The text of a file that holds one record under the column names.
pub open spec fn file_of(task: TaskView) -> Option<Seq<char>> {
    match (header_line(), line_of(task)) {
        (Some(header), Some(line)) => Some(header + line),
        _ => None,
    }
}

/// Whether each of some rows stands for a record.
pub open spec fn rows_are_records(rows: Seq<Seq<Seq<char>>>) -> bool {
    forall|i: int| 0 <= i < rows.len() ==> (#[trigger] record_of(rows[i])) is Some
}

/// The records of the rows of a file: those below the first row, which must
/// hold the column names. A file without rows has no records.
pub open spec fn records_of_rows(rows: Seq<Seq<Seq<char>>>) -> Option<Seq<TaskView>> {
    if rows.len() == 0 {
        Some(Seq::<TaskView>::empty())
    } else if rows[0] != header_fields() || !rows_are_records(rows.skip(1)) {
        None
    } else {
        Some(rows.skip(1).map_values(|row: Seq<Seq<char>>| record_of(row)->0))
    }
}

/// The records of a log, in the order in which they were added; `None` where
/// the text is no well-formed log.
pub open spec fn records_of(text: Seq<char>) -> Option<Seq<TaskView>> {
    match csv_rows(text) {
        Some(rows) => records_of_rows(rows),
        None => None,
    }
}

/// The one record of the rows of a current-task or last-task file: the row
/// below the column names, where it stands for a record with a name.
pub open spec fn first_of_rows(rows: Seq<Seq<Seq<char>>>) -> Option<TaskView> {
    if rows.len() < 2 || rows[0] != header_fields() {
        None
    } else {
        match record_of(rows[1]) {
            Some(task) => if task.name.len() > 0 {
                Some(task)
            } else {
                None
            },
            None => None,
        }
    }
}

/// The one record of a current-task or last-task file.
pub open spec fn first_of(text: Seq<char>) -> Option<TaskView> {
    match csv_rows(text) {
        Some(rows) => first_of_rows(rows),
        None => None,
    }
}

/// A record as it is stored: without the mark of the current task.
pub open spec fn stored(task: TaskView) -> TaskView {
    TaskView { current: false, ..task }
}

/// A record marked as the current task.
pub open spec fn marked(task: TaskView) -> TaskView {
    TaskView { current: true, ..task }
}

/// Whether some rows are the column names and, below them, one row that
/// stands for `task`.
pub open spec fn read_back(task: TaskView, rows: Seq<Seq<Seq<char>>>) -> bool {
    &&& rows.len() == 2
    &&& rows[0] == header_fields()
    &&& record_of(rows[1]) matches Some(read)
    &&& read == stored(task)
}

/// Whether a record can be written so that it reads back: it has a name, and
/// the file of its line under the column names reads as the column names and
/// one row that stands for the same record.
pub open spec fn persistable(task: TaskView) -> bool {
    &&& task.name.len() > 0
    &&& file_of(task) matches Some(file)
    &&& csv_rows(file) matches Some(rows)
    &&& read_back(task, rows)
}

/// The task that opens with these entries at `now`.
pub open spec fn opened(
    name: Seq<char>,
    ticket_number: Option<Seq<char>>,
    project: Seq<char>,
    now: Timestamp,
) -> TaskView {
    TaskView { name, ticket_number, project, start: now, end: None, current: true }
}

/// The year and month under which a record is logged: those of its start on
/// the local clock.
pub open spec fn log_key(task: TaskView) -> (i32, u32) {
    (task.start.spec_year(), task.start.spec_month())
}

/// The seconds spent on a task as seen at `now`: from start to end where it
/// has ended, from start to `now` where it is the current task, else none.
pub open spec fn time_spent(task: TaskView, now: Timestamp) -> int {
    match task.end {
        Some(end) => seconds_between(task.start, end),
        None => if task.current {
            seconds_between(task.start, now)
        } else {
            0
        },
    }
}

/// The store after `task` was made the current task.
pub open spec fn with_current(store: StoreView, task: TaskView) -> StoreView {
    StoreView { current: file_of(task), ..store }
}

/// The store after `task` was kept as the last task.
pub open spec fn with_last(store: StoreView, task: TaskView) -> StoreView {
    StoreView { last: file_of(task), ..store }
}

/// The store after `task` was logged: its line is added to the end of the log
/// of its month; a month without a log gets one that begins with the column names.
pub open spec fn with_logged(store: StoreView, task: TaskView) -> StoreView {
    let key = log_key(task);
    StoreView {
        logs: store.logs.insert(
            key,
            match store.log(key.0, key.1) {
                Some(held) => held + line_of(task)->0,
                None => file_of(task)->0,
            },
        ),
        ..store
    }
}

/// The store after `task` was completed: it is the last task, it is logged,
/// and there is no current task.
pub open spec fn with_completed(store: StoreView, task: TaskView) -> StoreView {
    StoreView { current: None, ..with_logged(with_last(store, task), task) }
}

/// The current task of a store.
pub open spec fn current_of(store: StoreView) -> Option<TaskView> {
    match store.current {
        Some(text) => match first_of(text) {
            Some(task) => Some(marked(task)),
            None => None,
        },
        None => None,
    }
}

/// The last completed task of a store.
pub open spec fn last_of(store: StoreView) -> Option<TaskView> {
    match store.last {
        Some(text) => first_of(text),
        None => None,
    }
}

/// What an optional task holds.
pub open spec fn optional_view(task: Option<Task>) -> Option<TaskView> {
    match task {
        Some(t) => Some(t@),
        None => None,
    }
}

/// Whether two optional texts are the same.
fn same_optional_text(a: &Option<String>, b: &Option<String>) -> (same: bool)
    ensures
        same == (optional_text(*a) == optional_text(*b)),
{
    match (a, b) {
        (Some(x), Some(y)) => x.as_str().eq(y.as_str()),
        (None, None) => true,
        _ => false,
    }
}

/// A copy of an optional text.
fn copy_optional_text(a: &Option<String>) -> (copy: Option<String>)
    ensures
        copy == *a,
{
    match a {
        Some(x) => Some(x.clone()),
        None => None,
    }
}

/// The names of the columns, in their fixed order.
pub fn header() -> (names: Vec<String>)
    ensures
        texts(names@) == header_fields(),
{
    let mut names: Vec<String> = Vec::new();
    names.push(String::from_str("Name"));
    names.push(String::from_str("TicketNumber"));
    names.push(String::from_str("Project"));
    names.push(String::from_str("Start"));
    names.push(String::from_str("End"));
    names
}

impl Task {
    /// Whether the timestamps of the record are in range.
    pub open spec fn wf(&self) -> bool {
        &&& self.start.wf()
        &&& self.end matches Some(end) ==> end.wf()
    }

    /// A copy of the record.
    pub fn duplicate(&self) -> (copy: Task)
        ensures
            copy == *self,
    {
        Task {
            name: self.name.clone(),
            ticket_number: copy_optional_text(&self.ticket_number),
            project: self.project.clone(),
            start: self.start,
            end: self.end,
            current: self.current,
        }
    }

    /// The fields of the record, in the order of the columns.
    pub fn fields(&self) -> (fields: Vec<String>)
        requires
            self.wf(),
        ensures
            texts(fields@) == fields_of(self@),
    {
        let mut fields: Vec<String> = Vec::new();
        fields.push(self.name.clone());
        fields.push(
            match &self.ticket_number {
                Some(ticket) => ticket.clone(),
                None => String::new(),
            },
        );
        fields.push(self.project.clone());
        fields.push(self.start.to_text());
        fields.push(
            match &self.end {
                Some(end) => end.to_text(),
                None => String::new(),
            },
        );
        fields
    }

    /// Makes a record of five fields and of the timestamps that were read from
    /// the fourth and the fifth.
    pub fn assemble(fields: &Vec<String>, start: Option<Timestamp>, end: Option<Timestamp>) -> (task:
        Option<Task>)
        requires
            start matches Some(s) ==> s.wf(),
            end matches Some(e) ==> e.wf(),
        ensures
            optional_view(task) == assembled(texts(fields@), start, end),
            task matches Some(t) ==> t.wf(),
    {
        if fields.len() != 5 {
            return None;
        }
        let start = match start {
            Some(start) => start,
            None => {
                return None;
            },
        };
        let end = if fields[4].as_str().is_empty() {
            None
        } else {
            match end {
                Some(end) => Some(end),
                None => {
                    return None;
                },
            }
        };
        let ticket_number = if fields[1].as_str().is_empty() {
            None
        } else {
            Some(fields[1].clone())
        };
        Some(
            Task {
                name: fields[0].clone(),
                ticket_number,
                project: fields[2].clone(),
                start,
                end,
                current: false,
            },
        )
    }

    /// Reads a record from a row of fields.
    pub fn from_fields(fields: &Vec<String>) -> (task: Option<Task>)
        ensures
            optional_view(task) == record_of(texts(fields@)),
            task matches Some(t) ==> t.wf(),
    {
        if fields.len() != 5 {
            return None;
        }
        let start = Timestamp::parse(fields[3].as_str());
        let end = Timestamp::parse(fields[4].as_str());
        Task::assemble(fields, start, end)
    }

    /// Reads the records of a log from its rows, the first of which holds the
    /// column names.
    pub fn from_rows(rows: &Vec<Vec<String>>) -> (tasks: Option<Vec<Task>>)
        ensures
            records_of_rows(rows_view(rows@)) == (match tasks {
                Some(list) => Some(views(list@)),
                None => None,
            }),
            tasks matches Some(list) ==> forall|i: int| 0 <= i < list@.len() ==> (#[trigger] list@[i]).wf(),
    {
        let mut list: Vec<Task> = Vec::new();
        if rows.len() == 0 {
            return Some(list);
        }
        let names = header();
        if !same_texts(&rows[0], &names) {
            return None;
        }
        let ghost below = rows_view(rows@).skip(1);
        let mut at: usize = 1;
        while at < rows.len()
            invariant
                1 <= at <= rows.len(),
                below == rows_view(rows@).skip(1),
                list@.len() == at - 1,
                forall|i: int| 0 <= i < at - 1 ==> record_of(below[i]) == Some((#[trigger] list@[i])@),
                forall|i: int| 0 <= i < list@.len() ==> (#[trigger] list@[i]).wf(),
            decreases rows.len() - at,
        {
            match Task::from_fields(&rows[at]) {
                Some(task) => {
                    list.push(task);
                },
                None => {
                    assert(record_of(below[at - 1]) is None);
                    return None;
                },
            }
            at = at + 1;
        }
        proof {
            assert forall|i: int| 0 <= i < below.len() implies (#[trigger] record_of(below[i])) is Some by {
                assert(record_of(below[i]) == Some(list@[i]@));
            }
            assert(views(list@) =~= below.map_values(|row: Seq<Seq<char>>| record_of(row)->0));
        }
        Some(list)
    }

    /// Reads the one record of a current-task or last-task file from its rows.
    pub fn first_from_rows(rows: &Vec<Vec<String>>) -> (task: Option<Task>)
        ensures
            optional_view(task) == first_of_rows(rows_view(rows@)),
            task matches Some(t) ==> t.wf(),
    {
        if rows.len() < 2 {
            return None;
        }
        let names = header();
        if !same_texts(&rows[0], &names) {
            return None;
        }
        match Task::from_fields(&rows[1]) {
            Some(task) => {
                if task.name.as_str().is_empty() {
                    None
                } else {
                    Some(task)
                }
            },
            None => None,
        }
    }

    /// Reads the records of a log from its text.
    pub fn read_all(text: &str) -> (tasks: Option<Vec<Task>>)
        ensures
            records_of(text@) == (match tasks {
                Some(list) => Some(views(list@)),
                None => None,
            }),
            tasks matches Some(list) ==> forall|i: int| 0 <= i < list@.len() ==> (#[trigger] list@[i]).wf(),
    {
        match read_rows(text) {
            Some(rows) => Task::from_rows(&rows),
            None => None,
        }
    }

    /// Reads the one record of a current-task or last-task file from its text.
    pub fn read_first(text: &str) -> (task: Option<Task>)
        ensures
            optional_view(task) == first_of(text@),
            task matches Some(t) ==> t.wf(),
    {
        match read_rows(text) {
            Some(rows) => Task::first_from_rows(&rows),
            None => None,
        }
    }

    /// Whether two records are the same but for the mark of the current task.
    pub fn same_record(&self, other: &Task) -> (same: bool)
        ensures
            same == (stored(self@) == stored(other@)),
    {
        self.name.as_str().eq(other.name.as_str()) && same_optional_text(
            &self.ticket_number,
            &other.ticket_number,
        ) && self.project.as_str().eq(other.project.as_str()) && self.start == other.start
            && self.end == other.end
    }

    /// Writes the record, and reads what was written to see that nothing is
    /// lost: fails with `Validation` for a record without a name, and with `Io`
    /// for one that cannot be written or, once written, reads as another.
    pub fn written(&self) -> (result: Result<Written, TaskError>)
        requires
            self.wf(),
        ensures
            match result {
                Ok(w) => persistable(self@) && file_of(self@) == Some(w.file@) && line_of(self@)
                    == Some(w.line@),
                Err(e) => !persistable(self@) && e == (if self@.name.len() == 0 {
                    TaskError::Validation
                } else {
                    TaskError::Io
                }),
            },
    {
        if self.name.as_str().is_empty() {
            return Err(TaskError::Validation);
        }
        let names = header();
        let head = match write_record(&names) {
            Some(head) => head,
            None => {
                return Err(TaskError::Io);
            },
        };
        let fields = self.fields();
        let line = match write_record(&fields) {
            Some(line) => line,
            None => {
                return Err(TaskError::Io);
            },
        };
        let mut file = head;
        file.append(line.as_str());
        let rows = match read_rows(file.as_str()) {
            Some(rows) => rows,
            None => {
                return Err(TaskError::Io);
            },
        };
        if self.is_read_from(&rows) {
            Ok(Written { file, line })
        } else {
            Err(TaskError::Io)
        }
    }

    /// Whether the rows read from a file are the column names and, below
    /// them, one row that stands for this record.
    pub fn is_read_from(&self, rows: &Vec<Vec<String>>) -> (same: bool)
        ensures
            same == read_back(self@, rows_view(rows@)),
    {
        if rows.len() != 2 {
            return false;
        }
        let names = header();
        if !same_texts(&rows[0], &names) {
            return false;
        }
        match Task::from_fields(&rows[1]) {
            Some(read) => read.same_record(self),
            None => false,
        }
    }

    /// The clipboard's text as a task name: none where it spans several lines.
    pub fn get_clipboard_name(contents: String) -> (name: Option<String>)
        ensures
            name == (if contents@.contains('\n') {
                None
            } else {
                Some(contents)
            }),
    {
        if contains_char(contents.as_str(), '\n') {
            None
        } else {
            Some(contents)
        }
    }

    /// The name offered for a new task: the clipboard's text where that was
    /// asked for and the clipboard holds a single line, else the name of the
    /// last task.
    pub fn default_name(
        default_name_from_clipboard: bool,
        clipboard: Option<String>,
        last_task_name: Option<String>,
    ) -> (name: Option<String>)
        ensures
            name == (if default_name_from_clipboard && clipboard is Some && !clipboard->0@.contains(
                '\n',
            ) {
                clipboard
            } else {
                last_task_name
            }),
    {
        if default_name_from_clipboard {
            let offered = match clipboard {
                Some(contents) => Task::get_clipboard_name(contents),
                None => None,
            };
            match offered {
                Some(name) => Some(name),
                None => last_task_name,
            }
        } else {
            last_task_name
        }
    }

    /// One round of choosing a project: takes the answer where it names a
    /// project of the list, and refuses it otherwise, so that the caller asks again.
    pub fn set_project(projects: &Projects, answer: Option<String>) -> (result: Result<
        String,
        TaskError,
    >)
        ensures
            result == (if answer is Some && projects@.contains(answer->0@) {
                Ok::<String, TaskError>(answer->0)
            } else {
                Err(TaskError::Validation)
            }),
    {
        match answer {
            Some(project) => {
                if projects.contains(project.as_str()) {
                    Ok(project)
                } else {
                    Err(TaskError::Validation)
                }
            },
            None => Err(TaskError::Validation),
        }
    }

    /// Opens a task at `now` and makes it the current task, in place of any
    /// that the store holds. Fails with `Validation` where the name is empty
    /// or the project is not in the list, and with `Io` where the record
    /// cannot be written so that it reads back; the store is then left as it was.
    pub fn new(
        name: String,
        ticket_number: Option<String>,
        project: String,
        projects: &Projects,
        now: Timestamp,
        store: &mut Store,
    ) -> (result: Result<Task, TaskError>)
        requires
            now.wf(),
            old(store).wf(),
        ensures
            final(store).wf(),
            match result {
                Ok(task) => {
                    &&& task@ == opened(name@, optional_text(ticket_number), project@, now)
                    &&& task.wf()
                    &&& projects@.contains(project@)
                    &&& persistable(task@)
                    &&& final(store)@ == with_current(old(store)@, task@)
                },
                Err(e) => {
                    &&& final(store)@ == old(store)@
                    &&& e == (if name@.len() == 0 || !projects@.contains(project@) {
                        TaskError::Validation
                    } else {
                        TaskError::Io
                    })
                    &&& e == TaskError::Io ==> !persistable(
                        opened(name@, optional_text(ticket_number), project@, now),
                    )
                },
            },
    {
        if name.as_str().is_empty() || !projects.contains(project.as_str()) {
            return Err(TaskError::Validation);
        }
        let task = Task { name, ticket_number, project, start: now, end: None, current: true };
        match task.written() {
            Ok(w) => {
                store.set_current(Some(w.file));
                Ok(task)
            },
            Err(e) => Err(e),
        }
    }

    /// Opens, at `now`, a task with the name, ticket number and project of
    /// this one, and makes it the current task, in place of any that the store
    /// holds. Fails as [`Task::written`] does; the store is then left as it was.
    pub fn start(&self, now: Timestamp, store: &mut Store) -> (result: Result<Task, TaskError>)
        requires
            now.wf(),
            old(store).wf(),
        ensures
            final(store).wf(),
            match result {
                Ok(task) => {
                    &&& task@ == opened(self@.name, self@.ticket_number, self@.project, now)
                    &&& task.wf()
                    &&& persistable(task@)
                    &&& final(store)@ == with_current(old(store)@, task@)
                },
                Err(e) => {
                    &&& final(store)@ == old(store)@
                    &&& !persistable(opened(self@.name, self@.ticket_number, self@.project, now))
                    &&& e == (if self@.name.len() == 0 {
                        TaskError::Validation
                    } else {
                        TaskError::Io
                    })
                },
            },
    {
        let task = Task {
            name: self.name.clone(),
            ticket_number: copy_optional_text(&self.ticket_number),
            project: self.project.clone(),
            start: now,
            end: None,
            current: true,
        };
        match task.written() {
            Ok(w) => {
                store.set_current(Some(w.file));
                Ok(task)
            },
            Err(e) => Err(e),
        }
    }

    /// Keeps the record as the last task, in place of the one that the store
    /// holds. Fails as [`Task::written`] does; the store is then left as it was.
    pub fn write_last_file(&self, store: &mut Store) -> (result: Result<(), TaskError>)
        requires
            self.wf(),
            old(store).wf(),
        ensures
            final(store).wf(),
            result is Ok <==> persistable(self@),
            final(store)@ == (if result is Ok {
                with_last(old(store)@, self@)
            } else {
                old(store)@
            }),
            result matches Err(e) ==> e == (if self@.name.len() == 0 {
                TaskError::Validation
            } else {
                TaskError::Io
            }),
    {
        match self.written() {
            Ok(w) => {
                store.set_last(Some(w.file));
                Ok(())
            },
            Err(e) => Err(e),
        }
    }

    /// Adds the record to the end of the log of the month it began in; a month
    /// that has no log gets one that begins with the column names. Fails as
    /// [`Task::written`] does; the store is then left as it was.
    pub fn write_to_log_file(&self, store: &mut Store) -> (result: Result<(), TaskError>)
        requires
            self.wf(),
            old(store).wf(),
        ensures
            final(store).wf(),
            result is Ok <==> persistable(self@),
            final(store)@ == (if result is Ok {
                with_logged(old(store)@, self@)
            } else {
                old(store)@
            }),
            result matches Err(e) ==> e == (if self@.name.len() == 0 {
                TaskError::Validation
            } else {
                TaskError::Io
            }),
    {
        match self.written() {
            Ok(w) => {
                self.log(&w, store);
                Ok(())
            },
            Err(e) => Err(e),
        }
    }

    /// Adds the written record to the log of the month it began in.
    fn log(&self, w: &Written, store: &mut Store)
        requires
            self.wf(),
            old(store).wf(),
            file_of(self@) == Some(w.file@),
            line_of(self@) == Some(w.line@),
        ensures
            final(store).wf(),
            final(store)@ == with_logged(old(store)@, self@),
    {
        let year = self.start.year();
        let month = self.start.month();
        let begun = store.log(year, month).is_some();
        if begun {
            store.append_log(year, month, w.line.as_str());
        } else {
            store.append_log(year, month, w.file.as_str());
        }
    }

    /// Completes an open task at `now`: sets its end, keeps it as the last
    /// task, adds it to the log of the month it began in, and removes the
    /// current-task file. Fails as [`Task::written`] does; the task and the
    /// store are then left as they were.
    pub fn complete(&mut self, now: Timestamp, store: &mut Store) -> (result: Result<(), TaskError>)
        requires
            old(self).wf(),
            old(self).end is None,
            now.wf(),
            old(store).wf(),
        ensures
            final(store).wf(),
            final(self).wf(),
            result is Ok <==> persistable(TaskView { end: Some(now), ..old(self)@ }),
            final(self)@ == (if result is Ok {
                TaskView { end: Some(now), ..old(self)@ }
            } else {
                old(self)@
            }),
            final(store)@ == (if result is Ok {
                with_completed(old(store)@, TaskView { end: Some(now), ..old(self)@ })
            } else {
                old(store)@
            }),
            result matches Err(e) ==> e == (if old(self)@.name.len() == 0 {
                TaskError::Validation
            } else {
                TaskError::Io
            }),
    {
        self.end = Some(now);
        match self.written() {
            Ok(w) => {
                store.set_last(Some(w.file.clone()));
                self.log(&w, store);
                store.set_current(None);
                Ok(())
            },
            Err(e) => {
                self.end = None;
                Err(e)
            },
        }
    }

    /// The current task: the record of the current-task file, marked as
    /// current; none where the file is absent or holds no well-formed record.
    pub fn from_current(store: &Store) -> (task: Option<Task>)
        ensures
            optional_view(task) == current_of(store@),
            task matches Some(t) ==> t.wf(),
    {
        match store.current() {
            Some(text) => match Task::read_first(text.as_str()) {
                Some(read) => Some(Task { current: true, ..read }),
                None => None,
            },
            None => None,
        }
    }

    /// The last completed task: the record of the last-task file; none where
    /// the file is absent or holds no well-formed record.
    pub fn from_last(store: &Store) -> (task: Option<Task>)
        ensures
            optional_view(task) == last_of(store@),
            task matches Some(t) ==> t.wf(),
    {
        match store.last() {
            Some(text) => Task::read_first(text.as_str()),
            None => None,
        }
    }

    /// The seconds spent on the task as seen at `now`.
    pub fn time_spent(&self, now: &Timestamp) -> (seconds: i64)
        requires
            self.wf(),
            now.wf(),
        ensures
            seconds == time_spent(self@, *now),
    {
        match self.end {
            Some(end) => end.seconds_since(&self.start),
            None => {
                if self.current {
                    now.seconds_since(&self.start)
                } else {
                    0
                }
            },
        }
    }
}

/// Completes the current task at `now`, where the store holds one that is
/// open, and hands it out; where it holds none, nothing happens. Fails as
/// [`Task::complete`] does; the store is then left as it was.
pub fn complete_current_task(store: &mut Store, now: Timestamp) -> (result: Result<
    Option<Task>,
    TaskError,
>)
    requires
        now.wf(),
        old(store).wf(),
    ensures
        final(store).wf(),
        match current_of(old(store)@) {
            Some(open) => if open.end is None {
                let done = TaskView { end: Some(now), ..open };
                if persistable(done) {
                    &&& result matches Ok(Some(task))
                    &&& task@ == done
                    &&& final(store)@ == with_completed(old(store)@, done)
                } else {
                    &&& result == Err::<Option<Task>, TaskError>(TaskError::Io)
                    &&& final(store)@ == old(store)@
                }
            } else {
                result matches Ok(None) && final(store)@ == old(store)@
            },
            None => result matches Ok(None) && final(store)@ == old(store)@,
        },
{
    match Task::from_current(store) {
        Some(mut task) => {
            if task.end.is_none() {
                match task.complete(now, store) {
                    Ok(()) => Ok(Some(task)),
                    Err(e) => Err(e),
                }
            } else {
                Ok(None)
            }
        },
        None => Ok(None),
    }
}

/// A record that was written reads back as it was, but for the mark of the
/// current task: as the one record of its file, and as the only record of a
/// log that holds nothing else.
pub proof fn lemma_written_reads_back(task: TaskView)
    requires
        persistable(task),
    ensures
        file_of(task) matches Some(file) && first_of(file) == Some(stored(task)) && records_of(file)
            == Some(seq![stored(task)]),
{
}

/// After a task was opened it is the current task of the store, and nothing
/// else in the store has changed.
pub proof fn lemma_opened_is_current(store: StoreView, task: TaskView)
    requires
        persistable(task),
    ensures
        current_of(with_current(store, task)) == Some(marked(task)),
        with_current(store, task).last == store.last,
        with_current(store, task).logs == store.logs,
{
    lemma_written_reads_back(task);
}

/// After a task was completed the store has no current task, however often
/// it is asked for one; the last task is the completed one; the log of the
/// month the task began in has grown by the line of the task, below the
/// column names where the month had no log; and no other log has changed.
pub proof fn lemma_completed_once(store: StoreView, task: TaskView)
    requires
        persistable(task),
    ensures
        ({
            let after = with_completed(store, task);
            let key = log_key(task);
            &&& after.current is None
            &&& current_of(after) is None
            &&& last_of(after) == Some(stored(task))
            &&& after.log(key.0, key.1) == Some(
                match store.log(key.0, key.1) {
                    Some(held) => held + line_of(task)->0,
                    None => header_line()->0 + line_of(task)->0,
                },
            )
            &&& forall|year: i32, month: u32|
                (year, month) != key ==> after.log(year, month) == store.log(year, month)
        }),
{
    lemma_written_reads_back(task);
}

/// A task that is opened and then completed leaves no current task behind,
/// whatever the store held before, and adds exactly its one line to the log
/// of the month in which it was opened.
pub proof fn lemma_open_then_complete(
    store: StoreView,
    name: Seq<char>,
    ticket_number: Option<Seq<char>>,
    project: Seq<char>,
    begun: Timestamp,
    ended: Timestamp,
)
    requires
        persistable(TaskView { end: Some(ended), ..opened(name, ticket_number, project, begun) }),
    ensures
        ({
            let open = opened(name, ticket_number, project, begun);
            let done = TaskView { end: Some(ended), ..open };
            let after = with_completed(with_current(store, open), done);
            let key = (begun.spec_year(), begun.spec_month());
            &&& after.current is None
            &&& last_of(after) == Some(stored(done))
            &&& after.log(key.0, key.1) == Some(
                match store.log(key.0, key.1) {
                    Some(held) => held + line_of(done)->0,
                    None => header_line()->0 + line_of(done)->0,
                },
            )
            &&& forall|year: i32, month: u32|
                (year, month) != key ==> after.log(year, month) == store.log(year, month)
        }),
{
    let open = opened(name, ticket_number, project, begun);
    let done = TaskView { end: Some(ended), ..open };
    lemma_completed_once(with_current(store, open), done);
}

/// A task that ends no earlier than it began has spent no less than nothing,
/// and one that is neither ended nor current has spent nothing.
pub proof fn lemma_time_spent_of_ended(task: TaskView, now: Timestamp)
    ensures
        task.end matches Some(end) ==> time_spent(task, now) == seconds_between(task.start, end),
        task.end matches Some(end) && task.start.total_nanos() <= end.total_nanos() ==> time_spent(
            task,
            now,
        ) >= 0,
        task.end is None && !task.current ==> time_spent(task, now) == 0,
{
}

} // verus!
