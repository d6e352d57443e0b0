//! The data directory as values: the text of the current-task file, of the
//! last-task file, and of the log of each month that has one.

use vstd::prelude::*;
use vstd::string::*;

verus! {

/// The log of one month: its year, its month, and the text of its file.
#[derive(Clone, Debug, PartialEq, Eq)]
pub struct MonthLog {
    pub year: i32,
    pub month: u32,
    pub text: String,
}

/// The files of the data directory, held in memory. A file that is absent is `None`.
#[derive(Clone, Debug)]
pub struct Store {
    current: Option<String>,
    last: Option<String>,
    logs: Vec<MonthLog>,
}

/// What a store holds: the text of each file that exists.
pub struct StoreView {
    pub current: Option<Seq<char>>,
    pub last: Option<Seq<char>>,
    pub logs: Map<(i32, u32), Seq<char>>,
}

/// Whether some log of `logs` is that of `key`.
pub open spec fn has_log(logs: Seq<MonthLog>, key: (i32, u32)) -> bool {
    exists|i: int| 0 <= i < logs.len() && #[trigger] logs[i].year == key.0 && logs[i].month == key.1
}

/// The place in `logs` of the log of `key`.
pub open spec fn log_index(logs: Seq<MonthLog>, key: (i32, u32)) -> int {
    choose|i: int| 0 <= i < logs.len() && #[trigger] logs[i].year == key.0 && logs[i].month == key.1
}

/// Whether no two logs are of the same month.
pub open spec fn distinct_months(logs: Seq<MonthLog>) -> bool {
    forall|i: int, j: int|
        0 <= i < logs.len() && 0 <= j < logs.len() && #[trigger] logs[i].year == #[trigger] logs[j].year
            && logs[i].month == logs[j].month ==> i == j
}

/// The texts of `logs` by month.
pub open spec fn logs_map(logs: Seq<MonthLog>) -> Map<(i32, u32), Seq<char>> {
    Map::new(|key: (i32, u32)| has_log(logs, key), |key: (i32, u32)| logs[log_index(logs, key)].text@)
}

impl View for Store {
    type V = StoreView;

    closed spec fn view(&self) -> StoreView {
        StoreView {
            current: match self.current {
                Some(text) => Some(text@),
                None => None,
            },
            last: match self.last {
                Some(text) => Some(text@),
                None => None,
            },
            logs: logs_map(self.logs@),
        }
    }
}

impl StoreView {
    /// The text of the log of a month, if it has one.
    pub open spec fn log(self, year: i32, month: u32) -> Option<Seq<char>> {
        if self.logs.contains_key((year, month)) {
            Some(self.logs[(year, month)])
        } else {
            None
        }
    }
}

impl Store {
    /// Whether the store holds at most one log for each month.
    pub closed spec fn wf(&self) -> bool {
        distinct_months(self.logs@)
    }

    /// A data directory without files.
    pub fn new() -> (store: Store)
        ensures
            store.wf(),
            store@ == (StoreView { current: None, last: None, logs: Map::empty() }),
    {
        let store = Store { current: None, last: None, logs: Vec::new() };
        assert(store@.logs =~= Map::empty());
        store
    }

    /// The text of the current-task file.
    pub fn current(&self) -> (text: Option<&String>)
        ensures
            self@.current == (match text {
                Some(t) => Some(t@),
                None => None,
            }),
    {
        match &self.current {
            Some(text) => Some(text),
            None => None,
        }
    }

    /// The text of the last-task file.
    pub fn last(&self) -> (text: Option<&String>)
        ensures
            self@.last == (match text {
                Some(t) => Some(t@),
                None => None,
            }),
    {
        match &self.last {
            Some(text) => Some(text),
            None => None,
        }
    }

    /// The place of the log of a month among the logs held.
    fn find(&self, year: i32, month: u32) -> (place: Option<usize>)
        requires
            self.wf(),
        ensures
            match place {
                Some(i) => i < self.logs@.len() && self.logs@[i as int].year == year
                    && self.logs@[i as int].month == month && log_index(self.logs@, (year, month))
                    == i && has_log(self.logs@, (year, month)),
                None => !has_log(self.logs@, (year, month)),
            },
    {
        let mut at: usize = 0;
        while at < self.logs.len()
            invariant
                self.wf(),
                at <= self.logs.len(),
                forall|i: int|
                    0 <= i < at ==> !(#[trigger] self.logs@[i].year == year && self.logs@[i].month
                        == month),
            decreases self.logs.len() - at,
        {
            if self.logs[at].year == year && self.logs[at].month == month {
                proof {
                    let found = self.logs@[at as int];
                    assert(found.year == year && found.month == month);
                    assert(has_log(self.logs@, (year, month)));
                    let chosen = log_index(self.logs@, (year, month));
                    assert(self.logs@[chosen].year == found.year);
                }
                return Some(at);
            }
            at = at + 1;
        }
        None
    }

    /// The text of the log of a month.
    pub fn log(&self, year: i32, month: u32) -> (text: Option<&String>)
        requires
            self.wf(),
        ensures
            self@.log(year, month) == (match text {
                Some(t) => Some(t@),
                None => None,
            }),
    {
        match self.find(year, month) {
            Some(at) => Some(&self.logs[at].text),
            None => None,
        }
    }

    /// The logs held, one for each month that has one.
    pub fn logs(&self) -> (logs: &Vec<MonthLog>)
        requires
            self.wf(),
        ensures
            distinct_months(logs@),
            logs_map(logs@) == self@.logs,
    {
        &self.logs
    }

    /// Writes the current-task file, or removes it.
    pub fn set_current(&mut self, text: Option<String>)
        requires
            old(self).wf(),
        ensures
            final(self).wf(),
            final(self)@ == (StoreView {
                current: match text {
                    Some(t) => Some(t@),
                    None => None,
                },
                ..old(self)@
            }),
    {
        self.current = text;
    }

    /// Writes the last-task file, or removes it.
    pub fn set_last(&mut self, text: Option<String>)
        requires
            old(self).wf(),
        ensures
            final(self).wf(),
            final(self)@ == (StoreView {
                last: match text {
                    Some(t) => Some(t@),
                    None => None,
                },
                ..old(self)@
            }),
    {
        self.last = text;
    }

    /// Writes the log of a month, in place of the one it had, if any.
    pub fn set_log(&mut self, year: i32, month: u32, text: String)
        requires
            old(self).wf(),
        ensures
            final(self).wf(),
            final(self)@ == (StoreView {
                logs: old(self)@.logs.insert((year, month), text@),
                ..old(self)@
            }),
    {
        let ghost before = self.logs@;
        let entry = MonthLog { year, month, text };
        match self.find(year, month) {
            Some(at) => {
                self.logs.set(at, entry);
                proof {
                    lemma_replaced(before, self.logs@, at as int);
                }
            },
            None => {
                self.logs.push(entry);
                proof {
                    assert(self.logs@.drop_last() =~= before);
                    lemma_added(before, self.logs@);
                }
            },
        }
    }

    /// Adds `text` to the end of the log of a month; a month without a log
    /// gets one that holds `text`.
    pub fn append_log(&mut self, year: i32, month: u32, text: &str)
        requires
            old(self).wf(),
        ensures
            final(self).wf(),
            final(self)@ == (StoreView {
                logs: old(self)@.logs.insert(
                    (year, month),
                    match old(self)@.log(year, month) {
                        Some(held) => held + text@,
                        None => text@,
                    },
                ),
                ..old(self)@
            }),
    {
        let mut whole = match self.log(year, month) {
            Some(held) => held.clone(),
            None => String::new(),
        };
        whole.append(text);
        assert(Seq::<char>::empty() + text@ =~= text@);
        self.set_log(year, month, whole);
    }
}

/// Replacing the log at one place by a log of the same month changes the text
/// of that month and nothing else.
proof fn lemma_replaced(before: Seq<MonthLog>, after: Seq<MonthLog>, at: int)
    requires
        distinct_months(before),
        0 <= at < before.len(),
        after == before.update(at, after[at]),
        after.len() == before.len(),
        after[at].year == before[at].year,
        after[at].month == before[at].month,
    ensures
        distinct_months(after),
        logs_map(after) == logs_map(before).insert((after[at].year, after[at].month), after[at].text@),
{
    let key = (after[at].year, after[at].month);
    assert forall|i: int, j: int|
        0 <= i < after.len() && 0 <= j < after.len() && #[trigger] after[i].year == #[trigger] after[j].year
            && after[i].month == after[j].month implies i == j by {
        assert(before[i].year == after[i].year && before[i].month == after[i].month);
        assert(before[j].year == after[j].year && before[j].month == after[j].month);
    }
    assert forall|k: (i32, u32)| has_log(after, k) == (has_log(before, k) || k == key) by {
        if has_log(after, k) {
            let i = log_index(after, k);
            assert(before[i].year == k.0 && before[i].month == k.1);
        }
        if has_log(before, k) {
            let i = log_index(before, k);
            assert(after[i].year == k.0 && after[i].month == k.1);
        }
        if k == key {
            assert(after[at].year == k.0 && after[at].month == k.1);
        }
    }
    assert forall|k: (i32, u32)| has_log(after, k) implies #[trigger] logs_map(after)[k] == logs_map(
        before,
    ).insert(key, after[at].text@)[k] by {
        let i = log_index(after, k);
        assert(before[i].year == k.0 && before[i].month == k.1);
        if k != key {
            let j = log_index(before, k);
            assert(i == j);
        } else {
            assert(i == at);
        }
    }
    assert(logs_map(after) =~= logs_map(before).insert(key, after[at].text@));
}

/// Adding a log of a month that had none adds the text of that month and
/// changes nothing else.
proof fn lemma_added(before: Seq<MonthLog>, after: Seq<MonthLog>)
    requires
        distinct_months(before),
        after.len() == before.len() + 1,
        after.drop_last() == before,
        !has_log(before, (after.last().year, after.last().month)),
    ensures
        distinct_months(after),
        logs_map(after) == logs_map(before).insert(
            (after.last().year, after.last().month),
            after.last().text@,
        ),
{
    let key = (after.last().year, after.last().month);
    let n = before.len() as int;
    assert forall|i: int| 0 <= i < n implies before[i] == after[i] by {
        assert(after.drop_last()[i] == after[i]);
    }
    assert forall|i: int, j: int|
        0 <= i < after.len() && 0 <= j < after.len() && #[trigger] after[i].year == #[trigger] after[j].year
            && after[i].month == after[j].month implies i == j by {
        if i < n && j < n {
            assert(before[i].year == before[j].year && before[i].month == before[j].month);
        } else if i < n {
            assert(before[i].year == key.0 && before[i].month == key.1);
        } else if j < n {
            assert(before[j].year == key.0 && before[j].month == key.1);
        }
    }
    assert forall|k: (i32, u32)| has_log(after, k) == (has_log(before, k) || k == key) by {
        if has_log(after, k) {
            let i = log_index(after, k);
            if i < n {
                assert(before[i].year == k.0 && before[i].month == k.1);
            }
        }
        if has_log(before, k) {
            let i = log_index(before, k);
            assert(after[i].year == k.0 && after[i].month == k.1);
        }
        if k == key {
            assert(after[n].year == k.0 && after[n].month == k.1);
        }
    }
    assert forall|k: (i32, u32)| has_log(after, k) implies #[trigger] logs_map(after)[k] == logs_map(
        before,
    ).insert(key, after.last().text@)[k] by {
        let i = log_index(after, k);
        if k != key {
            assert(i < n);
            assert(before[i].year == k.0 && before[i].month == k.1);
            let j = log_index(before, k);
            assert(i == j);
        } else {
            assert(i == n);
        }
    }
    assert(logs_map(after) =~= logs_map(before).insert(key, after.last().text@));
}

} // verus!
