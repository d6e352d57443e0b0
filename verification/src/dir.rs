//! Where the files of the tracker lie below the home directory.

use crate::text::{decimal_text, signed_decimal};
use crate::time::Timestamp;
use vstd::prelude::*;
use vstd::string::*;

verus! {

/// The paths of the files of the tracker.
#[derive(Clone, Debug, PartialEq, Eq)]
pub struct Dir {
    pub config_file: String,
    /// The directory that holds everything.
    pub time_tracker_dir: String,
    /// The file of the projects.
    pub projects_file: String,
    /// The log of the month at hand: `[year]/[month]` below the directory, so
    /// that the log of June 2024 is `2024/6`.
    pub log_file: String,
    /// The file of the current task.
    pub current_file: String,
    /// The file of the last task.
    pub last_file: String,
    pub current_month: String,
    pub current_year: String,
}

/// The path of `name` in the directory `dir`.
pub open spec fn path(dir: Seq<char>, name: Seq<char>) -> Seq<char> {
    dir + "/"@ + name
}

/// The path of `name` in the directory `dir`.
fn join_path(dir: &str, name: &str) -> (whole: String)
    ensures
        whole@ == path(dir@, name@),
{
    let mut whole = String::from_str(dir);
    whole.append("/");
    whole.append(name);
    whole
}

impl Dir {
    /// The paths below the home directory `home`, with the log of the month
    /// of `now` as the log at hand.
    pub fn new(home: &str, now: &Timestamp) -> (dir: Dir)
        requires
            now.wf(),
        ensures
            dir.time_tracker_dir@ == path(home@, ".time_tracker"@),
            dir.config_file@ == path(dir.time_tracker_dir@, "config.toml"@),
            dir.projects_file@ == path(dir.time_tracker_dir@, "projects"@),
            dir.current_file@ == path(dir.time_tracker_dir@, "current"@),
            dir.last_file@ == path(dir.time_tracker_dir@, "last"@),
            dir.current_year@ == signed_decimal(now.spec_year() as int),
            dir.current_month@ == signed_decimal(now.spec_month() as int),
            dir.log_file@ == path(path(dir.time_tracker_dir@, dir.current_year@), dir.current_month@),
    {
        let time_tracker_dir = Dir::time_tracker_dir(home);
        let year = decimal_text(now.year() as i64);
        let month = decimal_text(now.month() as i64);
        let year_dir = Dir::year_dir(time_tracker_dir.as_str(), year.as_str());
        Dir {
            config_file: join_path(time_tracker_dir.as_str(), "config.toml"),
            projects_file: join_path(time_tracker_dir.as_str(), "projects"),
            log_file: join_path(year_dir.as_str(), month.as_str()),
            current_file: join_path(time_tracker_dir.as_str(), "current"),
            last_file: join_path(time_tracker_dir.as_str(), "last"),
            current_year: year,
            current_month: month,
            time_tracker_dir,
        }
    }

    /// The path of the log of a month.
    pub fn month_file(&self, year: &str, month: &str) -> (file: String)
        ensures
            file@ == path(path(self.time_tracker_dir@, year@), month@),
    {
        let year_dir = join_path(self.time_tracker_dir.as_str(), year);
        join_path(year_dir.as_str(), month)
    }

    /// The directory of the tracker below the home directory.
    pub fn time_tracker_dir(home: &str) -> (dir: String)
        ensures
            dir@ == path(home@, ".time_tracker"@),
    {
        join_path(home, ".time_tracker")
    }

    /// The directory of the logs of a year.
    pub fn year_dir(time_tracker_dir: &str, year: &str) -> (dir: String)
        ensures
            dir@ == path(time_tracker_dir@, year@),
    {
        join_path(time_tracker_dir, year)
    }

    /// The path of the log of the month at hand.
    pub fn get_log_file_location(&self) -> (file: String)
        ensures
            file@ == path(path(self.time_tracker_dir@, self.current_year@), self.current_month@),
    {
        self.month_file(self.current_year.as_str(), self.current_month.as_str())
    }
}

} // verus!
