use chrono::Local;
use vstd::prelude::*;

verus! {

/// A point in time: whole seconds since the Unix epoch, and the nanoseconds
/// into that second (past 999,999,999 only within a leap second).
#[derive(Clone, Copy, Debug, PartialEq, Eq, Structural)]
pub struct Instant {
    pub secs: i64,
    pub nanos: u32,
}

impl Instant {
    /// `self` is no later than `other`.
    pub open spec fn le_spec(self, other: Instant) -> bool {
        self.secs < other.secs || (self.secs == other.secs && self.nanos <= other.nanos)
    }

    pub fn le(&self, other: &Instant) -> (r: bool)
        ensures
            r == self.le_spec(*other),
    {
        self.secs < other.secs || (self.secs == other.secs && self.nanos <= other.nanos)
    }
}

/// Relies on chrono's `Local::now`, read as `timestamp` and
/// `timestamp_subsec_nanos`. The time differs from call to call, so nothing
/// is stated of it.
#[verifier::external_body]
fn local_now() -> (r: Instant) {
    let now = Local::now();
    Instant { secs: now.timestamp(), nanos: now.timestamp_subsec_nanos() }
}

/// A contest as stored.
pub struct Contest {
    pub id: i32,
    pub name: String,
    pub start_date: Instant,
    pub end_date: Instant,
}

/// An entry of a list of problems.
pub struct ProblemListEntry {
    pub id: i32,
    pub name: String,
}

/// A contest as shown on its own page, with its problems.
pub struct ContestDetail {
    pub id: i32,
    pub name: String,
    pub starts_at: Instant,
    pub ends_at: Instant,
    pub ongoing: bool,
    pub problems: Vec<ProblemListEntry>,
}

impl Contest {
    /// The contest runs at `now`: its start is no later than `now`, and `now`
    /// no later than its end, both ends included.
    pub open spec fn ongoing_at(self, now: Instant) -> bool {
        self.start_date.le_spec(now) && now.le_spec(self.end_date)
    }

    pub fn is_ongoing(&self, now: &Instant) -> (r: bool)
        ensures
            r == self.ongoing_at(*now),
    {
        self.start_date.le(now) && now.le(&self.end_date)
    }
}

/// `detail` shows `contest` with `problems`, as seen at `now`.
pub open spec fn shows(
    detail: ContestDetail,
    contest: Contest,
    problems: Seq<ProblemListEntry>,
    now: Instant,
) -> bool {
    &&& detail.id == contest.id
    &&& detail.name@ == contest.name@
    &&& detail.starts_at == contest.start_date
    &&& detail.ends_at == contest.end_date
    &&& detail.ongoing == contest.ongoing_at(now)
    &&& detail.problems@ == problems
}

/// The page of `contest` with its `problems`, as seen at `now`.
pub fn contest_detail_at(contest: Contest, problems: Vec<ProblemListEntry>, now: Instant) -> (r:
    ContestDetail)
    ensures
        shows(r, contest, problems@, now),
{
    let ongoing = contest.is_ongoing(&now);
    ContestDetail {
        id: contest.id,
        name: contest.name,
        starts_at: contest.start_date,
        ends_at: contest.end_date,
        ongoing,
        problems,
    }
}

/// The page of `contest` with its `problems`, as seen at the current local
/// time.
pub fn contest_detail(contest: Contest, problems: Vec<ProblemListEntry>) -> (r: ContestDetail)
    ensures
        exists|now: Instant| shows(r, contest, problems@, now),
{
    let now = local_now();
    contest_detail_at(contest, problems, now)
}

} // verus!
