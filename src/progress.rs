//! The normalized progress record published to listeners, and the decoded
//! shape of one structured worker line.

use vstd::prelude::*;
use crate::text::same_text;

verus! {

/// The two supervised long-running jobs.
#[derive(Clone, Copy, Debug, PartialEq, Eq, Structural)]
pub enum TaskKind {
    Indexing,
    Sync,
}

/// Status of one progress event.
#[derive(Clone, Copy, Debug, PartialEq, Eq, Structural)]
pub enum Status {
    Progress,
    Completed,
    Error,
    Cancelled,
    Info,
    RollingBack,
    Cancelling,
    Start,
}

impl Status {
    /// `completed`, `error` and `cancelled` end a run's event sequence.
    pub open spec fn terminal(self) -> bool {
        self == Status::Completed || self == Status::Error || self == Status::Cancelled
    }

    /// The wire name of the status.
    pub open spec fn name(self) -> Seq<char> {
        match self {
            Status::Progress => "progress"@,
            Status::Completed => "completed"@,
            Status::Error => "error"@,
            Status::Cancelled => "cancelled"@,
            Status::Info => "info"@,
            Status::RollingBack => "rolling_back"@,
            Status::Cancelling => "cancelling"@,
            Status::Start => "start"@,
        }
    }

    pub fn is_terminal(&self) -> (r: bool)
        ensures
            r == self.terminal(),
    {
        match self {
            Status::Completed | Status::Error | Status::Cancelled => true,
            _ => false,
        }
    }

    pub fn as_str(&self) -> (r: &'static str)
        ensures
            r@ == self.name(),
    {
        match self {
            Status::Progress => "progress",
            Status::Completed => "completed",
            Status::Error => "error",
            Status::Cancelled => "cancelled",
            Status::Info => "info",
            Status::RollingBack => "rolling_back",
            Status::Cancelling => "cancelling",
            Status::Start => "start",
        }
    }
}

/// The status whose wire name is `name`, if any.
pub fn status_from_name(name: &str) -> (r: Option<Status>)
    ensures
        r matches Some(st) ==> st.name() == name@,
        r is None ==> forall|st: Status| st.name() != name@,
{
    let all = [
        Status::Progress,
        Status::Completed,
        Status::Error,
        Status::Cancelled,
        Status::Info,
        Status::RollingBack,
        Status::Cancelling,
        Status::Start,
    ];
    let mut i: usize = 0;
    while i < 8
        invariant
            i <= 8,
            all@ == seq![
                Status::Progress,
                Status::Completed,
                Status::Error,
                Status::Cancelled,
                Status::Info,
                Status::RollingBack,
                Status::Cancelling,
                Status::Start,
            ],
            forall|j: int| 0 <= j < i ==> all@[j].name() != name@,
        decreases 8 - i,
    {
        let st = all[i];
        if same_text(st.as_str(), name) {
            return Some(st);
        }
        i += 1;
    }
    proof {
        assert forall|st: Status| st.name() != name@ by {
            let j: int = match st {
                Status::Progress => 0,
                Status::Completed => 1,
                Status::Error => 2,
                Status::Cancelled => 3,
                Status::Info => 4,
                Status::RollingBack => 5,
                Status::Cancelling => 6,
                Status::Start => 7,
            };
            assert(all@[j] == st);
        }
    }
    None
}

/// One progress event. Counters and telemetry are passed through from the
/// worker as they came; `rate_bits` holds the IEEE-754 bit pattern of the
/// indexing worker's rate.
#[derive(Clone, Debug)]
pub struct Progress {
    pub status: Status,
    pub message: String,
    pub current: Option<i64>,
    pub total: Option<i64>,
    pub percentage: Option<i32>,
    pub elapsed_sec: Option<i64>,
    pub eta_sec: Option<i64>,
    pub rate_bits: Option<u64>,
    pub rolled_back: Option<i64>,
}

impl Progress {
    /// Every optional field is absent.
    pub open spec fn bare(&self) -> bool {
        self.current is None && self.total is None && self.percentage is None
            && self.elapsed_sec is None && self.eta_sec is None && self.rate_bits is None
            && self.rolled_back is None
    }

    /// An event with a status and a message only.
    pub fn plain(status: Status, message: String) -> (r: Progress)
        ensures
            r.status == status,
            r.message@ == message@,
            r.bare(),
    {
        Progress {
            status,
            message,
            current: None,
            total: None,
            percentage: None,
            elapsed_sec: None,
            eta_sec: None,
            rate_bits: None,
            rolled_back: None,
        }
    }
}

/// A structured worker line once decoded: the `type` discriminator and the
/// fields it carries, each absent when the line left it out.
#[derive(Clone, Debug)]
pub struct WorkerRecord {
    pub record_type: Option<String>,
    pub message: Option<String>,
    pub current: Option<i64>,
    pub total: Option<i64>,
    pub percentage: Option<i32>,
    pub elapsed_sec: Option<i64>,
    pub eta_sec: Option<i64>,
    pub rate_bits: Option<u64>,
    pub rolled_back: Option<i64>,
}

} // verus!
