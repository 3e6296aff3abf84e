//! The progress parser: a decoded structured record is mapped field by
//! field; a line that is no structured record falls back to free text.

use vstd::prelude::*;
use crate::progress::{Progress, Status, TaskKind, WorkerRecord};
use crate::text::{
    contains_str, contains_text, decimal_i64, parse_i64, same_text, split_whitespace_tokens,
    texts, whitespace_tokens,
};

verus! {

/// The status a structured record's `type` names; unknown names mean `progress`.
pub open spec fn status_of_type(t: Seq<char>) -> Status {
    if t == "complete"@ {
        Status::Completed
    } else if t == "cancelled"@ {
        Status::Cancelled
    } else if t == "error"@ {
        Status::Error
    } else if t == "rolling_back"@ {
        Status::RollingBack
    } else if t == "cancelling"@ {
        Status::Cancelling
    } else if t == "start"@ {
        Status::Start
    } else if t == "info"@ {
        Status::Info
    } else {
        Status::Progress
    }
}

/// The status of a record whose discriminator may be missing.
pub open spec fn status_of_record(t: Option<String>) -> Status {
    match t {
        Some(s) => status_of_type(s@),
        None => Status::Progress,
    }
}

/// The first token that reads as an `i64`.
pub open spec fn first_integer(tokens: Seq<Seq<char>>) -> Option<i64>
    decreases tokens.len(),
{
    if tokens.len() == 0 {
        None
    } else if decimal_i64(tokens[0]) is Some {
        decimal_i64(tokens[0])
    } else {
        first_integer(tokens.drop_first())
    }
}

/// The count a free-text line reports: present only on a line holding the
/// marker `Collected`, and then the first integer token.
pub open spec fn legacy_count(line: Seq<char>) -> Option<i64> {
    if contains_text(line, "Collected"@) {
        first_integer(whitespace_tokens(line))
    } else {
        None
    }
}

/// `p` carries the record through: its status from `type`, its message
/// (empty when absent) and every counter verbatim; the rate only for indexing.
pub open spec fn mirrors_record(p: Progress, kind: TaskKind, rec: WorkerRecord) -> bool {
    &&& p.status == status_of_record(rec.record_type)
    &&& p.message@ == match rec.message {
        Some(m) => m@,
        None => Seq::<char>::empty(),
    }
    &&& p.current == rec.current
    &&& p.total == rec.total
    &&& p.percentage == rec.percentage
    &&& p.elapsed_sec == rec.elapsed_sec
    &&& p.eta_sec == rec.eta_sec
    &&& p.rate_bits == (if kind == TaskKind::Indexing { rec.rate_bits } else { None })
    &&& p.rolled_back == rec.rolled_back
}

/// `p` is the free-text reading of `line`: status `progress`, the line as
/// message, and at most the legacy count.
pub open spec fn free_text(p: Progress, line: Seq<char>) -> bool {
    &&& p.status == Status::Progress
    &&& p.message@ == line
    &&& p.current == legacy_count(line)
    &&& p.total is None
    &&& p.percentage is None
    &&& p.elapsed_sec is None
    &&& p.eta_sec is None
    &&& p.rate_bits is None
    &&& p.rolled_back is None
}

/// The event a line gives: the record when the line decoded to one, else free text.
pub open spec fn parsed(p: Progress, kind: TaskKind, line: Seq<char>, record: Option<WorkerRecord>) -> bool {
    match record {
        Some(rec) => mirrors_record(p, kind, rec),
        None => free_text(p, line),
    }
}

/// Maps a structured record's `type` to a status.
pub fn status_from_type(t: &str) -> (r: Status)
    ensures
        r == status_of_type(t@),
{
    if same_text(t, "complete") {
        Status::Completed
    } else if same_text(t, "cancelled") {
        Status::Cancelled
    } else if same_text(t, "error") {
        Status::Error
    } else if same_text(t, "rolling_back") {
        Status::RollingBack
    } else if same_text(t, "cancelling") {
        Status::Cancelling
    } else if same_text(t, "start") {
        Status::Start
    } else if same_text(t, "info") {
        Status::Info
    } else {
        Status::Progress
    }
}

/// The first of the tokens that reads as an `i64`.
pub fn first_integer_token(tokens: &Vec<String>) -> (r: Option<i64>)
    ensures
        r == first_integer(texts(tokens@)),
{
    let mut i: usize = 0;
    proof {
        assert(texts(tokens@).subrange(0, tokens@.len() as int) =~= texts(tokens@));
    }
    while i < tokens.len()
        invariant
            i <= tokens@.len(),
            first_integer(texts(tokens@)) == first_integer(texts(tokens@).subrange(i as int, tokens@.len() as int)),
        decreases tokens.len() - i,
    {
        let ghost rest = texts(tokens@).subrange(i as int, tokens@.len() as int);
        proof {
            assert(rest[0] == tokens@[i as int]@);
        }
        let v = parse_i64(tokens[i].as_str());
        if v.is_some() {
            return v;
        }
        proof {
            assert(rest.drop_first() =~= texts(tokens@).subrange(i + 1, tokens@.len() as int));
        }
        i += 1;
    }
    None
}

/// The count a free-text line reports, if any.
pub fn legacy_count_of(line: &str) -> (r: Option<i64>)
    ensures
        r == legacy_count(line@),
{
    proof {
        reveal_strlit("Collected");
    }
    if contains_str(line, "Collected") {
        let tokens = split_whitespace_tokens(line);
        first_integer_token(&tokens)
    } else {
        None
    }
}

/// The event for a decoded structured record.
pub fn progress_from_record(kind: TaskKind, rec: WorkerRecord) -> (p: Progress)
    ensures
        mirrors_record(p, kind, rec),
{
    let status = match &rec.record_type {
        Some(t) => status_from_type(t.as_str()),
        None => Status::Progress,
    };
    let rate_bits = match kind {
        TaskKind::Indexing => rec.rate_bits,
        TaskKind::Sync => None,
    };
    let message = match rec.message {
        Some(m) => m,
        None => String::new(),
    };
    Progress {
        status,
        message,
        current: rec.current,
        total: rec.total,
        percentage: rec.percentage,
        elapsed_sec: rec.elapsed_sec,
        eta_sec: rec.eta_sec,
        rate_bits,
        rolled_back: rec.rolled_back,
    }
}

/// The free-text reading of a line that is no structured record.
pub fn progress_from_text(line: &str) -> (p: Progress)
    ensures
        free_text(p, line@),
{
    let current = legacy_count_of(line);
    let mut p = Progress::plain(Status::Progress, line.to_owned());
    p.current = current;
    p
}

/// Turns one line of worker output into an event. `record` is the line's
/// structured decoding, `None` when the line is not a structured record.
/// Never fails.
pub fn parse_progress(kind: TaskKind, line: &str, record: Option<WorkerRecord>) -> (p: Progress)
    ensures
        parsed(p, kind, line@, record),
{
    match record {
        Some(rec) => progress_from_record(kind, rec),
        None => progress_from_text(line),
    }
}

/// A line of the indexing worker's output as an event.
pub fn parse_indexing_progress(line: &str, record: Option<WorkerRecord>) -> (p: Progress)
    ensures
        parsed(p, TaskKind::Indexing, line@, record),
{
    parse_progress(TaskKind::Indexing, line, record)
}

/// A line of the sync worker's output as an event.
pub fn parse_sync_progress(line: &str, record: Option<WorkerRecord>) -> (p: Progress)
    ensures
        parsed(p, TaskKind::Sync, line@, record),
{
    parse_progress(TaskKind::Sync, line, record)
}

} // verus!
