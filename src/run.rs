//! One run of a worker, from spawn to exit: turns the lines of its two
//! output streams into events, buffers its diagnostic output, and derives
//! the single terminal event from how the process ended.

use vstd::prelude::*;
use crate::parse::{parse_progress, parsed};
use crate::progress::{Progress, Status, TaskKind, WorkerRecord};
use crate::text::{decimal_string, decimal_text, join_lines, joined_lines, texts};

verus! {

/// How the awaited worker process ended.
#[derive(Clone, Debug)]
pub enum ExitOutcome {
    /// It exited; the code is absent when a signal ended it.
    Exited(Option<i32>),
    /// Waiting for it failed; the operating system's error text.
    WaitFailed(String),
}

/// The exit code that marks a graceful cancellation.
pub const CANCELLED_EXIT_CODE: i32 = 130;

/// Exit code 0 completes, 130 cancels, anything else is an error.
pub open spec fn terminal_status(outcome: ExitOutcome) -> Status {
    match outcome {
        ExitOutcome::Exited(Some(c)) => if c == 0 {
            Status::Completed
        } else if c == 130 {
            Status::Cancelled
        } else {
            Status::Error
        },
        _ => Status::Error,
    }
}

pub open spec fn completed_text(kind: TaskKind) -> Seq<char> {
    match kind {
        TaskKind::Indexing => "인덱싱이 완료되었습니다."@,
        TaskKind::Sync => "동기화가 완료되었습니다."@,
    }
}

pub open spec fn cancelled_text(kind: TaskKind) -> Seq<char> {
    match kind {
        TaskKind::Indexing => "인덱싱이 취소되었습니다."@,
        TaskKind::Sync => "동기화가 취소되었습니다."@,
    }
}

/// The message of a failed exit with no diagnostic output.
pub open spec fn exit_code_text(code: Option<i32>) -> Seq<char> {
    match code {
        Some(c) => "종료 코드: "@ + decimal_text(c as int),
        None => "종료 코드 없음 (시그널로 종료됨)"@,
    }
}

/// The terminal message: fixed texts for completion and cancellation; on
/// failure the buffered diagnostic lines joined by `\n`, or the exit code
/// when there were none.
pub open spec fn terminal_message(kind: TaskKind, outcome: ExitOutcome, stderr: Seq<Seq<char>>) -> Seq<char> {
    match outcome {
        ExitOutcome::Exited(code) => if code == Some(0i32) {
            completed_text(kind)
        } else if code == Some(130i32) {
            cancelled_text(kind)
        } else if stderr.len() > 0 {
            joined_lines(stderr)
        } else {
            exit_code_text(code)
        },
        ExitOutcome::WaitFailed(e) => "프로세스 오류: "@ + e@,
    }
}

/// `p` is the terminal event for this outcome and diagnostic output.
pub open spec fn is_terminal_event(p: Progress, kind: TaskKind, outcome: ExitOutcome, stderr: Seq<Seq<char>>) -> bool {
    &&& p.status == terminal_status(outcome)
    &&& p.message@ == terminal_message(kind, outcome, stderr)
    &&& p.percentage == (if p.status == Status::Completed { Some(100i32) } else { None })
    &&& p.current is None
    &&& p.total is None
    &&& p.elapsed_sec is None
    &&& p.eta_sec is None
    &&& p.rate_bits is None
    &&& p.rolled_back is None
}

/// The event a diagnostic line gives, marked as such.
pub open spec fn stderr_event(p: Progress, line: Seq<char>) -> bool {
    p.status == Status::Progress && p.message@ == "[stderr] "@ + line && p.bare()
}

/// Diagnostic lines are published as events by the indexing run only.
pub open spec fn echoes_stderr(kind: TaskKind) -> bool {
    kind == TaskKind::Indexing
}

/// The text of a failed exit with no diagnostic output.
pub fn exit_code_message(code: Option<i32>) -> (r: String)
    ensures
        r@ == exit_code_text(code),
{
    match code {
        Some(c) => {
            let digits = decimal_string(c as i64);
            proof {
                reveal_strlit("종료 코드: ");
            }
            let mut s = "종료 코드: ".to_owned();
            s.append(digits.as_str());
            s
        },
        None => {
            proof {
                reveal_strlit("종료 코드 없음 (시그널로 종료됨)");
            }
            "종료 코드 없음 (시그널로 종료됨)".to_owned()
        },
    }
}

/// The single terminal event of a run of `kind` that ended with `outcome`
/// after writing `stderr` to its diagnostic stream.
pub fn terminal_progress(kind: TaskKind, outcome: &ExitOutcome, stderr: &Vec<String>) -> (p: Progress)
    ensures
        is_terminal_event(p, kind, *outcome, texts(stderr@)),
{
    match outcome {
        ExitOutcome::Exited(code) => {
            if *code == Some(0i32) {
                let mut p = Progress::plain(Status::Completed, completion_message(kind));
                p.percentage = Some(100);
                p
            } else if *code == Some(CANCELLED_EXIT_CODE) {
                Progress::plain(Status::Cancelled, cancellation_message(kind))
            } else if stderr.len() > 0 {
                Progress::plain(Status::Error, join_lines(stderr))
            } else {
                Progress::plain(Status::Error, exit_code_message(*code))
            }
        },
        ExitOutcome::WaitFailed(e) => {
            proof {
                reveal_strlit("프로세스 오류: ");
            }
            let mut s = "프로세스 오류: ".to_owned();
            s.append(e.as_str());
            Progress::plain(Status::Error, s)
        },
    }
}

fn completion_message(kind: TaskKind) -> (r: String)
    ensures
        r@ == completed_text(kind),
{
    match kind {
        TaskKind::Indexing => {
            proof {
                reveal_strlit("인덱싱이 완료되었습니다.");
            }
            "인덱싱이 완료되었습니다.".to_owned()
        },
        TaskKind::Sync => {
            proof {
                reveal_strlit("동기화가 완료되었습니다.");
            }
            "동기화가 완료되었습니다.".to_owned()
        },
    }
}

fn cancellation_message(kind: TaskKind) -> (r: String)
    ensures
        r@ == cancelled_text(kind),
{
    match kind {
        TaskKind::Indexing => {
            proof {
                reveal_strlit("인덱싱이 취소되었습니다.");
            }
            "인덱싱이 취소되었습니다.".to_owned()
        },
        TaskKind::Sync => {
            proof {
                reveal_strlit("동기화가 취소되었습니다.");
            }
            "동기화가 취소되었습니다.".to_owned()
        },
    }
}

/// The state of one run: its kind, the diagnostic lines so far, whether
/// the terminal event is out, and the statuses of the events it has
/// published, in order.
pub struct RunMonitor {
    kind: TaskKind,
    stderr_lines: Vec<String>,
    finished: bool,
    stream_terminal: Ghost<bool>,
    published: Ghost<Seq<Status>>,
}

impl RunMonitor {
    pub closed spec fn kind(&self) -> TaskKind {
        self.kind
    }

    /// The diagnostic lines received so far, in order.
    pub closed spec fn stderr(&self) -> Seq<Seq<char>> {
        texts(self.stderr_lines@)
    }

    pub closed spec fn finished(&self) -> bool {
        self.finished
    }

    /// Statuses of the events published so far, in order.
    pub closed spec fn events(&self) -> Seq<Status> {
        self.published@
    }

    /// Whether a structured output line itself carried a terminal status.
    pub closed spec fn stream_terminal(&self) -> bool {
        self.stream_terminal@
    }

    /// A finished run ended with a terminal event; when the output lines
    /// carried no terminal status, no event before the last is terminal.
    pub open spec fn wf(&self) -> bool {
        &&& self.finished() ==> self.events().len() > 0 && self.events().last().terminal()
        &&& !self.stream_terminal() ==> forall|i: int|
            0 <= i < self.events().len() - (if self.finished() { 1int } else { 0int })
                ==> !(#[trigger] self.events()[i]).terminal()
    }

    pub fn new(kind: TaskKind) -> (r: RunMonitor)
        ensures
            r.kind() == kind,
            r.stderr() == Seq::<Seq<char>>::empty(),
            !r.finished(),
            !r.stream_terminal(),
            r.events() == Seq::<Status>::empty(),
            r.wf(),
    {
        let r = RunMonitor {
            kind,
            stderr_lines: Vec::new(),
            finished: false,
            stream_terminal: Ghost(false),
            published: Ghost(Seq::empty()),
        };
        proof {
            assert(r.stderr() =~= Seq::<Seq<char>>::empty());
        }
        r
    }

    pub fn task_kind(&self) -> (r: TaskKind)
        ensures
            r == self.kind(),
    {
        self.kind
    }

    /// Whether the terminal event is out.
    pub fn is_finished(&self) -> (r: bool)
        ensures
            r == self.finished(),
    {
        self.finished
    }

    /// The event for one line of the worker's standard output, published
    /// after those of the lines before it.
    pub fn on_stdout(&mut self, line: &str, record: Option<WorkerRecord>) -> (p: Progress)
        requires
            old(self).wf(),
            !old(self).finished(),
        ensures
            parsed(p, old(self).kind(), line@, record),
            final(self).events() == old(self).events().push(p.status),
            final(self).stream_terminal() == (old(self).stream_terminal() || p.status.terminal()),
            final(self).kind() == old(self).kind(),
            final(self).stderr() == old(self).stderr(),
            !final(self).finished(),
            final(self).wf(),
    {
        let p = parse_progress(self.kind, line, record);
        let ghost before = self.published@;
        proof {
            self.published = Ghost(self.published@.push(p.status));
            self.stream_terminal = Ghost(self.stream_terminal@ || p.status.terminal());
            assert forall|i: int| 0 <= i < before.len() implies self.published@[i] == before[i] by {}
            if !self.stream_terminal@ {
                assert forall|i: int| 0 <= i < self.published@.len() implies !(#[trigger] self.published@[i]).terminal() by {
                    if i < before.len() {
                        assert(self.events()[i] == old(self).events()[i]);
                    }
                }
            }
        }
        p
    }

    /// Buffers one line of the worker's diagnostic output; the indexing run
    /// also publishes it as a marked `progress` event.
    pub fn on_stderr(&mut self, line: String) -> (r: Option<Progress>)
        requires
            old(self).wf(),
            !old(self).finished(),
        ensures
            final(self).stderr() == old(self).stderr().push(line@),
            echoes_stderr(old(self).kind()) ==> r is Some && stderr_event(r->0, line@)
                && final(self).events() == old(self).events().push(Status::Progress),
            !echoes_stderr(old(self).kind()) ==> r is None && final(self).events() == old(self).events(),
            final(self).stream_terminal() == old(self).stream_terminal(),
            final(self).kind() == old(self).kind(),
            !final(self).finished(),
            final(self).wf(),
    {
        let ghost before = self.stderr_lines@;
        let event = match self.kind {
            TaskKind::Indexing => {
                proof {
                    reveal_strlit("[stderr] ");
                }
                let mut s = "[stderr] ".to_owned();
                s.append(line.as_str());
                proof {
                    self.published = Ghost(self.published@.push(Status::Progress));
                }
                Some(Progress::plain(Status::Progress, s))
            },
            TaskKind::Sync => None,
        };
        self.stderr_lines.push(line);
        proof {
            assert(texts(self.stderr_lines@) =~= texts(before).push(self.stderr_lines@.last()@));
        }
        event
    }

    /// The run's terminal event, derived from how the worker ended and the
    /// diagnostic lines buffered so far. No event follows it.
    pub fn finish(&mut self, outcome: &ExitOutcome) -> (p: Progress)
        requires
            old(self).wf(),
            !old(self).finished(),
        ensures
            is_terminal_event(p, old(self).kind(), *outcome, old(self).stderr()),
            final(self).events() == old(self).events().push(p.status),
            final(self).finished(),
            final(self).kind() == old(self).kind(),
            final(self).stderr() == old(self).stderr(),
            final(self).stream_terminal() == old(self).stream_terminal(),
            final(self).wf(),
    {
        let p = terminal_progress(self.kind, outcome, &self.stderr_lines);
        self.finished = true;
        let ghost before = self.published@;
        proof {
            self.published = Ghost(self.published@.push(p.status));
            assert forall|i: int| 0 <= i < before.len() implies self.published@[i] == before[i] by {}
        }
        p
    }
}

/// Every run that has ended published a terminal event last; and when no
/// structured output line carried a terminal status itself, that event is
/// the only terminal one of the run.
pub proof fn lemma_single_terminal_event(run: RunMonitor)
    requires
        run.wf(),
        run.finished(),
    ensures
        run.events().len() > 0,
        run.events().last().terminal(),
        !run.stream_terminal() ==> forall|i: int|
            0 <= i < run.events().len() - 1 ==> !(#[trigger] run.events()[i]).terminal(),
{
}

/// Whatever a worker does after a cancel request, its run ends in
/// `cancelled` or `error` unless it exits with code 0: exit code 130 gives
/// `cancelled`, any other ending `error`.
pub proof fn lemma_outcome_after_cancel(outcome: ExitOutcome)
    requires
        outcome != ExitOutcome::Exited(Some(0i32)),
    ensures
        terminal_status(outcome) == Status::Cancelled || terminal_status(outcome) == Status::Error,
        terminal_status(outcome) == Status::Cancelled <==> outcome == ExitOutcome::Exited(Some(130i32)),
{
}

} // verus!
