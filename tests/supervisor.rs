use telesearch_desktop::progress::{status_from_name, Status, TaskKind};
use telesearch_desktop::run::{terminal_progress, ExitOutcome, RunMonitor};
use telesearch_desktop::slot::{CancelAction, SlotError, TaskSlot};
use telesearch_desktop::worker::{cancel_ack, event_topic, indexing_args, start_ack, sync_args, worker_args};

#[test]
fn second_start_is_refused() {
    let mut slot: TaskSlot<u8> = TaskSlot::new();
    assert_eq!(slot.try_start(), Ok(()));
    assert_eq!(slot.try_start(), Err(SlotError::AlreadyRunning));
    assert!(slot.is_running());
    slot.register(7, Some(1234));
    assert_eq!(slot.try_start(), Err(SlotError::AlreadyRunning));
    assert_eq!(slot.pid(), Some(1234));
    assert_eq!(slot.take_handle(), Some(7));
}

#[test]
fn start_after_release_succeeds() {
    let mut slot: TaskSlot<u8> = TaskSlot::new();
    assert_eq!(slot.try_start(), Ok(()));
    slot.release();
    assert!(!slot.is_running());
    assert_eq!(slot.pid(), None);
    assert_eq!(slot.try_start(), Ok(()));
}

#[test]
fn kinds_start_independently() {
    let mut indexing: TaskSlot<u8> = TaskSlot::new();
    let mut sync: TaskSlot<u8> = TaskSlot::new();
    assert_eq!(indexing.try_start(), Ok(()));
    assert_eq!(sync.try_start(), Ok(()));
    assert!(indexing.is_running() && sync.is_running());
}

#[test]
fn cancel_on_idle_slot_is_refused() {
    let slot: TaskSlot<u8> = TaskSlot::new();
    assert_eq!(slot.cancel_action(), Err(SlotError::NotRunning));
    assert!(!slot.is_running());
    assert_eq!(SlotError::NotRunning.message(TaskKind::Indexing), "진행 중인 인덱싱이 없습니다.");
    assert_eq!(SlotError::AlreadyRunning.message(TaskKind::Sync), "동기화가 이미 진행 중입니다.");
}

#[test]
fn cancel_signals_tracked_worker() {
    let mut slot: TaskSlot<u8> = TaskSlot::new();
    slot.try_start().unwrap();
    assert_eq!(slot.cancel_action(), Ok(CancelAction::NothingToSignal));
    slot.register(1, None);
    assert_eq!(slot.cancel_action(), Ok(CancelAction::Signal));
    assert!(slot.is_running());
}

#[test]
fn cancelled_run_converges() {
    let mut slot: TaskSlot<u8> = TaskSlot::new();
    slot.try_start().unwrap();
    slot.register(1, Some(99));
    assert_eq!(slot.cancel_action(), Ok(CancelAction::Signal));
    let mut run = RunMonitor::new(TaskKind::Sync);
    let handle = slot.take_handle();
    assert_eq!(handle, Some(1));
    let p = run.finish(&ExitOutcome::Exited(Some(130)));
    assert_eq!(p.status, Status::Cancelled);
    slot.release();
    assert!(!slot.is_running());
    let killed = terminal_progress(TaskKind::Sync, &ExitOutcome::Exited(None), &vec![]);
    assert_eq!(killed.status, Status::Error);
}

#[test]
fn exit_code_zero_completes() {
    let p = terminal_progress(TaskKind::Indexing, &ExitOutcome::Exited(Some(0)), &vec!["warn".to_string()]);
    assert_eq!(p.status, Status::Completed);
    assert_eq!(p.percentage, Some(100));
    assert_eq!(p.message, "인덱싱이 완료되었습니다.");
}

#[test]
fn exit_code_130_cancels() {
    let p = terminal_progress(TaskKind::Sync, &ExitOutcome::Exited(Some(130)), &vec![]);
    assert_eq!(p.status, Status::Cancelled);
    assert_eq!(p.percentage, None);
    assert_eq!(p.message, "동기화가 취소되었습니다.");
}

#[test]
fn other_exit_code_without_stderr_names_code() {
    let p = terminal_progress(TaskKind::Indexing, &ExitOutcome::Exited(Some(2)), &vec![]);
    assert_eq!(p.status, Status::Error);
    assert_eq!(p.message, "종료 코드: 2");
    let q = terminal_progress(TaskKind::Indexing, &ExitOutcome::Exited(Some(-17)), &vec![]);
    assert!(q.message.contains("-17"));
}

#[test]
fn other_exit_code_joins_stderr() {
    let lines = vec!["a".to_string(), "b".to_string()];
    let p = terminal_progress(TaskKind::Sync, &ExitOutcome::Exited(Some(1)), &lines);
    assert_eq!(p.status, Status::Error);
    assert_eq!(p.message, "a\nb");
}

#[test]
fn wait_failure_is_error() {
    let p = terminal_progress(TaskKind::Sync, &ExitOutcome::WaitFailed("boom".to_string()), &vec![]);
    assert_eq!(p.status, Status::Error);
    assert_eq!(p.message, "프로세스 오류: boom");
}

#[test]
fn run_publishes_one_terminal_event_last() {
    let mut run = RunMonitor::new(TaskKind::Indexing);
    let a = run.on_stdout("Collected 3 messages", None);
    assert_eq!(a.status, Status::Progress);
    let e = run.on_stderr("oops".to_string()).unwrap();
    assert_eq!(e.message, "[stderr] oops");
    assert_eq!(e.status, Status::Progress);
    assert!(!run.is_finished());
    let t = run.finish(&ExitOutcome::Exited(Some(1)));
    assert!(t.status.is_terminal());
    assert_eq!(t.message, "oops");
    assert!(run.is_finished());
    assert_eq!(run.task_kind(), TaskKind::Indexing);
}

#[test]
fn sync_run_buffers_stderr_silently() {
    let mut run = RunMonitor::new(TaskKind::Sync);
    assert!(run.on_stderr("x".to_string()).is_none());
    assert!(run.on_stderr("y".to_string()).is_none());
    let t = run.finish(&ExitOutcome::Exited(Some(4)));
    assert_eq!(t.message, "x\ny");
}

#[test]
fn worker_arguments() {
    assert_eq!(
        indexing_args(-42, None),
        vec!["indexer.py", "--chat-id", "-42", "--years", "3", "--json-progress"]
    );
    assert_eq!(indexing_args(5, Some(10))[4], "10");
    assert_eq!(sync_args(), vec!["sync.py", "--json-progress"]);
    assert_eq!(worker_args(TaskKind::Sync, 0, None), sync_args());
}

#[test]
fn acknowledgements() {
    assert_eq!(start_ack(TaskKind::Indexing), "인덱싱을 시작했습니다.");
    assert_eq!(cancel_ack(TaskKind::Sync), "동기화 취소 요청을 보냈습니다.");
}

#[test]
fn status_names_round_trip() {
    for st in [
        Status::Progress,
        Status::Completed,
        Status::Error,
        Status::Cancelled,
        Status::Info,
        Status::RollingBack,
        Status::Cancelling,
        Status::Start,
    ] {
        assert_eq!(status_from_name(st.as_str()), Some(st));
    }
    assert_eq!(status_from_name("complete"), None);
    assert_eq!(status_from_name("rolling_back"), Some(Status::RollingBack));
}

#[test]
fn event_topics() {
    assert_eq!(event_topic(TaskKind::Indexing), "indexing-progress");
    assert_eq!(event_topic(TaskKind::Sync), "sync-progress");
}
