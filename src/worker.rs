//! How each worker is invoked, and the acknowledgements the caller gets.

use vstd::prelude::*;
use crate::progress::TaskKind;
use crate::text::{decimal_string, decimal_text, texts};

verus! {

/// The look-back window the indexing worker gets when none is given.
pub const DEFAULT_YEARS: i32 = 3;

/// Arguments of the indexing worker: the target chat, the look-back window
/// (3 when unset) and the structured-progress flag.
pub open spec fn indexing_args_spec(chat_id: i64, years: Option<i32>) -> Seq<Seq<char>> {
    let y: int = match years {
        Some(y) => y as int,
        None => 3,
    };
    seq![
        "indexer.py"@,
        "--chat-id"@,
        decimal_text(chat_id as int),
        "--years"@,
        decimal_text(y),
        "--json-progress"@,
    ]
}

/// Arguments of the sync worker: the structured-progress flag only.
pub open spec fn sync_args_spec() -> Seq<Seq<char>> {
    seq!["sync.py"@, "--json-progress"@]
}

pub fn indexing_args(chat_id: i64, years: Option<i32>) -> (r: Vec<String>)
    ensures
        texts(r@) == indexing_args_spec(chat_id, years),
{
    let y = match years {
        Some(y) => y,
        None => DEFAULT_YEARS,
    };
    proof {
        reveal_strlit("indexer.py");
        reveal_strlit("--chat-id");
        reveal_strlit("--years");
        reveal_strlit("--json-progress");
    }
    let mut v: Vec<String> = Vec::new();
    v.push("indexer.py".to_owned());
    v.push("--chat-id".to_owned());
    v.push(decimal_string(chat_id));
    v.push("--years".to_owned());
    v.push(decimal_string(y as i64));
    v.push("--json-progress".to_owned());
    proof {
        assert(texts(v@) =~= indexing_args_spec(chat_id, years));
    }
    v
}

pub fn sync_args() -> (r: Vec<String>)
    ensures
        texts(r@) == sync_args_spec(),
{
    proof {
        reveal_strlit("sync.py");
        reveal_strlit("--json-progress");
    }
    let mut v: Vec<String> = Vec::new();
    v.push("sync.py".to_owned());
    v.push("--json-progress".to_owned());
    proof {
        assert(texts(v@) =~= sync_args_spec());
    }
    v
}

/// The arguments of the worker of `kind`; the indexing worker's target and
/// window come from `chat_id` and `years`.
pub fn worker_args(kind: TaskKind, chat_id: i64, years: Option<i32>) -> (r: Vec<String>)
    ensures
        texts(r@) == match kind {
            TaskKind::Indexing => indexing_args_spec(chat_id, years),
            TaskKind::Sync => sync_args_spec(),
        },
{
    match kind {
        TaskKind::Indexing => indexing_args(chat_id, years),
        TaskKind::Sync => sync_args(),
    }
}

/// The topic the events of a kind are published under.
pub open spec fn topic_text(kind: TaskKind) -> Seq<char> {
    match kind {
        TaskKind::Indexing => "indexing-progress"@,
        TaskKind::Sync => "sync-progress"@,
    }
}

pub fn event_topic(kind: TaskKind) -> (r: &'static str)
    ensures
        r@ == topic_text(kind),
{
    match kind {
        TaskKind::Indexing => "indexing-progress",
        TaskKind::Sync => "sync-progress",
    }
}

pub open spec fn start_ack_text(kind: TaskKind) -> Seq<char> {
    match kind {
        TaskKind::Indexing => "인덱싱을 시작했습니다."@,
        TaskKind::Sync => "동기화를 시작했습니다."@,
    }
}

pub open spec fn cancel_ack_text(kind: TaskKind) -> Seq<char> {
    match kind {
        TaskKind::Indexing => "인덱싱 취소 요청을 보냈습니다."@,
        TaskKind::Sync => "동기화 취소 요청을 보냈습니다."@,
    }
}

/// What `start` answers once the worker is spawned.
pub fn start_ack(kind: TaskKind) -> (r: String)
    ensures
        r@ == start_ack_text(kind),
{
    proof {
        reveal_strlit("인덱싱을 시작했습니다.");
        reveal_strlit("동기화를 시작했습니다.");
    }
    match kind {
        TaskKind::Indexing => "인덱싱을 시작했습니다.".to_owned(),
        TaskKind::Sync => "동기화를 시작했습니다.".to_owned(),
    }
}

/// What `cancel` answers once the request went through.
pub fn cancel_ack(kind: TaskKind) -> (r: String)
    ensures
        r@ == cancel_ack_text(kind),
{
    proof {
        reveal_strlit("인덱싱 취소 요청을 보냈습니다.");
        reveal_strlit("동기화 취소 요청을 보냈습니다.");
    }
    match kind {
        TaskKind::Indexing => "인덱싱 취소 요청을 보냈습니다.".to_owned(),
        TaskKind::Sync => "동기화 취소 요청을 보냈습니다.".to_owned(),
    }
}

} // verus!
