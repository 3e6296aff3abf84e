//! The one-shot commands' data: the chat list and search results, and the
//! validated arguments of a search.

use vstd::prelude::*;
use crate::text::{decimal_string, decimal_text, texts};

verus! {

/// One conversation that can be indexed.
#[derive(Clone, Debug)]
pub struct Chat {
    pub id: i64,
    pub name: String,
    pub chat_type: String,
}

#[derive(Clone, Debug)]
pub struct ChatListResponse {
    pub chats: Vec<Chat>,
}

/// One message that a search found.
#[derive(Clone, Debug)]
pub struct SearchResult {
    pub id: i64,
    pub chat_id: i64,
    pub date: String,
    pub text: String,
    pub link: String,
}

/// The fewest characters a search query may have.
pub const MIN_QUERY_CHARS: usize = 3;

/// Arguments of the search worker for a query, with optional limit and chat.
pub open spec fn search_args_spec(query: Seq<char>, limit: Option<i32>, chat_id: Option<i64>) -> Seq<Seq<char>> {
    let base = seq!["searcher.py"@, "--json"@, query];
    let with_limit = match limit {
        Some(l) => base + seq!["--limit"@, decimal_text(l as int)],
        None => base,
    };
    match chat_id {
        Some(c) => with_limit + seq!["--chat-id"@, decimal_text(c as int)],
        None => with_limit,
    }
}

pub open spec fn short_query_text() -> Seq<char> {
    "검색어는 최소 3글자 이상이어야 합니다."@
}

/// The search worker's arguments; a query of fewer than three characters
/// is refused before anything runs.
pub fn search_args(query: &str, limit: Option<i32>, chat_id: Option<i64>) -> (r: Result<Vec<String>, String>)
    ensures
        query@.len() < 3 <==> r is Err,
        r matches Err(e) ==> e@ == short_query_text(),
        r matches Ok(v) ==> texts(v@) == search_args_spec(query@, limit, chat_id),
{
    if query.unicode_len() < MIN_QUERY_CHARS {
        proof {
            reveal_strlit("검색어는 최소 3글자 이상이어야 합니다.");
        }
        return Err("검색어는 최소 3글자 이상이어야 합니다.".to_owned());
    }
    proof {
        reveal_strlit("searcher.py");
        reveal_strlit("--json");
        reveal_strlit("--limit");
        reveal_strlit("--chat-id");
    }
    let mut v: Vec<String> = Vec::new();
    v.push("searcher.py".to_owned());
    v.push("--json".to_owned());
    v.push(query.to_owned());
    let ghost base = texts(v@);
    proof {
        assert(base =~= seq!["searcher.py"@, "--json"@, query@]);
    }
    match limit {
        Some(l) => {
            v.push("--limit".to_owned());
            v.push(decimal_string(l as i64));
        },
        None => {},
    }
    let ghost with_limit = texts(v@);
    proof {
        assert(with_limit =~= match limit {
            Some(l) => base + seq!["--limit"@, decimal_text(l as int)],
            None => base,
        });
    }
    match chat_id {
        Some(c) => {
            v.push("--chat-id".to_owned());
            v.push(decimal_string(c));
        },
        None => {},
    }
    proof {
        assert(texts(v@) =~= match chat_id {
            Some(c) => with_limit + seq!["--chat-id"@, decimal_text(c as int)],
            None => with_limit,
        });
    }
    Ok(v)
}

/// Arguments of the chat-list worker.
pub fn chat_list_args() -> (r: Vec<String>)
    ensures
        texts(r@) == seq!["chat_list.py"@, "--format"@, "json"@],
{
    proof {
        reveal_strlit("chat_list.py");
        reveal_strlit("--format");
        reveal_strlit("json");
    }
    let mut v: Vec<String> = Vec::new();
    v.push("chat_list.py".to_owned());
    v.push("--format".to_owned());
    v.push("json".to_owned());
    proof {
        assert(texts(v@) =~= seq!["chat_list.py"@, "--format"@, "json"@]);
    }
    v
}

} // verus!
