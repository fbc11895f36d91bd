//! What an agent process is started with, and what is read from its output.

use vstd::prelude::*;
use crate::model::{lemma_models_push, Model};
use crate::text::{from_chars, to_chars};

verus! {

/// The kind of a message.
#[derive(Clone, Copy, PartialEq, Eq, Structural, Debug)]
pub enum MessageType {
    User,
    Thinking,
    Response,
    Error,
}

impl MessageType {
    /// The name of the kind.
    pub open spec fn name(self) -> Seq<char> {
        match self {
            MessageType::User => "user"@,
            MessageType::Thinking => "thinking"@,
            MessageType::Response => "response"@,
            MessageType::Error => "error"@,
        }
    }

    /// The name of the kind.
    pub fn as_str(&self) -> (r: &'static str)
        ensures
            r@ == self.name(),
    {
        match self {
            MessageType::User => "user",
            MessageType::Thinking => "thinking",
            MessageType::Response => "response",
            MessageType::Error => "error",
        }
    }
}

/// Whom a message is for.
#[derive(Clone, Debug, PartialEq, Eq)]
pub enum MessageTarget {
    /// An agent of the project, by name.
    AgentName(String),
    /// A running process, by the identifier of its run.
    RunId(String),
}

/// A message as the store keeps it.
#[derive(Clone, Debug, PartialEq, Eq)]
pub struct Message {
    pub id: String,
    pub project_id: String,
    pub sender_id: String,
    pub sender_name: String,
    pub sender_avatar: Option<String>,
    pub sender_color: Option<String>,
    pub target_id: String,
    pub target_name: Option<String>,
    pub content: String,
    pub json_content: Option<String>,
    pub message_type: String,
    pub created_at: String,
}

/// The answer to a request over the web: data or an error.
#[derive(Clone, Debug, PartialEq, Eq)]
pub struct ApiResponse<T> {
    pub success: bool,
    pub data: Option<T>,
    pub error: Option<String>,
}

impl<T> ApiResponse<T> {
    /// The answer that carries `data`.
    pub fn success(data: T) -> (r: Self)
        ensures
            r.success,
            r.data == Some(data),
            r.error is None,
    {
        ApiResponse { success: true, data: Some(data), error: None }
    }

    /// The answer that carries an error.
    pub fn error(error: String) -> (r: Self)
        ensures
            !r.success,
            r.data is None,
            r.error == Some(error),
    {
        ApiResponse { success: false, data: None, error: Some(error) }
    }
}

/// The query of a request over the web.
#[derive(Clone, Debug, PartialEq, Eq)]
pub struct QueryParams {
    pub project_path: Option<String>,
}

/// The permission mode that an agent process is started with.
pub open spec fn permission_mode_name(
    enable_file_read: bool,
    enable_file_write: bool,
    enable_network: bool,
    skip_permissions: bool,
) -> Seq<char> {
    if skip_permissions {
        "bypassPermissions"@
    } else if enable_file_write {
        "acceptEdits"@
    } else if enable_file_read && !enable_network {
        "plan"@
    } else {
        "default"@
    }
}

/// The permission mode that an agent process is started with.
pub fn get_permission_mode(
    enable_file_read: bool,
    enable_file_write: bool,
    enable_network: bool,
    skip_permissions: bool,
) -> (r: String)
    ensures
        r@ == permission_mode_name(
            enable_file_read,
            enable_file_write,
            enable_network,
            skip_permissions,
        ),
{
    if skip_permissions {
        "bypassPermissions".to_owned()
    } else if enable_file_write {
        "acceptEdits".to_owned()
    } else if enable_file_read && !enable_network {
        "plan".to_owned()
    } else {
        "default".to_owned()
    }
}

/// The tools that an agent may not use: those that read where reading is
/// off, those that write where writing is off, those that reach out where
/// the network is off.
pub open spec fn disallowed_tools(
    enable_file_read: bool,
    enable_file_write: bool,
    enable_network: bool,
) -> Seq<Seq<char>> {
    (if enable_file_read {
        Seq::empty()
    } else {
        seq!["Read"@]
    }) + (if enable_file_write {
        Seq::empty()
    } else {
        seq!["Write"@, "Edit"@, "Create"@, "Delete"@]
    }) + (if enable_network {
        Seq::empty()
    } else {
        seq!["Bash"@, "WebFetch"@, "WebSearch"@]
    })
}

fn put(list: &mut Vec<String>, word: &str)
    ensures
        final(list).model() == old(list).model().push(word@),
{
    let w = word.to_owned();
    proof {
        lemma_models_push(list@, w);
    }
    list.push(w);
}

/// The tools that an agent may not use.
pub fn get_disallowed_tools(enable_file_read: bool, enable_file_write: bool, enable_network: bool) -> (r:
    Vec<String>)
    ensures
        r.model() == disallowed_tools(enable_file_read, enable_file_write, enable_network),
{
    let mut out: Vec<String> = Vec::new();
    assert(out.model() =~= Seq::<Seq<char>>::empty());
    if !enable_file_read {
        put(&mut out, "Read");
    }
    if !enable_file_write {
        put(&mut out, "Write");
        put(&mut out, "Edit");
        put(&mut out, "Create");
        put(&mut out, "Delete");
    }
    if !enable_network {
        put(&mut out, "Bash");
        put(&mut out, "WebFetch");
        put(&mut out, "WebSearch");
    }
    assert(out.model() =~= disallowed_tools(enable_file_read, enable_file_write, enable_network));
    out
}

/// The index of the last item of `s` equal to `c`, or -1 where there is none.
pub open spec fn last_index_of(s: Seq<char>, c: char) -> int
    decreases s.len(),
{
    if s.len() == 0 {
        -1
    } else if s.last() == c {
        s.len() - 1
    } else {
        last_index_of(s.drop_last(), c)
    }
}

/// The JSON object in a text: what stands from the first `{` to the last
/// `}`, both included, where the last `}` comes after the first `{`.
pub open spec fn json_in(output: Seq<char>) -> Option<Seq<char>> {
    let start = crate::text::find(output, '{');
    let end = last_index_of(output, '}');
    if start < output.len() && end > start {
        Some(output.subrange(start, end + 1))
    } else {
        None
    }
}

/// The JSON object in a text, if it holds one.
pub fn find_json_in_output(output: &str) -> (r: Option<String>)
    ensures
        r.model() == json_in(output@),
{
    let v = to_chars(output);
    let mut start: usize = 0;
    while start < v.len() && v[start] != '{'
        invariant
            start <= v.len(),
            forall|k: int| 0 <= k < start ==> v@[k] != '{',
        decreases v.len() - start,
    {
        start += 1;
    }
    proof {
        crate::text::lemma_find_at(v@, '{', start as int);
    }
    if start == v.len() {
        return None;
    }
    let mut end: usize = v.len();
    assert(v@.subrange(0, v@.len() as int) =~= v@);
    while end > 0 && v[end - 1] != '}'
        invariant
            end <= v.len(),
            last_index_of(v@, '}') == last_index_of(v@.subrange(0, end as int), '}'),
        decreases end,
    {
        assert(v@.subrange(0, end as int).drop_last() =~= v@.subrange(0, end - 1));
        end -= 1;
    }
    if end == 0 {
        return None;
    }
    let last: usize = end - 1;
    if last > start {
        Some(from_chars(&v, start, end))
    } else {
        None
    }
}

} // verus!
