//! Chat-completion data: the wire shapes of an OpenAI-compatible streaming
//! endpoint, the endpoint URL construction, prompt-cache marking of tool
//! messages, and the assembly of message lists for chatting and titling.
use vstd::prelude::*;
use vstd::string::StringExecFns;
use crate::model;
use crate::model::Message;
use crate::strutil;

verus! {

/// A prompt-cache marker attached to a message.
#[derive(Debug, Clone)]
pub struct CacheControl {
    pub cache_type: String,
}

/// One role-tagged message sent to the chat endpoint.
#[derive(Debug, Clone)]
pub struct ChatMessage {
    pub role: String,
    pub content: Option<String>,
    pub tool_calls: Option<Vec<ToolCall>>,
    pub tool_call_id: Option<String>,
    pub name: Option<String>,
    pub cache_control: Option<CacheControl>,
}

/// A completed tool call reconstructed from a stream.
#[derive(Debug, Clone)]
pub struct ToolCall {
    pub id: String,
    pub call_type: String,
    pub function: FunctionCall,
}

/// The function a tool call invokes, with its JSON-encoded arguments.
#[derive(Debug, Clone)]
pub struct FunctionCall {
    pub name: String,
    pub arguments: String,
}

/// One parsed streaming chunk of a chat completion.
#[derive(Debug)]
pub struct ChatCompletionChunk {
    pub id: String,
    pub choices: Vec<ChoiceChunk>,
    pub created: Option<u64>,
}

/// One choice inside a streaming chunk.
#[derive(Debug)]
pub struct ChoiceChunk {
    pub delta: DeltaChunk,
    pub index: Option<u32>,
    pub finish_reason: Option<String>,
}

/// One incremental delta: content and reasoning tokens, and partial tool calls.
#[derive(Debug)]
pub struct DeltaChunk {
    pub role: Option<String>,
    pub content: Option<String>,
    pub reasoning: Option<String>,
    pub tool_calls: Option<Vec<ToolCallChunk>>,
}

/// One fragment of a tool call, addressed by its accumulator index.
#[derive(Debug, Clone)]
pub struct ToolCallChunk {
    pub index: Option<u32>,
    pub id: Option<String>,
    pub call_type: Option<String>,
    pub function: Option<FunctionCallChunk>,
}

/// One fragment of a tool call's function: name, and a piece of the arguments.
#[derive(Debug, Clone)]
pub struct FunctionCallChunk {
    pub name: Option<String>,
    pub arguments: Option<String>,
}

/// A non-streaming chat-completion response.
#[derive(Debug)]
pub struct ChatCompletionResponse {
    pub id: String,
    pub choices: Vec<ChoiceResponse>,
    pub created: Option<u64>,
}

/// One choice of a non-streaming response.
#[derive(Debug)]
pub struct ChoiceResponse {
    pub message: MessageResponse,
    pub index: Option<u32>,
    pub finish_reason: Option<String>,
}

/// The message of a non-streaming response.
#[derive(Debug)]
pub struct MessageResponse {
    pub role: Option<String>,
    pub content: Option<String>,
}

/// `s` without its trailing `c` characters.
pub open spec fn drop_trailing(s: Seq<char>, c: char) -> Seq<char>
    decreases s.len(),
{
    if s.len() > 0 && s.last() == c {
        drop_trailing(s.drop_last(), c)
    } else {
        s
    }
}

proof fn lemma_drop_trailing_at(s: Seq<char>, c: char, b: int)
    requires
        0 <= b <= s.len(),
        forall|k: int| b <= k < s.len() ==> s[k] == c,
        b > 0 ==> s[b - 1] != c,
    ensures
        drop_trailing(s, c) == s.subrange(0, b),
    decreases s.len(),
{
    if s.len() > 0 && s.last() == c {
        assert(b < s.len());
        assert(forall|k: int| b <= k < s.len() - 1 ==> s.drop_last()[k] == s[k]);
        if b > 0 {
            assert(s.drop_last()[b - 1] == s[b - 1]);
        }
        lemma_drop_trailing_at(s.drop_last(), c, b);
        assert(s.drop_last().subrange(0, b) =~= s.subrange(0, b));
    } else {
        assert(b == s.len());
        assert(s.subrange(0, b) =~= s);
    }
}

/// The chat-completions URL for a configured base URL: trailing slashes are
/// dropped; a base already naming `/chat/completions` is kept; a base ending
/// in `/v1` gets `/chat/completions`; anything else gets `/v1/chat/completions`.
pub open spec fn chat_url_spec(base_url: Seq<char>) -> Seq<char> {
    let base = drop_trailing(base_url, '/');
    if strutil::is_substring(base, "/chat/completions"@) {
        base
    } else if strutil::is_suffix(base, "/v1"@) {
        base + "/chat/completions"@
    } else {
        base + "/v1/chat/completions"@
    }
}

/// Builds the endpoint URL, as `chat_url_spec` describes.
pub fn build_chat_url(base_url: &str) -> (r: String)
    ensures
        r@ == chat_url_spec(base_url@),
{
    let chars = strutil::chars_of(base_url);
    let n = chars.len();
    let mut b: usize = n;
    while b > 0 && chars[b - 1] == '/'
        invariant
            n == chars@.len(),
            b <= n,
            forall|k: int| b <= k < n ==> chars@[k] == '/',
        decreases b,
    {
        b = b - 1;
    }
    proof {
        lemma_drop_trailing_at(chars@, '/', b as int);
    }
    let base = strutil::subvec(&chars, 0, b);
    let needle = strutil::chars_of("/chat/completions");
    if strutil::contains_sub(&base, &needle) {
        return strutil::string_of(&base);
    }
    let v1 = strutil::chars_of("/v1");
    let mut s = strutil::string_of(&base);
    if strutil::ends_with(&base, &v1) {
        s.append("/chat/completions");
    } else {
        s.append("/v1/chat/completions");
    }
    s
}

/// Marks every tool message for ephemeral prompt caching, overwriting any
/// marker already present; other messages are untouched. Applying it twice
/// changes nothing more.
pub open spec fn cache_marked(m: ChatMessage, f: ChatMessage) -> bool {
    &&& f.role == m.role
    &&& f.content == m.content
    &&& f.tool_calls == m.tool_calls
    &&& f.tool_call_id == m.tool_call_id
    &&& f.name == m.name
    &&& (m.role@ == "tool"@ ==> (f.cache_control matches Some(c) && c.cache_type@ == "ephemeral"@))
    &&& (m.role@ != "tool"@ ==> f.cache_control == m.cache_control)
}

pub fn apply_cache_control(messages: &mut Vec<ChatMessage>)
    ensures
        final(messages)@.len() == old(messages)@.len(),
        forall|i: int|
            0 <= i < old(messages)@.len() ==> #[trigger] cache_marked(
                old(messages)@[i],
                final(messages)@[i],
            ),
{
    let n = messages.len();
    let mut i: usize = 0;
    while i < n
        invariant
            n == messages@.len(),
            n == old(messages)@.len(),
            i <= n,
            forall|k: int|
                i <= k < n ==> messages@[k] == old(messages)@[k],
            forall|k: int|
                0 <= k < i ==> #[trigger] cache_marked(old(messages)@[k], messages@[k]),
        decreases n - i,
    {
        let mut m = messages.remove(i);
        if model::str_eq(m.role.as_str(), "tool") {
            m.cache_control = Some(CacheControl { cache_type: String::from_str("ephemeral") });
        }
        messages.insert(i, m);
        i = i + 1;
    }
}

/// The message list sent to the endpoint: an optional system prompt first,
/// then the conversation in order.
pub fn assemble_chat_messages(system_message: Option<String>, messages: Vec<ChatMessage>) -> (r:
    Vec<ChatMessage>)
    ensures
        match system_message {
            Some(sys) => {
                &&& r@.len() == messages@.len() + 1
                &&& r@[0].role@ == "system"@
                &&& r@[0].content == Some(sys)
                &&& r@[0].tool_calls is None
                &&& r@[0].tool_call_id is None
                &&& r@[0].name is None
                &&& r@[0].cache_control is None
                &&& forall|i: int| 0 <= i < messages@.len() ==> r@[i + 1] == messages@[i]
            },
            None => r@ == messages@,
        },
{
    match system_message {
        Some(sys) => {
            let mut r: Vec<ChatMessage> = Vec::new();
            r.push(
                ChatMessage {
                    role: String::from_str("system"),
                    content: Some(sys),
                    tool_calls: None,
                    tool_call_id: None,
                    name: None,
                    cache_control: None,
                },
            );
            let mut rest = messages;
            r.append(&mut rest);
            r
        },
        None => messages,
    }
}

/// Whether a stored message joins the titling prompt: only the user's and
/// the assistant's turns do.
pub open spec fn titling_role(m: Message) -> bool {
    m.role@ == "user"@ || m.role@ == "assistant"@
}

/// The (role, content) pairs of the messages that join the titling prompt,
/// in order.
pub open spec fn titling_selection(ms: Seq<Message>) -> Seq<(Seq<char>, Seq<char>)>
    decreases ms.len(),
{
    if ms.len() == 0 {
        Seq::empty()
    } else {
        let rest = titling_selection(ms.drop_last());
        if titling_role(ms.last()) {
            rest.push((ms.last().role@, ms.last().content@))
        } else {
            rest
        }
    }
}

/// The instruction put before the conversation when asking for a title.
pub fn titling_instruction() -> (r: String)
    ensures
        r@ == "Summarize the conversation below as a short plain-text title of at most 20 characters. Reply with the title only, without quotes or emoji."@,
{
    String::from_str(
        "Summarize the conversation below as a short plain-text title of at most 20 characters. Reply with the title only, without quotes or emoji.",
    )
}

/// The prompt asking for a chat title: the titling instruction as a system
/// message, then the user and assistant turns — at most the first ten.
pub fn title_messages(messages: &Vec<Message>) -> (r: Vec<ChatMessage>)
    ensures
        ({
            let sel = titling_selection(messages@);
            let kept = if sel.len() > 10 {
                sel.subrange(0, 10)
            } else {
                sel
            };
            &&& r@.len() == kept.len() + 1
            &&& r@[0].role@ == "system"@
            &&& r@[0].content matches Some(c) && c@
                == "Summarize the conversation below as a short plain-text title of at most 20 characters. Reply with the title only, without quotes or emoji."@
            &&& forall|i: int|
                0 <= i < kept.len() ==> ((#[trigger] r@[i + 1]).role@ == kept[i].0 && (r@[i
                    + 1].content matches Some(c) && c@ == kept[i].1) && r@[i + 1].tool_calls
                    is None && r@[i + 1].tool_call_id is None && r@[i + 1].name is None && r@[i
                    + 1].cache_control is None)
        }),
{
    let mut picked: Vec<ChatMessage> = Vec::new();
    let n = messages.len();
    let mut i: usize = 0;
    while i < n
        invariant
            n == messages@.len(),
            i <= n,
            picked@.len() == titling_selection(messages@.subrange(0, i as int)).len(),
            forall|k: int|
                0 <= k < picked@.len() ==> {
                    let sel = titling_selection(messages@.subrange(0, i as int));
                    &&& (#[trigger] picked@[k]).role@ == sel[k].0
                    &&& picked@[k].content matches Some(c) && c@ == sel[k].1
                    &&& picked@[k].tool_calls is None
                    &&& picked@[k].tool_call_id is None
                    &&& picked@[k].name is None
                    &&& picked@[k].cache_control is None
                },
        decreases n - i,
    {
        let ghost pre = messages@.subrange(0, i as int);
        let m = &messages[i];
        proof {
            assert(messages@.subrange(0, i + 1).drop_last() =~= pre);
            assert(messages@.subrange(0, i + 1).last() == messages@[i as int]);
        }
        if model::str_eq(m.role.as_str(), "user") || model::str_eq(m.role.as_str(), "assistant") {
            picked.push(
                ChatMessage {
                    role: m.role.clone(),
                    content: Some(m.content.clone()),
                    tool_calls: None,
                    tool_call_id: None,
                    name: None,
                    cache_control: None,
                },
            );
        }
        i = i + 1;
    }
    proof {
        assert(messages@.subrange(0, n as int) =~= messages@);
    }
    let mut r: Vec<ChatMessage> = Vec::new();
    r.push(
        ChatMessage {
            role: String::from_str("system"),
            content: Some(titling_instruction()),
            tool_calls: None,
            tool_call_id: None,
            name: None,
            cache_control: None,
        },
    );
    let ghost pvec = picked@;
    let cap: usize = 10;
    let take = if picked.len() > cap {
        cap
    } else {
        picked.len()
    };
    let mut j: usize = 0;
    while j < take
        invariant
            take <= pvec.len(),
            j <= take,
            picked@ == pvec.skip(j as int),
            r@.len() == j + 1,
            forall|k: int| 0 <= k < j ==> r@[k + 1] == pvec[k],
            r@[0].role@ == "system"@,
            r@[0].content matches Some(c) && c@
                == "Summarize the conversation below as a short plain-text title of at most 20 characters. Reply with the title only, without quotes or emoji."@,
            forall|k: int|
                0 <= k < pvec.len() ==> {
                    let sel = titling_selection(messages@);
                    &&& (#[trigger] pvec[k]).role@ == sel[k].0
                    &&& pvec[k].content matches Some(c) && c@ == sel[k].1
                    &&& pvec[k].tool_calls is None
                    &&& pvec[k].tool_call_id is None
                    &&& pvec[k].name is None
                    &&& pvec[k].cache_control is None
                },
            pvec.len() == titling_selection(messages@).len(),
        decreases take - j,
    {
        let item = picked.remove(0);
        proof {
            assert(item == pvec[j as int]);
            assert(pvec.skip(j as int).remove(0) =~= pvec.skip(j + 1));
        }
        r.push(item);
        j = j + 1;
    }
    proof {
        let sel = titling_selection(messages@);
        let kept = if sel.len() > 10 {
            sel.subrange(0, 10)
        } else {
            sel
        };
        assert(r@.len() == kept.len() + 1);
        assert forall|i: int| 0 <= i < kept.len() implies ((#[trigger] r@[i + 1]).role@
            == kept[i].0 && (r@[i + 1].content matches Some(c) && c@ == kept[i].1) && r@[i
            + 1].tool_calls is None && r@[i + 1].tool_call_id is None && r@[i + 1].name is None
            && r@[i + 1].cache_control is None) by {
            assert(r@[i + 1] == pvec[i]);
            assert(kept[i] == sel[i]);
            assert(pvec[i].role@ == sel[i].0);
            assert(pvec[i].content matches Some(c) && c@ == sel[i].1);
        }
    }
    r
}

/// The title taken from a titling response: the first choice's content,
/// trimmed; `None` when the response carries no content.
pub fn extract_title(resp: &ChatCompletionResponse) -> (r: Option<String>)
    ensures
        match r {
            Some(t) => resp.choices@.len() > 0 && (resp.choices@[0].message.content matches Some(
                c,
            ) && t@ == strutil::trim_spec(c@)),
            None => resp.choices@.len() == 0 || resp.choices@[0].message.content is None,
        },
{
    if resp.choices.len() == 0 {
        return None;
    }
    match &resp.choices[0].message.content {
        Some(c) => {
            let chars = strutil::chars_of(c.as_str());
            let t = strutil::trim_vec(&chars);
            Some(strutil::string_of(&t))
        },
        None => None,
    }
}

/// A title clamped for storage: more than fifty characters are cut to the
/// first fifty with an ellipsis appended.
pub fn clamp_title(title: &str) -> (r: String)
    ensures
        r@ == if title@.len() > 50 {
            title@.subrange(0, 50) + "..."@
        } else {
            title@
        },
{
    let chars = strutil::chars_of(title);
    if chars.len() > 50 {
        let head = strutil::subvec(&chars, 0, 50);
        let mut s = strutil::string_of(&head);
        s.append("...");
        s
    } else {
        strutil::string_of(&chars)
    }
}

} // verus!
