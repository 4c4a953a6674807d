//! The streaming chat-completion decoder: server-sent-event line framing,
//! the per-index accumulator that reassembles fragmented tool calls, and the
//! normalized events a stream emits.
use vstd::prelude::*;
use vstd::string::StringExecFns;
use crate::chat::{FunctionCall, ToolCall, ToolCallChunk};
use crate::strutil;

verus! {

/// Ghost model of one accumulator slot: the fragment fields gathered so far
/// under one index, with the arguments always a (possibly empty) text.
pub struct SlotModel {
    pub index: u32,
    pub id: Option<Seq<char>>,
    pub call_type: Option<Seq<char>>,
    pub name: Option<Seq<char>>,
    pub arguments: Seq<char>,
}

/// Ghost model of one tool-call fragment.
pub struct ChunkModel {
    pub index: Option<u32>,
    pub id: Option<Seq<char>>,
    pub call_type: Option<Seq<char>>,
    pub name: Option<Seq<char>>,
    pub arguments: Option<Seq<char>>,
}

/// The view of an optional string.
pub open spec fn opt_view(s: Option<String>) -> Option<Seq<char>> {
    match s {
        Some(x) => Some(x@),
        None => None,
    }
}

/// The model of a fragment as received on the wire.
pub open spec fn chunk_model(c: ToolCallChunk) -> ChunkModel {
    ChunkModel {
        index: c.index,
        id: opt_view(c.id),
        call_type: opt_view(c.call_type),
        name: match c.function {
            Some(f) => opt_view(f.name),
            None => None,
        },
        arguments: match c.function {
            Some(f) => opt_view(f.arguments),
            None => None,
        },
    }
}

/// A slot that has gathered nothing yet.
pub open spec fn fresh_slot(index: u32) -> SlotModel {
    SlotModel { index, id: None, call_type: None, name: None, arguments: Seq::empty() }
}

/// One fragment merged into a slot: `id`, `call_type` and `name` overwrite
/// when the fragment carries them; `arguments` is always *appended*, never
/// replaced — the endpoint may split the payload at arbitrary points.
pub open spec fn merge_slot(s: SlotModel, c: ChunkModel) -> SlotModel {
    SlotModel {
        index: s.index,
        id: if c.id is Some {
            c.id
        } else {
            s.id
        },
        call_type: if c.call_type is Some {
            c.call_type
        } else {
            s.call_type
        },
        name: if c.name is Some {
            c.name
        } else {
            s.name
        },
        arguments: match c.arguments {
            Some(a) => s.arguments + a,
            None => s.arguments,
        },
    }
}

/// Position of the slot with this index, or `-1` when no slot has it.
pub open spec fn slot_pos(m: Seq<SlotModel>, index: u32) -> int
    decreases m.len(),
{
    if m.len() == 0 {
        -1
    } else if m[0].index == index {
        0
    } else {
        let p = slot_pos(m.drop_first(), index);
        if p < 0 {
            -1
        } else {
            1 + p
        }
    }
}

/// `slot_pos` stays in range, finds a slot with the index, and nothing
/// before it has the index; `-1` means no slot does.
pub proof fn lemma_slot_pos_props(m: Seq<SlotModel>, index: u32)
    ensures
        -1 <= slot_pos(m, index) < m.len(),
        slot_pos(m, index) >= 0 ==> m[slot_pos(m, index)].index == index,
        slot_pos(m, index) == -1 ==> forall|k: int| 0 <= k < m.len() ==> m[k].index != index,
        forall|k: int| 0 <= k < slot_pos(m, index) ==> m[k].index != index,
    decreases m.len(),
{
    if m.len() > 0 && m[0].index != index {
        lemma_slot_pos_props(m.drop_first(), index);
        assert(forall|k: int| 0 <= k < m.drop_first().len() ==> m.drop_first()[k] == m[k + 1]);
        if slot_pos(m, index) >= 0 {
            assert(m[slot_pos(m, index)] == m.drop_first()[slot_pos(m.drop_first(), index)]);
        }
        if slot_pos(m, index) == -1 {
            assert forall|k: int| 0 <= k < m.len() implies m[k].index != index by {
                if k > 0 {
                    assert(m[k] == m.drop_first()[k - 1]);
                }
            }
        }
        assert forall|k: int| 0 <= k < slot_pos(m, index) implies m[k].index != index by {
            if k > 0 {
                assert(m[k] == m.drop_first()[k - 1]);
            }
        }
    }
}

/// Any index whose slot is the first carrying `index` is `slot_pos`.
pub proof fn lemma_slot_pos_unique(m: Seq<SlotModel>, index: u32, i: int)
    requires
        0 <= i < m.len(),
        m[i].index == index,
        forall|k: int| 0 <= k < i ==> m[k].index != index,
    ensures
        slot_pos(m, index) == i,
    decreases m.len(),
{
    if m.len() > 0 && m[0].index != index {
        assert(i >= 1);
        assert(forall|k: int| 0 <= k < m.drop_first().len() ==> m.drop_first()[k] == m[k + 1]);
        lemma_slot_pos_unique(m.drop_first(), index, i - 1);
    }
}

/// `slot_pos` after appending a slot for an index no earlier slot carries.
proof fn lemma_slot_pos_push(m: Seq<SlotModel>, s: SlotModel, index: u32)
    requires
        forall|k: int| 0 <= k < m.len() ==> m[k].index != index,
        s.index == index,
    ensures
        slot_pos(m.push(s), index) == m.len(),
{
    assert(forall|k: int| 0 <= k < m.len() ==> m.push(s)[k] == m[k]);
    assert(m.push(s)[m.len() as int] == s);
    lemma_slot_pos_unique(m.push(s), index, m.len() as int);
}

/// The accumulator after one fragment: a fragment without an index is
/// dropped; one for a known index merges into that slot; one for a new index
/// opens a slot at the end, keeping arrival order.
pub open spec fn acc_apply(m: Seq<SlotModel>, c: ChunkModel) -> Seq<SlotModel> {
    match c.index {
        None => m,
        Some(index) => {
            let p = slot_pos(m, index);
            if p < 0 {
                m.push(merge_slot(fresh_slot(index), c))
            } else {
                m.update(p, merge_slot(m[p], c))
            }
        },
    }
}

/// The accumulator after a sequence of fragments, applied in arrival order.
pub open spec fn acc_apply_all(m: Seq<SlotModel>, cs: Seq<ToolCallChunk>) -> Seq<SlotModel>
    decreases cs.len(),
{
    if cs.len() == 0 {
        m
    } else {
        acc_apply(acc_apply_all(m, cs.drop_last()), chunk_model(cs.last()))
    }
}

/// A fragment carrying only arguments for one index.
pub open spec fn args_fragment(index: u32, a: Seq<char>) -> ChunkModel {
    ChunkModel { index: Some(index), id: None, call_type: None, name: None, arguments: Some(a) }
}

/// Argument fragments concatenate: however the endpoint splits a tool call's
/// arguments across deltas, accumulating the pieces one by one leaves exactly
/// the state that accumulating their concatenation would.
pub proof fn lemma_arguments_concat(m: Seq<SlotModel>, index: u32, a: Seq<char>, b: Seq<char>)
    ensures
        acc_apply(acc_apply(m, args_fragment(index, a)), args_fragment(index, b)) == acc_apply(
            m,
            args_fragment(index, a + b),
        ),
{
    lemma_slot_pos_props(m, index);
    let p = slot_pos(m, index);
    if p < 0 {
        let s1 = merge_slot(fresh_slot(index), args_fragment(index, a));
        let m1 = m.push(s1);
        lemma_slot_pos_push(m, s1, index);
        let s2 = merge_slot(s1, args_fragment(index, b));
        let sc = merge_slot(fresh_slot(index), args_fragment(index, a + b));
        assert(s2.arguments =~= sc.arguments);
        assert(s2 == sc);
        assert(m1.update(m.len() as int, s2) =~= m.push(sc));
    } else {
        let s1 = merge_slot(m[p], args_fragment(index, a));
        let m1 = m.update(p, s1);
        assert(forall|k: int| 0 <= k < p ==> m1[k] == m[k]);
        lemma_slot_pos_unique(m1, index, p);
        let s2 = merge_slot(s1, args_fragment(index, b));
        let sc = merge_slot(m[p], args_fragment(index, a + b));
        assert(s2.arguments =~= sc.arguments);
        assert(s2 == sc);
        assert(m1.update(p, s2) =~= m.update(p, sc));
    }
}

/// One slot of the running accumulator.
pub struct AccSlot {
    pub index: u32,
    pub id: Option<String>,
    pub call_type: Option<String>,
    pub name: Option<String>,
    pub arguments: Option<String>,
}

/// The model of a running slot; absent arguments count as empty text.
pub open spec fn slot_view(s: AccSlot) -> SlotModel {
    SlotModel {
        index: s.index,
        id: opt_view(s.id),
        call_type: opt_view(s.call_type),
        name: opt_view(s.name),
        arguments: match s.arguments {
            Some(a) => a@,
            None => Seq::empty(),
        },
    }
}

/// Reassembles fragmented tool calls: one slot per index, fragments merged
/// in arrival order, flushed as complete calls when the stream says so.
pub struct ToolCallAccumulator {
    slots: Vec<AccSlot>,
}

impl View for ToolCallAccumulator {
    type V = Seq<SlotModel>;

    closed spec fn view(&self) -> Seq<SlotModel> {
        Seq::new(self.slots@.len(), |i: int| slot_view(self.slots@[i]))
    }
}

impl ToolCallAccumulator {
    /// An empty accumulator.
    pub fn new() -> (r: ToolCallAccumulator)
        ensures
            r@ == Seq::<SlotModel>::empty(),
    {
        let r = ToolCallAccumulator { slots: Vec::new() };
        proof {
            assert(r@ =~= Seq::<SlotModel>::empty());
        }
        r
    }

    /// Whether any slot is filled.
    pub fn is_empty(&self) -> (r: bool)
        ensures
            r == (self@.len() == 0),
    {
        self.slots.len() == 0
    }

    /// Merges one fragment, as `acc_apply` describes.
    pub fn apply(&mut self, c: &ToolCallChunk)
        ensures
            final(self)@ == acc_apply(old(self)@, chunk_model(*c)),
    {
        let index = match c.index {
            Some(i) => i,
            None => {
                return ;
            },
        };
        let ghost pre = self@;
        let n = self.slots.len();
        let mut i: usize = 0;
        let mut found: Option<usize> = None;
        while i < n
            invariant
                n == self.slots@.len(),
                i <= n,
                pre == self@,
                match found {
                    Some(f) => f < i && self.slots@[f as int].index == index && (forall|k: int|
                        0 <= k < f ==> self.slots@[k].index != index),
                    None => forall|k: int| 0 <= k < i ==> self.slots@[k].index != index,
                },
            decreases n - i,
        {
            if found.is_none() && self.slots[i].index == index {
                found = Some(i);
            }
            i = i + 1;
        }
        proof {
            assert(forall|k: int| 0 <= k < pre.len() ==> pre[k] == slot_view(self.slots@[k]));
        }
        match found {
            Some(p) => {
                proof {
                    assert(pre[p as int].index == index);
                    lemma_slot_pos_unique(pre, index, p as int);
                }
                let mut slot = self.slots.remove(p);
                if let Some(id) = &c.id {
                    slot.id = Some(id.clone());
                }
                if let Some(ct) = &c.call_type {
                    slot.call_type = Some(ct.clone());
                }
                if let Some(f) = &c.function {
                    if let Some(nm) = &f.name {
                        slot.name = Some(nm.clone());
                    }
                    if let Some(args) = &f.arguments {
                        match &mut slot.arguments {
                            Some(existing) => {
                                existing.append(args.as_str());
                            },
                            None => {
                                slot.arguments = Some(args.clone());
                            },
                        }
                    }
                }
                proof {
                    assert(slot_view(slot) == merge_slot(pre[p as int], chunk_model(*c)));
                }
                self.slots.insert(p, slot);
                proof {
                    assert(self@ =~= acc_apply(pre, chunk_model(*c)));
                }
            },
            None => {
                proof {
                    assert(forall|k: int| 0 <= k < pre.len() ==> pre[k].index != index);
                    lemma_slot_pos_props(pre, index);
                    if slot_pos(pre, index) >= 0 {
                        assert(pre[slot_pos(pre, index)].index == index);
                    }
                }
                let mut slot = AccSlot {
                    index,
                    id: None,
                    call_type: None,
                    name: None,
                    arguments: None,
                };
                if let Some(id) = &c.id {
                    slot.id = Some(id.clone());
                }
                if let Some(ct) = &c.call_type {
                    slot.call_type = Some(ct.clone());
                }
                if let Some(f) = &c.function {
                    if let Some(nm) = &f.name {
                        slot.name = Some(nm.clone());
                    }
                    if let Some(args) = &f.arguments {
                        slot.arguments = Some(args.clone());
                    }
                }
                proof {
                    assert(slot_view(slot).arguments =~= merge_slot(
                        fresh_slot(index),
                        chunk_model(*c),
                    ).arguments);
                    assert(slot_view(slot) == merge_slot(fresh_slot(index), chunk_model(*c)));
                }
                self.slots.push(slot);
                proof {
                    assert(self@ =~= acc_apply(pre, chunk_model(*c)));
                }
            },
        }
    }

    /// The finished call a slot yields: missing id, type and name default to
    /// an empty id, the `function` type and an empty name; the arguments are
    /// whatever text accumulated.
    pub open spec fn finished(s: SlotModel, t: ToolCall) -> bool {
        &&& t.id@ == (match s.id {
            Some(x) => x,
            None => Seq::<char>::empty(),
        })
        &&& t.call_type@ == (match s.call_type {
            Some(x) => x,
            None => "function"@,
        })
        &&& t.function.name@ == (match s.name {
            Some(x) => x,
            None => Seq::<char>::empty(),
        })
        &&& t.function.arguments@ == s.arguments
    }

    /// Hands out the reconstructed calls in arrival order — every slot, each
    /// completed as `finished` describes — and clears the accumulator, so no
    /// state leaks into a later flush of the same stream.
    pub fn flush(&mut self) -> (r: Vec<ToolCall>)
        ensures
            final(self)@ == Seq::<SlotModel>::empty(),
            r@.len() == old(self)@.len(),
            forall|i: int| 0 <= i < r@.len() ==> Self::finished(old(self)@[i], #[trigger] r@[i]),
    {
        let ghost pre = self@;
        let mut r: Vec<ToolCall> = Vec::new();
        let n = self.slots.len();
        let mut i: usize = 0;
        while i < n
            invariant
                n == self.slots@.len(),
                pre == self@,
                pre.len() == n,
                i <= n,
                r@.len() == i,
                forall|k: int| 0 <= k < i ==> Self::finished(pre[k], #[trigger] r@[k]),
            decreases n - i,
        {
            let slot = &self.slots[i];
            let id = match &slot.id {
                Some(x) => x.clone(),
                None => String::new(),
            };
            let call_type = match &slot.call_type {
                Some(x) => x.clone(),
                None => String::from_str("function"),
            };
            let name = match &slot.name {
                Some(x) => x.clone(),
                None => String::new(),
            };
            let arguments = match &slot.arguments {
                Some(x) => x.clone(),
                None => String::new(),
            };
            proof {
                assert(pre[i as int] == slot_view(self.slots@[i as int]));
            }
            r.push(ToolCall { id, call_type, function: FunctionCall { name, arguments } });
            i = i + 1;
        }
        self.slots = Vec::new();
        proof {
            assert(self@ =~= Seq::<SlotModel>::empty());
        }
        r
    }
}

/// One decoded server-sent-event line.
pub enum SseLine {
    /// The `[DONE]` sentinel: the stream is over.
    Done,
    /// A `data:` line's payload, to be parsed as a chat-completion chunk.
    Payload(String),
    /// Anything else — blank lines, comments, other fields — is skipped.
    Ignored,
}

/// Decodes one line of SSE framing: after trimming, a `data: ` line either
/// carries the `[DONE]` sentinel or a payload; every other line is ignored.
pub fn decode_sse_line(line: &Vec<char>) -> (r: SseLine)
    ensures
        ({
            let t = strutil::trim_spec(line@);
            if strutil::is_prefix(t, "data: "@) {
                let payload = t.subrange(6, t.len() as int);
                if payload == "[DONE]"@ {
                    r is Done
                } else {
                    r matches SseLine::Payload(p) && p@ == payload
                }
            } else {
                r is Ignored
            }
        }),
{
    let t = strutil::trim_vec(line);
    let prefix = strutil::chars_of("data: ");
    proof {
        reveal_strlit("data: ");
    }
    if !strutil::starts_with(&t, &prefix) {
        return SseLine::Ignored;
    }
    let payload = strutil::subvec(&t, 6, t.len());
    let done = strutil::chars_of("[DONE]");
    if strutil::vec_eq(&payload, &done) {
        SseLine::Done
    } else {
        SseLine::Payload(strutil::string_of(&payload))
    }
}

/// One normalized event of a chat stream, in the order emitted.
pub enum StreamEvent {
    /// A verbatim content token.
    Content(String),
    /// A verbatim reasoning token, independent of content.
    Reasoning(String),
    /// The fully reconstructed tool calls of one flush.
    ToolCalls(Vec<ToolCall>),
    /// The stream finished normally.
    Done,
    /// The stream was aborted by the caller.
    Stopped,
}

/// Processes one parsed chunk against the accumulator. Only the first choice
/// counts. Its content and reasoning each yield one event, verbatim and in
/// that order; its tool-call fragments are merged into the accumulator; a
/// `tool_calls` finish with a non-empty accumulator flushes it as one event;
/// any other finish yields `Done` and ends the stream.
pub fn process_chunk(acc: &mut ToolCallAccumulator, chunk: &crate::chat::ChatCompletionChunk) -> (r:
    (Vec<StreamEvent>, bool))
    ensures
        forall|k: int| 0 <= k < r.0@.len() ==> ((#[trigger] r.0@[k] is Done) ==> (r.1 && k == r.0@.len()
            - 1)),
        chunk.choices@.len() == 0 ==> final(acc)@ == old(acc)@ && r.0@.len() == 0 && !r.1,
        chunk.choices@.len() > 0 ==> ({
            let ch = chunk.choices@[0];
            let d = ch.delta;
            let tcs = match d.tool_calls {
                Some(v) => v@,
                None => Seq::<ToolCallChunk>::empty(),
            };
            let mid = acc_apply_all(old(acc)@, tcs);
            let has_c = d.content is Some;
            let has_r = d.reasoning is Some;
            let flushes = (ch.finish_reason matches Some(f) && f@ == "tool_calls"@) && mid.len()
                > 0;
            let done = (ch.finish_reason matches Some(f) && f@ != "tool_calls"@);
            let ci: int = if has_c {
                1
            } else {
                0
            };
            let ri: int = if has_r {
                1
            } else {
                0
            };
            &&& r.1 == done
            &&& final(acc)@ == (if flushes {
                Seq::<SlotModel>::empty()
            } else {
                mid
            })
            &&& r.0@.len() == ci + ri + (if flushes {
                1int
            } else {
                0
            }) + (if done {
                1int
            } else {
                0
            })
            &&& (has_c ==> (r.0@[0] matches StreamEvent::Content(t) && t == d.content.unwrap()))
            &&& (has_r ==> (r.0@[ci] matches StreamEvent::Reasoning(t) && t
                == d.reasoning.unwrap()))
            &&& (flushes ==> (r.0@[ci + ri] matches StreamEvent::ToolCalls(l) && l@.len()
                == mid.len() && (forall|i: int|
                0 <= i < mid.len() ==> ToolCallAccumulator::finished(mid[i], #[trigger] l@[i]))))
            &&& (done ==> r.0@[ci + ri] is Done)
        }),
{
    let mut events: Vec<StreamEvent> = Vec::new();
    let mut terminal = false;
    if chunk.choices.len() == 0 {
        return (events, terminal);
    }
    let choice = &chunk.choices[0];
    let delta = &choice.delta;
    if let Some(content) = &delta.content {
        events.push(StreamEvent::Content(content.clone()));
    }
    if let Some(reasoning) = &delta.reasoning {
        events.push(StreamEvent::Reasoning(reasoning.clone()));
    }
    let ghost pre = acc@;
    if let Some(tool_calls) = &delta.tool_calls {
        let n = tool_calls.len();
        let mut i: usize = 0;
        while i < n
            invariant
                n == tool_calls@.len(),
                i <= n,
                acc@ == acc_apply_all(pre, tool_calls@.subrange(0, i as int)),
            decreases n - i,
        {
            proof {
                assert(tool_calls@.subrange(0, i + 1).drop_last() =~= tool_calls@.subrange(
                    0,
                    i as int,
                ));
                assert(tool_calls@.subrange(0, i + 1).last() == tool_calls@[i as int]);
            }
            acc.apply(&tool_calls[i]);
            i = i + 1;
        }
        proof {
            assert(tool_calls@.subrange(0, n as int) =~= tool_calls@);
        }
    }
    if let Some(finish_reason) = &choice.finish_reason {
        if crate::model::str_eq(finish_reason.as_str(), "tool_calls") {
            if !acc.is_empty() {
                let calls = acc.flush();
                events.push(StreamEvent::ToolCalls(calls));
            }
        } else {
            events.push(StreamEvent::Done);
            terminal = true;
        }
    }
    (events, terminal)
}

/// Reads one parsed chat-completion chunk out of an untyped JSON document,
/// taking each field the stream protocol names and defaulting what is absent
/// or of the wrong shape; unusable tool-call fragments are dropped.
pub fn chunk_of_json(v: &serde_json::Value) -> crate::chat::ChatCompletionChunk {
    let id = match crate::jsonval::json_get(v, "id") {
        Some(x) => match crate::jsonval::json_as_str(x) {
            Some(s) => String::from_str(s),
            None => String::new(),
        },
        None => String::new(),
    };
    let created = match crate::jsonval::json_get(v, "created") {
        Some(x) => crate::jsonval::json_as_u64(x),
        None => None,
    };
    let mut choices: Vec<crate::chat::ChoiceChunk> = Vec::new();
    if let Some(arr_v) = crate::jsonval::json_get(v, "choices") {
        if let Some(arr) = crate::jsonval::json_as_array(arr_v) {
            let n = arr.len();
            let mut i: usize = 0;
            while i < n
                invariant
                    n == arr@.len(),
                    i <= n,
                decreases n - i,
            {
                choices.push(choice_of_json(&arr[i]));
                i = i + 1;
            }
        }
    }
    crate::chat::ChatCompletionChunk { id, choices, created }
}

/// Reads one choice: its delta and its finish reason.
fn choice_of_json(v: &serde_json::Value) -> crate::chat::ChoiceChunk {
    let index = match crate::jsonval::json_get(v, "index") {
        Some(x) => u32_of_json(x),
        None => None,
    };
    let finish_reason = opt_string_field(v, "finish_reason");
    let delta = match crate::jsonval::json_get(v, "delta") {
        Some(d) => delta_of_json(d),
        None => crate::chat::DeltaChunk { role: None, content: None, reasoning: None, tool_calls: None },
    };
    crate::chat::ChoiceChunk { delta, index, finish_reason }
}

/// Reads one delta: role, content, reasoning, and tool-call fragments.
fn delta_of_json(v: &serde_json::Value) -> crate::chat::DeltaChunk {
    let role = opt_string_field(v, "role");
    let content = opt_string_field(v, "content");
    let reasoning = opt_string_field(v, "reasoning");
    let tool_calls = match crate::jsonval::json_get(v, "tool_calls") {
        Some(arr_v) => match crate::jsonval::json_as_array(arr_v) {
            Some(arr) => {
                let mut out: Vec<ToolCallChunk> = Vec::new();
                let n = arr.len();
                let mut i: usize = 0;
                while i < n
                    invariant
                        n == arr@.len(),
                        i <= n,
                    decreases n - i,
                {
                    out.push(tool_call_chunk_of_json(&arr[i]));
                    i = i + 1;
                }
                Some(out)
            },
            None => None,
        },
        None => None,
    };
    crate::chat::DeltaChunk { role, content, reasoning, tool_calls }
}

/// Reads one tool-call fragment: index, id, type, and function fields.
fn tool_call_chunk_of_json(v: &serde_json::Value) -> ToolCallChunk {
    let index = match crate::jsonval::json_get(v, "index") {
        Some(x) => u32_of_json(x),
        None => None,
    };
    let id = opt_string_field(v, "id");
    let call_type = opt_string_field(v, "type");
    let function = match crate::jsonval::json_get(v, "function") {
        Some(f) => Some(
            crate::chat::FunctionCallChunk {
                name: opt_string_field(f, "name"),
                arguments: opt_string_field(f, "arguments"),
            },
        ),
        None => None,
    };
    ToolCallChunk { index, id, call_type, function }
}

/// A string member of an object, when present and a string.
pub fn opt_string_field(v: &serde_json::Value, key: &str) -> Option<String> {
    match crate::jsonval::json_get(v, key) {
        Some(x) => match crate::jsonval::json_as_str(x) {
            Some(s) => Some(String::from_str(s)),
            None => None,
        },
        None => None,
    }
}

/// A JSON number as a `u32`, when it fits.
fn u32_of_json(v: &serde_json::Value) -> Option<u32> {
    match crate::jsonval::json_as_u64(v) {
        Some(x) => if x <= u32::MAX as u64 {
            Some(x as u32)
        } else {
            None
        },
        None => None,
    }
}

/// Decodes one chat stream: buffers the raw response text, frames it into
/// SSE lines, parses each payload, and turns it into normalized events.
/// Ghost model of a decoder: the response text not yet consumed as a
/// complete line, and the state of the tool-call accumulator.
pub struct DecoderModel {
    pub buffered: Seq<char>,
    pub acc: Seq<SlotModel>,
}

pub struct SseDecoder {
    buffer: crate::lines::LineBuffer,
    acc: ToolCallAccumulator,
}

impl View for SseDecoder {
    type V = DecoderModel;

    closed spec fn view(&self) -> DecoderModel {
        DecoderModel { buffered: self.buffer@, acc: self.acc@ }
    }
}

impl SseDecoder {
    /// A fresh decoder with nothing buffered.
    pub fn new() -> (r: SseDecoder)
        ensures
            r@.buffered == Seq::<char>::empty(),
            r@.acc == Seq::<SlotModel>::empty(),
    {
        SseDecoder { buffer: crate::lines::LineBuffer::new(), acc: ToolCallAccumulator::new() }
    }

    /// Feeds one chunk of response text and hands back the events it
    /// completes, stopping at the first terminal event: a feed emits at most
    /// one `Done`, always last, and reports it as terminal. Payloads that do
    /// not parse are skipped. The unconsumed tail of the input — what was
    /// buffered plus this chunk — stays buffered for the next feed, and a
    /// non-terminal feed leaves no complete line behind; a stream whose next
    /// complete line is the `[DONE]` sentinel gets exactly the one terminal
    /// event and nothing else.
    pub fn feed(&mut self, text: &str) -> (r: (Vec<StreamEvent>, bool))
        ensures
            r.1 ==> r.0@.len() > 0 && (r.0@.last() is Done),
            forall|k: int| 0 <= k < r.0@.len() ==> ((#[trigger] r.0@[k] is Done) ==> (r.1 && k
                == r.0@.len() - 1)),
            strutil::is_suffix(old(self)@.buffered + text@, final(self)@.buffered),
            !r.1 ==> strutil::newline_at(final(self)@.buffered) == final(self)@.buffered.len(),
            ({
                let total = old(self)@.buffered + text@;
                let nl = strutil::newline_at(total);
                (nl < total.len() && strutil::trim_spec(total.subrange(0, nl))
                    == "data: [DONE]"@) ==> (r.1 && r.0@.len() == 1 && (r.0@[0] is Done))
            }),
    {
        let ghost total = self@.buffered + text@;
        let ghost nl = strutil::newline_at(total);
        let ghost sentinel = nl < total.len() && strutil::trim_spec(total.subrange(0, nl))
            == "data: [DONE]"@;
        let chunk_chars = strutil::chars_of(text);
        self.buffer.feed(&chunk_chars);
        proof {
            assert(self.buffer@ == total);
            assert(total.subrange(total.len() - total.len(), total.len() as int) =~= total);
        }
        let mut events: Vec<StreamEvent> = Vec::new();
        let mut terminal = false;
        let mut go = true;
        while go
            invariant
                total == old(self)@.buffered + text@,
                nl == strutil::newline_at(total),
                sentinel == (nl < total.len() && strutil::trim_spec(total.subrange(0, nl))
                    == "data: [DONE]"@),
                terminal ==> !go,
                terminal ==> events@.len() > 0 && (events@.last() is Done),
                forall|k: int| 0 <= k < events@.len() ==> ((#[trigger] events@[k] is Done) ==> (
                    terminal && k == events@.len() - 1)),
                strutil::is_suffix(total, self.buffer@),
                !go && !terminal ==> strutil::newline_at(self.buffer@) == self.buffer@.len(),
                sentinel ==> (if go {
                    self.buffer@ == total && events@.len() == 0
                } else {
                    terminal && events@.len() == 1 && (events@[0] is Done)
                }),
            decreases self.buffer@.len() + (if go { 1int } else { 0 }),
        {
            let ghost prev_buf = self.buffer@;
            match self.buffer.take_line() {
                None => {
                    proof {
                        if sentinel {
                            // the sentinel line is a complete line, so a
                            // line was available
                            assert(prev_buf == total);
                            assert(false);
                        }
                    }
                    go = false;
                },
                Some(line) => {
                    proof {
                        let i = strutil::newline_at(prev_buf);
                        assert(prev_buf.subrange(
                            prev_buf.len() - self.buffer@.len(),
                            prev_buf.len() as int,
                        ) =~= self.buffer@);
                        assert(strutil::is_suffix(prev_buf, self.buffer@));
                        strutil::lemma_suffix_trans(total, prev_buf, self.buffer@);
                        if sentinel {
                            assert(prev_buf == total);
                            assert(line@ == total.subrange(0, nl));
                            reveal_strlit("data: [DONE]");
                            reveal_strlit("data: ");
                            reveal_strlit("[DONE]");
                            assert(("data: [DONE]"@).len() == 12);
                            assert(("data: "@).len() == 6);
                            assert(("[DONE]"@).len() == 6);
                            let t = strutil::trim_spec(line@);
                            assert(t == "data: [DONE]"@);
                            assert(t.subrange(0, 6) =~= "data: "@);
                            assert(strutil::is_prefix(t, "data: "@));
                            assert(t.subrange(6, t.len() as int) =~= "[DONE]"@);
                        }
                    }
                    match decode_sse_line(&line) {
                        SseLine::Done => {
                            events.push(StreamEvent::Done);
                            terminal = true;
                            go = false;
                        },
                        SseLine::Payload(payload) => {
                            match crate::jsonval::json_parse(payload.as_str()) {
                                Ok(doc) => {
                                    let chunk = chunk_of_json(&doc);
                                    let (mut evs, term) = process_chunk(&mut self.acc, &chunk);
                                    let ghost evs_pre = evs@;
                                    let ghost events_pre = events@;
                                    events.append(&mut evs);
                                    proof {
                                        assert(forall|k: int|
                                            0 <= k < evs_pre.len() ==> events@[events_pre.len()
                                                + k] == evs_pre[k]);
                                    }
                                    if term {
                                        terminal = true;
                                        go = false;
                                    }
                                },
                                Err(_) => {},
                            }
                        },
                        SseLine::Ignored => {},
                    }
                },
            }
        }
        (events, terminal)
    }
}

/// Removes a finished stream's registry entry — the stream completed or was
/// torn down; afterwards the event id is certainly absent.
pub fn finish_stream<H>(reg: &mut crate::registry::Registry<H>, event_id: &String) -> (r: Option<H>)
    requires
        old(reg).wf(),
    ensures
        final(reg).wf(),
        final(reg)@ == old(reg)@.remove(event_id@),
        !final(reg)@.contains_key(event_id@),
        r == (if old(reg)@.contains_key(event_id@) {
            Some(old(reg)@[event_id@])
        } else {
            Option::<H>::None
        }),
{
    reg.remove(event_id)
}

/// Aborts a stream by id: hands back the registered cancellation handle for
/// the caller to invoke, or reports — without touching anything — that no
/// such stream exists; either way the id is absent afterwards.
pub fn stop_stream<H>(reg: &mut crate::registry::Registry<H>, event_id: &String) -> (r: Result<
    H,
    String,
>)
    requires
        old(reg).wf(),
    ensures
        final(reg).wf(),
        r is Ok <==> old(reg)@.contains_key(event_id@),
        r matches Ok(h) ==> h == old(reg)@[event_id@],
        r matches Err(e) ==> e@ == "no stream is registered under this event id"@,
        final(reg)@ == old(reg)@.remove(event_id@),
        !final(reg)@.contains_key(event_id@),
{
    match reg.remove(event_id) {
        Some(h) => Ok(h),
        None => Err(String::from_str("no stream is registered under this event id")),
    }
}

/// A terminal event tears the registry entry down exactly once: after the
/// removal, the id is absent, and a later stop request finds nothing — it
/// reports the id as unknown and leaves the registry exactly as it was.
pub proof fn lemma_done_then_stop_not_found<H>(m: Map<Seq<char>, H>, id: Seq<char>)
    ensures
        !m.remove(id).contains_key(id),
        m.remove(id).remove(id) == m.remove(id),
{
    assert(m.remove(id).remove(id) =~= m.remove(id));
}

} // verus!
