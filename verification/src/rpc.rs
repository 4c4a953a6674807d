//! The JSON-RPC side of the tool-protocol client: the exact envelope text of
//! each message, string escaping and number rendering proved character by
//! character, extraction of a call's result, and the stdio session's state
//! machine — one handshake, one request, each read bounded by a timeout.
use vstd::prelude::*;
use vstd::string::StringExecFns;
use crate::jsonval;
use crate::strutil;

verus! {

/// The hexadecimal digit for a value below sixteen.
pub open spec fn hex_digit(n: int) -> char {
    if n == 0 {
        '0'
    } else if n == 1 {
        '1'
    } else if n == 2 {
        '2'
    } else if n == 3 {
        '3'
    } else if n == 4 {
        '4'
    } else if n == 5 {
        '5'
    } else if n == 6 {
        '6'
    } else if n == 7 {
        '7'
    } else if n == 8 {
        '8'
    } else if n == 9 {
        '9'
    } else if n == 10 {
        'a'
    } else if n == 11 {
        'b'
    } else if n == 12 {
        'c'
    } else if n == 13 {
        'd'
    } else if n == 14 {
        'e'
    } else {
        'f'
    }
}

/// How one character appears inside a JSON string literal: quote and
/// backslash are escaped, the common control characters get their short
/// escapes, any other control character a `\u00..` escape, and everything
/// else stands as itself.
pub open spec fn esc_char(c: char) -> Seq<char> {
    if c == '"' {
        seq!['\\', '"']
    } else if c == '\\' {
        seq!['\\', '\\']
    } else if c == '\n' {
        seq!['\\', 'n']
    } else if c == '\r' {
        seq!['\\', 'r']
    } else if c == '\t' {
        seq!['\\', 't']
    } else if (c as u32) < 32 {
        seq!['\\', 'u', '0', '0', hex_digit((c as u32) as int / 16), hex_digit((c as u32) as int % 16)]
    } else {
        seq![c]
    }
}

/// A text escaped for a JSON string literal, character by character.
pub open spec fn json_escaped(s: Seq<char>) -> Seq<char>
    decreases s.len(),
{
    if s.len() == 0 {
        Seq::empty()
    } else {
        json_escaped(s.drop_last()) + esc_char(s.last())
    }
}

/// The hexadecimal digit character for a value below sixteen.
fn hex_digit_char(n: u32) -> (r: char)
    requires
        n < 16,
    ensures
        r == hex_digit(n as int),
{
    if n == 0 {
        '0'
    } else if n == 1 {
        '1'
    } else if n == 2 {
        '2'
    } else if n == 3 {
        '3'
    } else if n == 4 {
        '4'
    } else if n == 5 {
        '5'
    } else if n == 6 {
        '6'
    } else if n == 7 {
        '7'
    } else if n == 8 {
        '8'
    } else if n == 9 {
        '9'
    } else if n == 10 {
        'a'
    } else if n == 11 {
        'b'
    } else if n == 12 {
        'c'
    } else if n == 13 {
        'd'
    } else if n == 14 {
        'e'
    } else {
        'f'
    }
}

/// Escapes a text for embedding in a JSON string literal, as `json_escaped`
/// describes.
pub fn escape_json(s: &Vec<char>) -> (r: Vec<char>)
    ensures
        r@ == json_escaped(s@),
{
    let mut r: Vec<char> = Vec::new();
    let n = s.len();
    let mut i: usize = 0;
    while i < n
        invariant
            n == s@.len(),
            i <= n,
            r@ == json_escaped(s@.subrange(0, i as int)),
        decreases n - i,
    {
        let c = s[i];
        proof {
            assert(s@.subrange(0, i + 1).drop_last() =~= s@.subrange(0, i as int));
            assert(s@.subrange(0, i + 1).last() == s@[i as int]);
        }
        if c == '"' {
            r.push('\\');
            r.push('"');
        } else if c == '\\' {
            r.push('\\');
            r.push('\\');
        } else if c == '\n' {
            r.push('\\');
            r.push('n');
        } else if c == '\r' {
            r.push('\\');
            r.push('r');
        } else if c == '\t' {
            r.push('\\');
            r.push('t');
        } else if (c as u32) < 32 {
            let code = c as u32;
            r.push('\\');
            r.push('u');
            r.push('0');
            r.push('0');
            r.push(hex_digit_char(code / 16));
            r.push(hex_digit_char(code % 16));
        } else {
            r.push(c);
        }
        proof {
            assert(r@ =~= json_escaped(s@.subrange(0, i + 1)));
        }
        i = i + 1;
    }
    proof {
        assert(s@.subrange(0, n as int) =~= s@);
    }
    r
}

/// The decimal digit character for a value below ten.
pub open spec fn digit_char(n: int) -> char {
    if n == 0 {
        '0'
    } else if n == 1 {
        '1'
    } else if n == 2 {
        '2'
    } else if n == 3 {
        '3'
    } else if n == 4 {
        '4'
    } else if n == 5 {
        '5'
    } else if n == 6 {
        '6'
    } else if n == 7 {
        '7'
    } else if n == 8 {
        '8'
    } else {
        '9'
    }
}

/// The decimal rendering of a natural number, most significant digit first.
pub open spec fn dec_digits(n: nat) -> Seq<char>
    decreases n,
{
    if n < 10 {
        seq![digit_char(n as int)]
    } else {
        dec_digits(n / 10).push(digit_char((n % 10) as int))
    }
}

/// Renders a number in decimal, as `dec_digits` describes.
pub fn u64_to_dec(x: u64) -> (r: Vec<char>)
    ensures
        r@ == dec_digits(x as nat),
    decreases x,
{
    let d = x % 10;
    let c: char = if d == 0 {
        '0'
    } else if d == 1 {
        '1'
    } else if d == 2 {
        '2'
    } else if d == 3 {
        '3'
    } else if d == 4 {
        '4'
    } else if d == 5 {
        '5'
    } else if d == 6 {
        '6'
    } else if d == 7 {
        '7'
    } else if d == 8 {
        '8'
    } else {
        '9'
    };
    proof {
        assert(c == digit_char((x % 10) as int));
    }
    if x < 10 {
        let mut r: Vec<char> = Vec::new();
        r.push(c);
        proof {
            assert(r@ =~= dec_digits(x as nat));
        }
        r
    } else {
        let mut r = u64_to_dec(x / 10);
        r.push(c);
        r
    }
}

/// The exact JSON-RPC envelope: version, then the id when the message is a
/// request, the escaped method name, and the params document when one is
/// sent.
pub open spec fn rpc_envelope_spec(id: Option<u64>, method: Seq<char>, params: Option<Seq<char>>) -> Seq<char> {
    "{\"jsonrpc\":\"2.0\""@ + (match id {
        Some(n) => ",\"id\":"@ + dec_digits(n as nat),
        None => Seq::<char>::empty(),
    }) + ",\"method\":\""@ + json_escaped(method) + "\""@ + (match params {
        Some(p) => ",\"params\":"@ + p,
        None => Seq::<char>::empty(),
    }) + "}"@
}

/// Builds one envelope, as `rpc_envelope_spec` describes.
pub fn rpc_envelope(id: Option<u64>, method: &str, params: Option<&str>) -> (r: String)
    ensures
        r@ == rpc_envelope_spec(id, method@, match params {
            Some(p) => Some(p@),
            None => None,
        }),
{
    let mut s = String::from_str("{\"jsonrpc\":\"2.0\"");
    match id {
        Some(n) => {
            s.append(",\"id\":");
            let digits = u64_to_dec(n);
            let dtext = strutil::string_of(&digits);
            s.append(dtext.as_str());
        },
        None => {},
    }
    s.append(",\"method\":\"");
    let mchars = strutil::chars_of(method);
    let escaped = escape_json(&mchars);
    let mtext = strutil::string_of(&escaped);
    s.append(mtext.as_str());
    s.append("\"");
    match params {
        Some(p) => {
            s.append(",\"params\":");
            s.append(p);
        },
        None => {},
    }
    s.append("}");
    proof {
        assert(s@ =~= rpc_envelope_spec(id, method@, match params {
            Some(p) => Some(p@),
            None => None,
        }));
    }
    s
}

/// The fixed params of the `initialize` request: protocol version and this
/// client's identity.
pub fn initialize_params() -> (r: String)
    ensures
        r@ == "{\"protocolVersion\":\"2024-11-05\",\"capabilities\":{},\"clientInfo\":{\"name\":\"qqh-tauri\",\"version\":\"0.1.0\"}}"@,
{
    String::from_str(
        "{\"protocolVersion\":\"2024-11-05\",\"capabilities\":{},\"clientInfo\":{\"name\":\"qqh-tauri\",\"version\":\"0.1.0\"}}",
    )
}

/// The `initialize` request, sent first on either transport, with id 1.
pub fn initialize_request() -> (r: String)
    ensures
        r@ == rpc_envelope_spec(
            Some(1u64),
            "initialize"@,
            Some(
                "{\"protocolVersion\":\"2024-11-05\",\"capabilities\":{},\"clientInfo\":{\"name\":\"qqh-tauri\",\"version\":\"0.1.0\"}}"@,
            ),
        ),
{
    let params = initialize_params();
    rpc_envelope(Some(1), "initialize", Some(params.as_str()))
}

/// The `initialized` notification: no id, no params, no reply expected.
pub fn initialized_notification() -> (r: String)
    ensures
        r@ == rpc_envelope_spec(None, "notifications/initialized"@, None),
{
    rpc_envelope(None, "notifications/initialized", None)
}

/// The `tools/list` request, with id 2.
pub fn list_tools_request() -> (r: String)
    ensures
        r@ == rpc_envelope_spec(Some(2u64), "tools/list"@, None),
{
    rpc_envelope(Some(2), "tools/list", None)
}

/// The params of a `tools/call` request: the escaped tool name and the
/// arguments document, embedded verbatim.
pub open spec fn call_params_spec(tool_name: Seq<char>, arguments_json: Seq<char>) -> Seq<char> {
    "{\"name\":\""@ + json_escaped(tool_name) + "\",\"arguments\":"@ + arguments_json + "}"@
}

/// The `tools/call` request for one tool, with id 2; `arguments_json` must
/// already be a serialized JSON document.
pub fn call_tool_request(tool_name: &str, arguments_json: &str) -> (r: String)
    ensures
        r@ == rpc_envelope_spec(
            Some(2u64),
            "tools/call"@,
            Some(call_params_spec(tool_name@, arguments_json@)),
        ),
{
    let mut params = String::from_str("{\"name\":\"");
    let nchars = strutil::chars_of(tool_name);
    let escaped = escape_json(&nchars);
    let ntext = strutil::string_of(&escaped);
    params.append(ntext.as_str());
    params.append("\",\"arguments\":");
    params.append(arguments_json);
    params.append("}");
    proof {
        assert(params@ =~= call_params_spec(tool_name@, arguments_json@));
    }
    rpc_envelope(Some(2), "tools/call", Some(params.as_str()))
}

/// One line-delimited message: the envelope and its terminating newline.
pub fn as_line(envelope: &str) -> (r: String)
    ensures
        r@ == envelope@ + seq!['\n'],
{
    let mut s = String::from_str(envelope);
    strutil::push_char(&mut s, '\n');
    s
}

/// Extracts a tool call's result, the same way on either transport: an
/// `error` member is a textual failure; otherwise the `result` is returned,
/// preferring its nested `content` member when one is present. Over HTTP a
/// reply with neither member is handed back whole.
pub fn extract_http_call_result(v: &serde_json::Value) -> Result<serde_json::Value, String> {
    if let Some(error) = jsonval::json_get(v, "error") {
        return Err(rpc_error_text(error));
    }
    if let Some(result) = jsonval::json_get(v, "result") {
        if let Some(content) = jsonval::json_get(result, "content") {
            return Ok(jsonval::json_clone(content));
        }
        return Ok(jsonval::json_clone(result));
    }
    Ok(jsonval::json_clone(v))
}

/// Extracts a tool call's result as over HTTP, except that a line-delimited
/// reply carrying neither an `error` nor a `result` is itself an error.
pub fn extract_stdio_call_result(v: &serde_json::Value) -> Result<serde_json::Value, String> {
    if let Some(error) = jsonval::json_get(v, "error") {
        return Err(rpc_error_text(error));
    }
    if let Some(result) = jsonval::json_get(v, "result") {
        if let Some(content) = jsonval::json_get(result, "content") {
            return Ok(jsonval::json_clone(content));
        }
        return Ok(jsonval::json_clone(result));
    }
    Err(String::from_str("the reply carries no result"))
}

/// A remote error as text: its serialized JSON behind a fixed prefix.
fn rpc_error_text(error: &serde_json::Value) -> String {
    let mut msg = String::from_str("tool call failed: ");
    match jsonval::json_to_string(error) {
        Ok(t) => {
            msg.append(t.as_str());
        },
        Err(_) => {
            msg.append("(unprintable error)");
        },
    }
    msg
}

/// Where a stdio session stands. The session writes `initialize`, awaits
/// one reply line; writes the `initialized` notification and the actual
/// request, awaits one reply line; each read is bounded by a timeout, and a
/// timeout fails the call — there is no retry and no unbounded wait.
pub enum SessionState {
    /// `initialize` has been written; one reply line is awaited.
    AwaitingInitReply,
    /// The notification and the request have been written; the reply line is
    /// awaited.
    AwaitingCallReply,
    /// The reply to the request, to be parsed and its result extracted.
    Completed(String),
    /// The session failed; no further step changes this.
    Failed(String),
}

/// What one bounded read produced.
pub enum ReadOutcome {
    /// A full line arrived within the timeout.
    Line(String),
    /// The read failed.
    ReadError(String),
    /// The timeout elapsed with no line.
    TimedOut,
}

/// Ghost model of a session state.
pub enum SessionModel {
    AwaitInit,
    AwaitReply,
    Completed(Seq<char>),
    Failed(Seq<char>),
}

/// Ghost model of a read outcome.
pub enum OutcomeModel {
    Line(Seq<char>),
    ReadError(Seq<char>),
    TimedOut,
}

/// What the driver does next: write the `initialized` notification, pause
/// briefly, then write the request — or nothing.
#[derive(Debug, Clone, Copy, PartialEq, Eq, Structural)]
pub enum SessionAction {
    WriteNoteThenRequest,
    NoAction,
}

/// The model of a state.
pub open spec fn state_model(s: SessionState) -> SessionModel {
    match s {
        SessionState::AwaitingInitReply => SessionModel::AwaitInit,
        SessionState::AwaitingCallReply => SessionModel::AwaitReply,
        SessionState::Completed(l) => SessionModel::Completed(l@),
        SessionState::Failed(e) => SessionModel::Failed(e@),
    }
}

/// The model of a read outcome.
pub open spec fn outcome_model(o: ReadOutcome) -> OutcomeModel {
    match o {
        ReadOutcome::Line(l) => OutcomeModel::Line(l@),
        ReadOutcome::ReadError(e) => OutcomeModel::ReadError(e@),
        ReadOutcome::TimedOut => OutcomeModel::TimedOut,
    }
}

/// One step of the session. An initialize reply moves on to the
/// notification and the request; the request's reply completes the session;
/// a timeout or read error at either read fails it for good — a timeout is
/// an error, never a longer wait; and a finished session stays finished.
pub open spec fn advance_model(s: SessionModel, o: OutcomeModel) -> (SessionModel, SessionAction) {
    match s {
        SessionModel::AwaitInit => match o {
            OutcomeModel::Line(_) => (SessionModel::AwaitReply, SessionAction::WriteNoteThenRequest),
            OutcomeModel::ReadError(e) => (
                SessionModel::Failed("cannot read the initialize reply: "@ + e),
                SessionAction::NoAction,
            ),
            OutcomeModel::TimedOut => (
                SessionModel::Failed("the server did not answer initialize within the timeout"@),
                SessionAction::NoAction,
            ),
        },
        SessionModel::AwaitReply => match o {
            OutcomeModel::Line(l) => (SessionModel::Completed(l), SessionAction::NoAction),
            OutcomeModel::ReadError(e) => (
                SessionModel::Failed("cannot read the reply: "@ + e),
                SessionAction::NoAction,
            ),
            OutcomeModel::TimedOut => (
                SessionModel::Failed("the server did not answer the request within the timeout"@),
                SessionAction::NoAction,
            ),
        },
        SessionModel::Completed(l) => (SessionModel::Completed(l), SessionAction::NoAction),
        SessionModel::Failed(e) => (SessionModel::Failed(e), SessionAction::NoAction),
    }
}

/// Advances the session by one read outcome, exactly as `advance_model`
/// describes.
pub fn advance_session(state: SessionState, outcome: ReadOutcome) -> (r: (
    SessionState,
    SessionAction,
))
    ensures
        (state_model(r.0), r.1) == advance_model(state_model(state), outcome_model(outcome)),
{
    match state {
        SessionState::AwaitingInitReply => match outcome {
            ReadOutcome::Line(_) => (SessionState::AwaitingCallReply, SessionAction::WriteNoteThenRequest),
            ReadOutcome::ReadError(e) => {
                let mut msg = String::from_str("cannot read the initialize reply: ");
                msg.append(e.as_str());
                (SessionState::Failed(msg), SessionAction::NoAction)
            },
            ReadOutcome::TimedOut => (
                SessionState::Failed(
                    String::from_str("the server did not answer initialize within the timeout"),
                ),
                SessionAction::NoAction,
            ),
        },
        SessionState::AwaitingCallReply => match outcome {
            ReadOutcome::Line(l) => (SessionState::Completed(l), SessionAction::NoAction),
            ReadOutcome::ReadError(e) => {
                let mut msg = String::from_str("cannot read the reply: ");
                msg.append(e.as_str());
                (SessionState::Failed(msg), SessionAction::NoAction)
            },
            ReadOutcome::TimedOut => (
                SessionState::Failed(
                    String::from_str("the server did not answer the request within the timeout"),
                ),
                SessionAction::NoAction,
            ),
        },
        SessionState::Completed(l) => (SessionState::Completed(l), SessionAction::NoAction),
        SessionState::Failed(e) => (SessionState::Failed(e), SessionAction::NoAction),
    }
}

/// A server that answers `initialize` but never the request cannot hang the
/// session: the second read's timeout moves it to a failed state carrying
/// the timeout error, and a failed session never advances again, whatever
/// else is read.
pub proof fn lemma_request_timeout_fails_not_hangs(init_line: Seq<char>)
    ensures
        ({
            let (s1, a1) = advance_model(SessionModel::AwaitInit, OutcomeModel::Line(init_line));
            let (s2, a2) = advance_model(s1, OutcomeModel::TimedOut);
            &&& s1 is AwaitReply
            &&& a1 == SessionAction::WriteNoteThenRequest
            &&& s2 == SessionModel::Failed(
                "the server did not answer the request within the timeout"@,
            )
            &&& forall|o: OutcomeModel| #[trigger] advance_model(s2, o).0 == s2
        }),
{
}

} // verus!
