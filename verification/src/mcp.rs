//! The tool-protocol client's configuration model: a server is addressed
//! over one of two transports, described in either a legacy flat shape or a
//! newer shape nested under a `transport` member. Both shapes normalize to
//! one canonical form, and both resolve to the same dispatch.
use vstd::prelude::*;
use vstd::string::StringExecFns;
use crate::jsonval;
use crate::strutil;

verus! {

broadcast use vstd::string::group_string_axioms;

/// The HTTP transport: one JSON-RPC envelope per POST to this URL.
#[derive(Debug, Clone)]
pub struct MCPHTTPTransport {
    pub transport_type: String,
    pub url: String,
}

/// The stdio transport: a spawned command spoken to over line-delimited
/// JSON-RPC on its standard streams.
#[derive(Debug, Clone)]
pub struct MCPStdioTransport {
    pub transport_type: String,
    pub command: String,
    pub args: Option<Vec<String>>,
    pub working_dir: Option<String>,
    pub env: Option<Vec<(String, String)>>,
    pub retry_attempts: Option<u32>,
    pub retry_delay: Option<u32>,
}

/// A resolved transport.
#[derive(Debug, Clone)]
pub enum MCPTransport {
    Http(MCPHTTPTransport),
    Stdio(MCPStdioTransport),
}

/// The fields a nested `transport` member may carry, all optional as read.
#[derive(Debug, Clone)]
pub struct TransportSpec {
    pub transport_type: Option<String>,
    pub command: Option<String>,
    pub args: Option<Vec<String>>,
    pub env: Option<Vec<(String, String)>>,
    pub url: Option<String>,
    pub working_dir: Option<String>,
}

/// One server's configuration, able to hold both supported shapes: the
/// newer metadata and nested transport, and the legacy flat
/// `command`/`args`/`env`/`url` fields.
#[derive(Debug, Clone)]
pub struct MCPServerConfig {
    pub name: Option<String>,
    pub description: Option<String>,
    pub server_type: Option<String>,
    pub enabled: Option<bool>,
    pub transport: Option<TransportSpec>,
    pub command: Option<String>,
    pub args: Option<Vec<String>>,
    pub env: Option<Vec<(String, String)>>,
    pub url: Option<String>,
}

/// The configuration file: named servers in their recorded order, each name
/// held once.
#[derive(Debug, Clone)]
pub struct MCPConfig {
    pub mcp_servers: Vec<(String, MCPServerConfig)>,
}

/// A tool a server offers; its input schema is carried as an uninterpreted
/// JSON document and never validated here.
#[derive(Debug)]
pub struct MCPTool {
    pub name: String,
    pub description: Option<String>,
    pub input_schema: serde_json::Value,
}

/// One server as listed to the caller: its display name, original key,
/// configuration, connection status, and tools or error.
#[derive(Debug)]
pub struct MCPServerInfo {
    pub name: String,
    pub key: Option<String>,
    pub config: MCPServerConfig,
    pub status: String,
    pub tools: Option<Vec<MCPTool>>,
    pub error: Option<String>,
    pub is_default: Option<bool>,
}

/// The views of an optional string list.
pub open spec fn opt_strs_view(v: Option<Vec<String>>) -> Option<Seq<Seq<char>>> {
    match v {
        Some(x) => Some(x@.map_values(|s: String| s@)),
        None => None,
    }
}

/// The views of an optional list of string pairs.
pub open spec fn opt_pairs_view(v: Option<Vec<(String, String)>>) -> Option<
    Seq<(Seq<char>, Seq<char>)>,
> {
    match v {
        Some(x) => Some(x@.map_values(|p: (String, String)| (p.0@, p.1@))),
        None => None,
    }
}

/// The view of an optional string.
pub open spec fn opt_str_view(v: Option<String>) -> Option<Seq<char>> {
    match v {
        Some(x) => Some(x@),
        None => None,
    }
}

/// Whether the nested transport names this type.
pub open spec fn transport_is(c: MCPServerConfig, t: Seq<char>) -> bool {
    c.transport matches Some(tr) && (tr.transport_type matches Some(tt) && tt@ == t)
}

/// How a normalized configuration relates to what was read: the nested
/// stdio fields are copied onto the flat fields (an empty nested environment
/// is not), the nested HTTP URL onto the flat URL, every other field is
/// kept, and a missing display name falls back to the server's key.
pub open spec fn normalized_cfg(server_name: Seq<char>, o: MCPServerConfig, n: MCPServerConfig) -> bool {
    let stdio = transport_is(o, "stdio"@);
    let http = transport_is(o, "http"@);
    let t = o.transport.unwrap();
    &&& n.transport == o.transport
    &&& n.description == o.description
    &&& n.server_type == o.server_type
    &&& n.enabled == o.enabled
    &&& (o.name is Some ==> n.name == o.name)
    &&& (o.name is None ==> (n.name matches Some(nm) && nm@ == server_name))
    &&& n.command == (if stdio && t.command is Some {
        t.command
    } else {
        o.command
    })
    &&& opt_strs_view(n.args) == opt_strs_view(
        if stdio && t.args is Some {
            t.args
        } else {
            o.args
        },
    )
    &&& opt_pairs_view(n.env) == opt_pairs_view(
        if stdio && (t.env matches Some(e) && e.len() > 0) {
            t.env
        } else {
            o.env
        },
    )
    &&& n.url == (if http && t.url is Some {
        t.url
    } else {
        o.url
    })
}

/// Copies a vector of strings element for element.
pub fn clone_strings(v: &Vec<String>) -> (r: Vec<String>)
    ensures
        r@ == v@,
{
    let mut r: Vec<String> = Vec::new();
    let mut i: usize = 0;
    while i < v.len()
        invariant
            i <= v@.len(),
            r@ == v@.subrange(0, i as int),
        decreases v@.len() - i,
    {
        r.push(v[i].clone());
        proof {
            assert(r@ =~= v@.subrange(0, i + 1));
        }
        i = i + 1;
    }
    proof {
        assert(r@ =~= v@);
    }
    r
}

/// Copies a vector of string pairs element for element.
pub fn clone_pairs(v: &Vec<(String, String)>) -> (r: Vec<(String, String)>)
    ensures
        r@ == v@,
{
    let mut r: Vec<(String, String)> = Vec::new();
    let mut i: usize = 0;
    while i < v.len()
        invariant
            i <= v@.len(),
            r@ == v@.subrange(0, i as int),
        decreases v@.len() - i,
    {
        let (a, b) = &v[i];
        r.push((a.clone(), b.clone()));
        proof {
            assert(r@ =~= v@.subrange(0, i + 1));
        }
        i = i + 1;
    }
    proof {
        assert(r@ =~= v@);
    }
    r
}

/// Normalizes one server's configuration, as `normalized_cfg` describes.
pub fn normalize_server_config(server_name: &str, config: MCPServerConfig) -> (r: MCPServerConfig)
    ensures
        normalized_cfg(server_name@, config, r),
{
    proof {
        reveal_strlit("stdio");
        reveal_strlit("http");
        assert("stdio"@.len() == 5);
        assert("http"@.len() == 4);
        assert("stdio"@ != "http"@);
    }
    let mut c = config;
    match &c.transport {
        Some(t) => {
            match &t.transport_type {
                Some(tt) => {
                    if crate::model::str_eq(tt.as_str(), "stdio") {
                        if let Some(cmd) = &t.command {
                            c.command = Some(cmd.clone());
                        }
                        if let Some(args) = &t.args {
                            c.args = Some(clone_strings(args));
                        }
                        if let Some(env) = &t.env {
                            if env.len() > 0 {
                                c.env = Some(clone_pairs(env));
                            }
                        }
                    } else if crate::model::str_eq(tt.as_str(), "http") {
                        if let Some(url) = &t.url {
                            c.url = Some(url.clone());
                        }
                    }
                },
                None => {},
            }
        },
        None => {},
    }
    if c.name.is_none() {
        c.name = Some(String::from_str(server_name));
    }
    c
}

/// How a configuration dispatches, stripped to its ghost content.
pub enum DispatchModel {
    /// POST each envelope to this URL.
    Http { url: Seq<char> },
    /// Spawn this command and speak over its standard streams.
    Stdio {
        command: Seq<char>,
        args: Option<Seq<Seq<char>>>,
        env: Option<Seq<(Seq<char>, Seq<char>)>>,
        working_dir: Option<Seq<char>>,
    },
    /// Neither shape names a usable transport.
    Refused,
}

/// The dispatch a configuration resolves to. The nested transport is
/// consulted first — an HTTP one with a URL, then a stdio one with a
/// command; with neither usable, the legacy flat URL, then the legacy flat
/// command (which carries no working directory); else the call is refused.
pub open spec fn dispatch_spec(c: MCPServerConfig) -> DispatchModel {
    let t = c.transport.unwrap();
    if transport_is(c, "http"@) && t.url is Some {
        DispatchModel::Http { url: t.url.unwrap()@ }
    } else if transport_is(c, "stdio"@) && t.command is Some {
        DispatchModel::Stdio {
            command: t.command.unwrap()@,
            args: opt_strs_view(t.args),
            env: opt_pairs_view(t.env),
            working_dir: opt_str_view(t.working_dir),
        }
    } else if c.url is Some {
        DispatchModel::Http { url: c.url.unwrap()@ }
    } else if c.command is Some {
        DispatchModel::Stdio {
            command: c.command.unwrap()@,
            args: opt_strs_view(c.args),
            env: opt_pairs_view(c.env),
            working_dir: None,
        }
    } else {
        DispatchModel::Refused
    }
}

/// Resolves a configuration to its transport, as `dispatch_spec` describes;
/// a configuration naming no usable transport is refused with an error.
pub fn resolve_transport(c: &MCPServerConfig) -> (r: Result<MCPTransport, String>)
    ensures
        ({
            match dispatch_spec(*c) {
                DispatchModel::Http { url } => r matches Ok(MCPTransport::Http(h))
                    && h.transport_type@ == "http"@ && h.url@ == url,
                DispatchModel::Stdio { command, args, env, working_dir } => r matches Ok(
                    MCPTransport::Stdio(s),
                ) && s.transport_type@ == "stdio"@ && s.command@ == command && opt_strs_view(
                    s.args,
                ) == args && opt_pairs_view(s.env) == env && opt_str_view(s.working_dir)
                    == working_dir && s.retry_attempts is None && s.retry_delay is None,
                DispatchModel::Refused => r matches Err(e) && e@
                    == "the configuration names no usable transport: stdio needs a command and http needs a url"@,
            }
        }),
{
    proof {
        reveal_strlit("stdio");
        reveal_strlit("http");
        assert("stdio"@.len() == 5);
        assert("http"@.len() == 4);
        assert("stdio"@ != "http"@);
    }
    if let Some(t) = &c.transport {
        if let Some(tt) = &t.transport_type {
            if crate::model::str_eq(tt.as_str(), "http") {
                if let Some(url) = &t.url {
                    return Ok(
                        MCPTransport::Http(
                            MCPHTTPTransport {
                                transport_type: String::from_str("http"),
                                url: url.clone(),
                            },
                        ),
                    );
                }
            } else if crate::model::str_eq(tt.as_str(), "stdio") {
                if let Some(cmd) = &t.command {
                    let args = match &t.args {
                        Some(a) => Some(clone_strings(a)),
                        None => None,
                    };
                    let env = match &t.env {
                        Some(e) => Some(clone_pairs(e)),
                        None => None,
                    };
                    let working_dir = match &t.working_dir {
                        Some(w) => Some(w.clone()),
                        None => None,
                    };
                    return Ok(
                        MCPTransport::Stdio(
                            MCPStdioTransport {
                                transport_type: String::from_str("stdio"),
                                command: cmd.clone(),
                                args,
                                working_dir,
                                env,
                                retry_attempts: None,
                                retry_delay: None,
                            },
                        ),
                    );
                }
            }
        }
    }
    if let Some(url) = &c.url {
        return Ok(
            MCPTransport::Http(
                MCPHTTPTransport { transport_type: String::from_str("http"), url: url.clone() },
            ),
        );
    }
    if let Some(cmd) = &c.command {
        let args = match &c.args {
            Some(a) => Some(clone_strings(a)),
            None => None,
        };
        let env = match &c.env {
            Some(e) => Some(clone_pairs(e)),
            None => None,
        };
        return Ok(
            MCPTransport::Stdio(
                MCPStdioTransport {
                    transport_type: String::from_str("stdio"),
                    command: cmd.clone(),
                    args,
                    working_dir: None,
                    env,
                    retry_attempts: None,
                    retry_delay: None,
                },
            ),
        );
    }
    Err(
        String::from_str(
            "the configuration names no usable transport: stdio needs a command and http needs a url",
        ),
    )
}

/// A legacy flat configuration holding only a command and arguments.
pub open spec fn legacy_flat_cfg(cmd: String, args: Option<Vec<String>>) -> MCPServerConfig {
    MCPServerConfig {
        name: None,
        description: None,
        server_type: None,
        enabled: None,
        transport: None,
        command: Some(cmd),
        args,
        env: None,
        url: None,
    }
}

/// The equivalent configuration in the nested shape: the same command and
/// arguments under a `transport` member typed `stdio`.
pub open spec fn nested_stdio_cfg(ty: String, cmd: String, args: Option<Vec<String>>) -> MCPServerConfig {
    MCPServerConfig {
        name: None,
        description: None,
        server_type: None,
        enabled: None,
        transport: Some(
            TransportSpec {
                transport_type: Some(ty),
                command: Some(cmd),
                args,
                env: None,
                url: None,
                working_dir: None,
            },
        ),
        command: None,
        args: None,
        env: None,
        url: None,
    }
}

/// Position of the first entry under this key, or `-1` when none is.
pub open spec fn key_pos<T>(s: Seq<(String, T)>, k: Seq<char>) -> int
    decreases s.len(),
{
    if s.len() == 0 {
        -1
    } else if s[0].0@ == k {
        0
    } else {
        let p = key_pos(s.drop_first(), k);
        if p < 0 {
            -1
        } else {
            1 + p
        }
    }
}

/// `key_pos` stays in range, finds an entry under the key, and nothing
/// before it is under it; `-1` means no entry is.
pub proof fn lemma_key_pos_props<T>(s: Seq<(String, T)>, k: Seq<char>)
    ensures
        -1 <= key_pos(s, k) < s.len(),
        key_pos(s, k) >= 0 ==> s[key_pos(s, k)].0@ == k,
        key_pos(s, k) == -1 ==> forall|i: int| 0 <= i < s.len() ==> s[i].0@ != k,
        forall|i: int| 0 <= i < key_pos(s, k) ==> s[i].0@ != k,
    decreases s.len(),
{
    if s.len() > 0 && s[0].0@ != k {
        lemma_key_pos_props(s.drop_first(), k);
        assert(forall|i: int| 0 <= i < s.drop_first().len() ==> s.drop_first()[i] == s[i + 1]);
        if key_pos(s, k) >= 0 {
            assert(s[key_pos(s, k)] == s.drop_first()[key_pos(s.drop_first(), k)]);
        }
        if key_pos(s, k) == -1 {
            assert forall|i: int| 0 <= i < s.len() implies s[i].0@ != k by {
                if i > 0 {
                    assert(s[i] == s.drop_first()[i - 1]);
                }
            }
        }
        assert forall|i: int| 0 <= i < key_pos(s, k) implies s[i].0@ != k by {
            if i > 0 {
                assert(s[i] == s.drop_first()[i - 1]);
            }
        }
    }
}

/// The first position whose entry is under the key is `key_pos`.
pub proof fn lemma_key_pos_unique<T>(s: Seq<(String, T)>, k: Seq<char>, i: int)
    requires
        0 <= i < s.len(),
        s[i].0@ == k,
        forall|j: int| 0 <= j < i ==> s[j].0@ != k,
    ensures
        key_pos(s, k) == i,
    decreases s.len(),
{
    if s.len() > 0 && s[0].0@ != k {
        assert(i >= 1);
        assert(forall|j: int| 0 <= j < s.drop_first().len() ==> s.drop_first()[j] == s[j + 1]);
        lemma_key_pos_unique(s.drop_first(), k, i - 1);
    }
}

impl MCPConfig {
    /// A configuration naming no servers.
    pub fn empty() -> (r: MCPConfig)
        ensures
            r.mcp_servers@.len() == 0,
            crate::registry::distinct_keys(r.mcp_servers@),
    {
        MCPConfig { mcp_servers: Vec::new() }
    }

    /// Finds the position of a server's entry by its key.
    fn find(&self, name: &str) -> (r: Option<usize>)
        ensures
            match r {
                Some(i) => i == key_pos(self.mcp_servers@, name@),
                None => key_pos(self.mcp_servers@, name@) == -1,
            },
    {
        let n = self.mcp_servers.len();
        let mut i: usize = 0;
        while i < n
            invariant
                n == self.mcp_servers@.len(),
                i <= n,
                forall|j: int| 0 <= j < i ==> self.mcp_servers@[j].0@ != name@,
            decreases n - i,
        {
            if crate::model::str_eq(self.mcp_servers[i].0.as_str(), name) {
                proof {
                    lemma_key_pos_unique(self.mcp_servers@, name@, i as int);
                }
                return Some(i);
            }
            i = i + 1;
        }
        proof {
            lemma_key_pos_props(self.mcp_servers@, name@);
            if key_pos(self.mcp_servers@, name@) >= 0 {
                assert(self.mcp_servers@[key_pos(self.mcp_servers@, name@)].0@ == name@);
            }
        }
        None
    }

    /// The configuration of the server under this key, if one is recorded.
    pub fn get_server(&self, name: &str) -> (r: Option<&MCPServerConfig>)
        ensures
            match r {
                Some(c) => key_pos(self.mcp_servers@, name@) >= 0 && *c == self.mcp_servers@[key_pos(
                    self.mcp_servers@,
                    name@,
                )].1,
                None => key_pos(self.mcp_servers@, name@) == -1,
            },
    {
        match self.find(name) {
            Some(i) => {
                proof {
                    lemma_key_pos_props(self.mcp_servers@, name@);
                }
                Some(&self.mcp_servers[i].1)
            },
            None => None,
        }
    }

    /// Records a server: an entry already under this key is replaced in
    /// place, keeping the file's order; a new key is appended. A collection
    /// whose keys were pairwise distinct stays so.
    pub fn upsert_server(&mut self, name: String, config: MCPServerConfig)
        ensures
            ({
                let p = key_pos(old(self).mcp_servers@, name@);
                if p >= 0 {
                    final(self).mcp_servers@ == old(self).mcp_servers@.update(p, (name, config))
                } else {
                    final(self).mcp_servers@ == old(self).mcp_servers@.push((name, config))
                }
            }),
            crate::registry::distinct_keys(old(self).mcp_servers@)
                ==> crate::registry::distinct_keys(final(self).mcp_servers@),
    {
        match self.find(name.as_str()) {
            Some(i) => {
                proof {
                    lemma_key_pos_props(self.mcp_servers@, name@);
                }
                self.mcp_servers.remove(i);
                self.mcp_servers.insert(i, (name, config));
                proof {
                    let pre = old(self).mcp_servers@;
                    assert(self.mcp_servers@ =~= pre.update(
                        key_pos(pre, name@),
                        (self.mcp_servers@[i as int].0, self.mcp_servers@[i as int].1),
                    ));
                    if crate::registry::distinct_keys(pre) {
                        // the replaced entry keeps its key, so every key is as it was
                        assert forall|a: int, b: int|
                            0 <= a < b < self.mcp_servers@.len()
                            implies self.mcp_servers@[a].0@ != self.mcp_servers@[b].0@ by {
                            assert(self.mcp_servers@[a].0@ == pre[a].0@);
                            assert(self.mcp_servers@[b].0@ == pre[b].0@);
                        }
                    }
                }
            },
            None => {
                proof {
                    lemma_key_pos_props(self.mcp_servers@, name@);
                }
                self.mcp_servers.push((name, config));
                proof {
                    let pre = old(self).mcp_servers@;
                    if crate::registry::distinct_keys(pre) {
                        assert forall|a: int, b: int|
                            0 <= a < b < self.mcp_servers@.len()
                            implies self.mcp_servers@[a].0@ != self.mcp_servers@[b].0@ by {
                            assert(self.mcp_servers@[a] == pre[a]);
                            if b < self.mcp_servers@.len() - 1 {
                                assert(self.mcp_servers@[b] == pre[b]);
                            }
                        }
                    }
                }
            },
        }
    }

    /// Removes the server under this key, keeping the order of the rest;
    /// removing an unknown key changes nothing.
    pub fn remove_server(&mut self, name: &str)
        ensures
            ({
                let p = key_pos(old(self).mcp_servers@, name@);
                if p >= 0 {
                    final(self).mcp_servers@ == old(self).mcp_servers@.remove(p)
                } else {
                    final(self).mcp_servers@ == old(self).mcp_servers@
                }
            }),
    {
        match self.find(name) {
            Some(i) => {
                proof {
                    lemma_key_pos_props(self.mcp_servers@, name@);
                }
                self.mcp_servers.remove(i);
            },
            None => {},
        }
    }

    /// Flips one server's enabled flag, leaving every other field and every
    /// other server as recorded; an unknown key is refused unchanged.
    pub fn set_server_enabled(&mut self, name: &str, enabled: bool) -> (r: Result<(), String>)
        ensures
            ({
                let p = key_pos(old(self).mcp_servers@, name@);
                if p >= 0 {
                    let was = old(self).mcp_servers@[p];
                    &&& r is Ok
                    &&& final(self).mcp_servers@.len() == old(self).mcp_servers@.len()
                    &&& (forall|j: int|
                        0 <= j < old(self).mcp_servers@.len() && j != p
                            ==> final(self).mcp_servers@[j] == old(self).mcp_servers@[j])
                    &&& final(self).mcp_servers@[p].0 == was.0
                    &&& final(self).mcp_servers@[p].1 == (MCPServerConfig {
                        enabled: Some(enabled),
                        ..was.1
                    })
                } else {
                    &&& (r matches Err(e) && e@ == "no server is recorded under this name"@)
                    &&& final(self).mcp_servers@ == old(self).mcp_servers@
                }
            }),
    {
        match self.find(name) {
            Some(i) => {
                proof {
                    lemma_key_pos_props(self.mcp_servers@, name@);
                }
                let (key, mut cfg) = self.mcp_servers.remove(i);
                cfg.enabled = Some(enabled);
                self.mcp_servers.insert(i, (key, cfg));
                Ok(())
            },
            None => Err(String::from_str("no server is recorded under this name")),
        }
    }
}

/// Where the tool-server configuration file lives under the application
/// data directory.
pub fn get_mcp_config_path(app_data_dir: &str) -> (r: String)
    ensures
        r@ == strutil::join_path_spec(app_data_dir@, "mcp_configs.json"@),
{
    strutil::join_path(app_data_dir, "mcp_configs.json")
}

/// Reads the nested `transport` member's fields out of an untyped document;
/// each field that is absent or of the wrong shape is left unset, and only
/// string-valued arguments and environment entries are taken.
pub fn transport_spec_of_json(v: &serde_json::Value) -> TransportSpec {
    let transport_type = crate::sse::opt_string_field(v, "type");
    let command = crate::sse::opt_string_field(v, "command");
    let url = crate::sse::opt_string_field(v, "url");
    let working_dir = match crate::sse::opt_string_field(v, "workingDir") {
        Some(w) => Some(w),
        None => crate::sse::opt_string_field(v, "working_dir"),
    };
    let args = match jsonval::json_get(v, "args") {
        Some(a) => string_array_of_json(a),
        None => None,
    };
    let env = match jsonval::json_get(v, "env") {
        Some(e) => string_map_of_json(e),
        None => None,
    };
    TransportSpec { transport_type, command, args, env, url, working_dir }
}

/// The string elements of a JSON array; non-strings are dropped.
fn string_array_of_json(v: &serde_json::Value) -> Option<Vec<String>> {
    match jsonval::json_as_array(v) {
        Some(arr) => {
            let mut out: Vec<String> = Vec::new();
            let n = arr.len();
            let mut i: usize = 0;
            while i < n
                invariant
                    n == arr@.len(),
                    i <= n,
                decreases n - i,
            {
                if let Some(s) = jsonval::json_as_str(&arr[i]) {
                    out.push(String::from_str(s));
                }
                i = i + 1;
            }
            Some(out)
        },
        None => None,
    }
}

/// The string-valued members of a JSON object; other members are dropped.
fn string_map_of_json(v: &serde_json::Value) -> Option<Vec<(String, String)>> {
    match jsonval::json_object_entries(v) {
        Some(entries) => {
            let mut out: Vec<(String, String)> = Vec::new();
            let n = entries.len();
            let mut i: usize = 0;
            while i < n
                invariant
                    n == entries@.len(),
                    i <= n,
                decreases n - i,
            {
                let (k, x) = &entries[i];
                if let Some(s) = jsonval::json_as_str(x) {
                    out.push((k.clone(), String::from_str(s)));
                }
                i = i + 1;
            }
            Some(out)
        },
        None => None,
    }
}

/// Reads one server's configuration out of an untyped document; anything
/// that is not an object is refused.
pub fn server_config_of_json(v: &serde_json::Value) -> Option<MCPServerConfig> {
    match jsonval::json_object_entries(v) {
        Some(_) => {
            let transport = match jsonval::json_get(v, "transport") {
                Some(t) => Some(transport_spec_of_json(t)),
                None => None,
            };
            let enabled = match jsonval::json_get(v, "enabled") {
                Some(e) => jsonval::json_as_bool(e),
                None => None,
            };
            let args = match jsonval::json_get(v, "args") {
                Some(a) => string_array_of_json(a),
                None => None,
            };
            let env = match jsonval::json_get(v, "env") {
                Some(e) => string_map_of_json(e),
                None => None,
            };
            Some(
                MCPServerConfig {
                    name: crate::sse::opt_string_field(v, "name"),
                    description: crate::sse::opt_string_field(v, "description"),
                    server_type: crate::sse::opt_string_field(v, "type"),
                    enabled,
                    transport,
                    command: crate::sse::opt_string_field(v, "command"),
                    args,
                    env,
                    url: crate::sse::opt_string_field(v, "url"),
                },
            )
        },
        None => None,
    }
}

/// Parses the configuration file, accepting both layouts: the legacy
/// `{"mcpServers": {...}}` wrapper, and the newer layout with each server at
/// the top level (recognized by a `transport` or `name` member). Every
/// server read is normalized, so the rest of the system sees one shape. It
/// succeeds exactly when the text parses as JSON — never with a partial
/// configuration — rejecting anything else with the parser's diagnostic,
/// and the configuration it reads holds each server name once.
pub fn parse_mcp_config(content: &str) -> (r: Result<MCPConfig, String>)
    ensures
        r is Ok <==> jsonval::json_parses(content@),
        r matches Err(e) ==> strutil::is_prefix(
            e@,
            "cannot parse the tool-server configuration: "@,
        ),
        r matches Ok(cfg) ==> crate::registry::distinct_keys(cfg.mcp_servers@),
{
    let doc = match jsonval::json_parse(content) {
        Ok(d) => d,
        Err(e) => {
            let mut msg = String::from_str("cannot parse the tool-server configuration: ");
            msg.append(e.as_str());
            proof {
                assert(msg@.subrange(
                    0,
                    "cannot parse the tool-server configuration: "@.len() as int,
                ) =~= "cannot parse the tool-server configuration: "@);
            }
            return Err(msg);
        },
    };
    let mut config = MCPConfig::empty();
    if let Some(ms) = jsonval::json_get(&doc, "mcpServers") {
        if let Some(entries) = jsonval::json_object_entries(ms) {
            let n = entries.len();
            let mut i: usize = 0;
            while i < n
                invariant
                    n == entries@.len(),
                    i <= n,
                    crate::registry::distinct_keys(config.mcp_servers@),
                decreases n - i,
            {
                let (name, value) = &entries[i];
                if let Some(cfg) = server_config_of_json(value) {
                    let cfg = normalize_server_config(name.as_str(), cfg);
                    config.upsert_server(name.clone(), cfg);
                }
                i = i + 1;
            }
            return Ok(config);
        }
    }
    if let Some(entries) = jsonval::json_object_entries(&doc) {
        let n = entries.len();
        let mut i: usize = 0;
        while i < n
            invariant
                n == entries@.len(),
                i <= n,
                crate::registry::distinct_keys(config.mcp_servers@),
            decreases n - i,
        {
            let (name, value) = &entries[i];
            if !crate::model::str_eq(name.as_str(), "mcpServers") {
                if let Some(cfg) = server_config_of_json(value) {
                    if cfg.transport.is_some() || cfg.name.is_some() {
                        let cfg = normalize_server_config(name.as_str(), cfg);
                        config.upsert_server(name.clone(), cfg);
                    }
                }
            }
            i = i + 1;
        }
    }
    Ok(config)
}

/// Reads a `tools/list` result's tools out of an untyped document: each
/// entry of `result.tools` that carries a string `name` and an `inputSchema`
/// becomes a tool; malformed entries are dropped, and a response without the
/// array yields no tools.
pub fn tools_of_response(v: &serde_json::Value) -> Vec<MCPTool> {
    let mut out: Vec<MCPTool> = Vec::new();
    if let Some(result) = jsonval::json_get(v, "result") {
        if let Some(tools) = jsonval::json_get(result, "tools") {
            if let Some(arr) = jsonval::json_as_array(tools) {
                let n = arr.len();
                let mut i: usize = 0;
                while i < n
                    invariant
                        n == arr@.len(),
                        i <= n,
                    decreases n - i,
                {
                    let entry = &arr[i];
                    if let Some(name_v) = jsonval::json_get(entry, "name") {
                        if let Some(name) = jsonval::json_as_str(name_v) {
                            if let Some(schema) = jsonval::json_get(entry, "inputSchema") {
                                out.push(
                                    MCPTool {
                                        name: String::from_str(name),
                                        description: crate::sse::opt_string_field(
                                            entry,
                                            "description",
                                        ),
                                        input_schema: jsonval::json_clone(schema),
                                    },
                                );
                            }
                        }
                    }
                    i = i + 1;
                }
            }
        }
    }
    out
}

/// One server's listing entry from its configuration and the outcome of
/// probing it: the display name prefers the configured name over the key; a
/// successful probe lists the tools as connected, a failed one carries the
/// error.
pub fn server_info_for(key: &str, config: MCPServerConfig, outcome: Result<Vec<MCPTool>, String>) -> (r: MCPServerInfo)
    ensures
        (config.name matches Some(nm) ==> r.name == nm),
        (config.name is None ==> r.name@ == key@),
        r.key matches Some(k) && k@ == key@,
        r.config == config,
        r.is_default == Some(false),
        match outcome {
            Ok(tools) => r.status@ == "connected"@ && r.tools == Some(tools) && r.error is None,
            Err(e) => r.status@ == "error"@ && r.tools is None && r.error == Some(e),
        },
{
    let name = match &config.name {
        Some(nm) => nm.clone(),
        None => String::from_str(key),
    };
    match outcome {
        Ok(tools) => MCPServerInfo {
            name,
            key: Some(String::from_str(key)),
            config,
            status: String::from_str("connected"),
            tools: Some(tools),
            error: None,
            is_default: Some(false),
        },
        Err(e) => MCPServerInfo {
            name,
            key: Some(String::from_str(key)),
            config,
            status: String::from_str("error"),
            tools: None,
            error: Some(e),
            is_default: Some(false),
        },
    }
}

/// The reserved key of the built-in tool service.
pub fn default_server_name() -> (r: String)
    ensures
        r@ == "__system_default__"@,
{
    String::from_str("__system_default__")
}

/// The built-in service's configuration: enabled, with no transport — its
/// tools are answered in-process, never over a wire.
pub fn get_default_server_config() -> (r: MCPServerConfig)
    ensures
        r.name matches Some(n) && n@ == "System default tools"@,
        r.description matches Some(d) && d@ == "Built-in default tools answered in-process"@,
        r.server_type matches Some(t) && t@ == "builtin"@,
        r.enabled == Some(true),
        r.transport is None,
        r.command is None,
        r.args is None,
        r.env is None,
        r.url is None,
{
    MCPServerConfig {
        name: Some(String::from_str("System default tools")),
        description: Some(String::from_str("Built-in default tools answered in-process")),
        server_type: Some(String::from_str("builtin")),
        enabled: Some(true),
        transport: None,
        command: None,
        args: None,
        env: None,
        url: None,
    }
}

/// One built-in tool from its name, description and schema text; a schema
/// that does not parse falls back to the null document.
fn default_tool(name: &str, description: &str, schema: &str) -> (r: MCPTool)
    ensures
        r.name@ == name@,
        r.description matches Some(d) && d@ == description@,
{
    let input_schema = match jsonval::json_parse(schema) {
        Ok(v) => v,
        Err(_) => jsonval::json_null(),
    };
    MCPTool { name: String::from_str(name), description: Some(String::from_str(description)), input_schema }
}

/// The built-in tools: system information, resource and task lookup, and
/// resource search.
pub fn get_default_tools() -> (r: Vec<MCPTool>)
    ensures
        r@.len() == 4,
        r@[0].name@ == "get_system_info"@,
        r@[1].name@ == "get_resource_info"@,
        r@[2].name@ == "get_task_info"@,
        r@[3].name@ == "search_resources"@,
{
    let mut v: Vec<MCPTool> = Vec::new();
    v.push(
        default_tool(
            "get_system_info",
            "Reports the operating system, architecture and, on request, environment details",
            "{\"type\":\"object\",\"properties\":{\"include_details\":{\"type\":\"boolean\",\"description\":\"include directory and environment details\",\"default\":false}},\"required\":[]}",
        ),
    );
    v.push(
        default_tool(
            "get_resource_info",
            "Reads one transcription resource; without a resource_id the current context's resource is used",
            "{\"type\":\"object\",\"properties\":{\"resource_id\":{\"type\":\"string\",\"description\":\"resource id (optional; defaults to the current context)\"}},\"required\":[]}",
        ),
    );
    v.push(
        default_tool(
            "get_task_info",
            "Reads one transcription task; without a task_id the current context's task is used",
            "{\"type\":\"object\",\"properties\":{\"task_id\":{\"type\":\"string\",\"description\":\"task id (optional; defaults to the current context)\"}},\"required\":[]}",
        ),
    );
    v.push(
        default_tool(
            "search_resources",
            "Searches transcription resources by keyword over names and paths; without a keyword every resource is returned",
            "{\"type\":\"object\",\"properties\":{\"keyword\":{\"type\":\"string\",\"description\":\"search keyword (optional; empty lists everything)\"}},\"required\":[]}",
        ),
    );
    v
}

/// The built-in service as listed: always first, always connected, and
/// marked as the default so it can be neither disabled nor deleted.
pub fn get_default_server_info() -> (r: MCPServerInfo)
    ensures
        r.name@ == "System default tools"@,
        r.key matches Some(k) && k@ == "__system_default__"@,
        r.status@ == "connected"@,
        r.tools matches Some(ts) && ts@.len() == 4,
        r.error is None,
        r.is_default == Some(true),
{
    MCPServerInfo {
        name: String::from_str("System default tools"),
        key: Some(default_server_name()),
        config: get_default_server_config(),
        status: String::from_str("connected"),
        tools: Some(get_default_tools()),
        error: None,
        is_default: Some(true),
    }
}

/// Whether a tool name belongs to the built-in service.
pub fn is_default_tool(tool_name: &str) -> (r: bool)
    ensures
        r == (tool_name@ == "get_system_info"@ || tool_name@ == "get_resource_info"@ || tool_name@
            == "get_task_info"@ || tool_name@ == "search_resources"@),
{
    crate::model::str_eq(tool_name, "get_system_info") || crate::model::str_eq(
        tool_name,
        "get_resource_info",
    ) || crate::model::str_eq(tool_name, "get_task_info") || crate::model::str_eq(
        tool_name,
        "search_resources",
    )
}

/// A configuration as listed to callers: one whose enabled flag is unset
/// counts as enabled.
pub fn with_enabled_defaulted(config: MCPServerConfig) -> (r: MCPServerConfig)
    ensures
        r.enabled == (if config.enabled is Some {
            config.enabled
        } else {
            Some(true)
        }),
        r == (MCPServerConfig { enabled: r.enabled, ..config }),
{
    let mut c = config;
    if c.enabled.is_none() {
        c.enabled = Some(true);
    }
    c
}

/// Whether a listed server answers to this name: by its original key first,
/// else by its display name.
pub open spec fn info_matches(s: MCPServerInfo, name: Seq<char>) -> bool {
    (s.key matches Some(k) && k@ == name) || s.name@ == name
}

/// Finds the first listed server answering to a name, by key or display
/// name; `None` when none does.
pub fn find_server_index(servers: &Vec<MCPServerInfo>, server_name: &str) -> (r: Option<usize>)
    ensures
        match r {
            Some(i) => i < servers@.len() && info_matches(servers@[i as int], server_name@) && (
            forall|j: int| 0 <= j < i ==> !info_matches(servers@[j], server_name@)),
            None => forall|j: int| 0 <= j < servers@.len() ==> !info_matches(servers@[j], server_name@),
        },
{
    let n = servers.len();
    let mut i: usize = 0;
    while i < n
        invariant
            n == servers@.len(),
            i <= n,
            forall|j: int| 0 <= j < i ==> !info_matches(servers@[j], server_name@),
        decreases n - i,
    {
        let s = &servers[i];
        let by_key = match &s.key {
            Some(k) => crate::model::str_eq(k.as_str(), server_name),
            None => false,
        };
        if by_key || crate::model::str_eq(s.name.as_str(), server_name) {
            return Some(i);
        }
        i = i + 1;
    }
    None
}

/// The built-in tools, as dispatch targets.
#[derive(Debug, Clone, Copy, PartialEq, Eq, Structural)]
pub enum DefaultTool {
    SystemInfo,
    ResourceInfo,
    TaskInfo,
    SearchResources,
}

/// Dispatches a built-in tool by name; an unknown name is no built-in tool.
pub fn default_tool_of(tool_name: &str) -> (r: Option<DefaultTool>)
    ensures
        r == (if tool_name@ == "get_system_info"@ {
            Some(DefaultTool::SystemInfo)
        } else if tool_name@ == "get_resource_info"@ {
            Some(DefaultTool::ResourceInfo)
        } else if tool_name@ == "get_task_info"@ {
            Some(DefaultTool::TaskInfo)
        } else if tool_name@ == "search_resources"@ {
            Some(DefaultTool::SearchResources)
        } else {
            None
        }),
{
    if crate::model::str_eq(tool_name, "get_system_info") {
        Some(DefaultTool::SystemInfo)
    } else if crate::model::str_eq(tool_name, "get_resource_info") {
        Some(DefaultTool::ResourceInfo)
    } else if crate::model::str_eq(tool_name, "get_task_info") {
        Some(DefaultTool::TaskInfo)
    } else if crate::model::str_eq(tool_name, "search_resources") {
        Some(DefaultTool::SearchResources)
    } else {
        None
    }
}

/// How a resource search runs: a missing or blank keyword lists every
/// resource; anything else searches for it.
#[derive(Debug)]
pub enum SearchMode {
    All,
    Search(String),
}

/// Decides a search request: listing everything for a missing or
/// whitespace-only keyword, searching otherwise.
pub fn search_mode(keyword: Option<String>) -> (r: SearchMode)
    ensures
        match keyword {
            None => r is All,
            Some(kw) => if strutil::trim_spec(kw@).len() == 0 {
                r is All
            } else {
                r matches SearchMode::Search(k) && k == kw
            },
        },
{
    match keyword {
        None => SearchMode::All,
        Some(kw) => {
            let chars = strutil::chars_of(kw.as_str());
            let t = strutil::trim_vec(&chars);
            if t.len() == 0 {
                SearchMode::All
            } else {
                SearchMode::Search(kw)
            }
        },
    }
}

/// An OpenAI-style tool definition, as sent with a chat request.
#[derive(Debug)]
pub struct ToolDefinition {
    pub tool_type: String,
    pub function: FunctionDefinition,
}

/// The function member of a tool definition; its parameter schema is the
/// tool's input schema, carried through untouched.
#[derive(Debug)]
pub struct FunctionDefinition {
    pub name: String,
    pub description: Option<String>,
    pub parameters: serde_json::Value,
}

/// Converts one protocol tool to the OpenAI tool shape: a `function` tool
/// keeping the name and description, with the input schema passed through
/// untouched as the parameters.
pub fn mcp_tool_to_openai_tool(mcp_tool: &MCPTool) -> (r: ToolDefinition)
    ensures
        r.tool_type@ == "function"@,
        r.function.name == mcp_tool.name,
        r.function.description == mcp_tool.description,
        r.function.parameters == mcp_tool.input_schema,
{
    let description = match &mcp_tool.description {
        Some(d) => Some(d.clone()),
        None => None,
    };
    ToolDefinition {
        tool_type: String::from_str("function"),
        function: FunctionDefinition {
            name: mcp_tool.name.clone(),
            description,
            parameters: jsonval::json_clone(&mcp_tool.input_schema),
        },
    }
}

/// A legacy flat `{command, args}` configuration and the equivalent nested
/// `{transport: {type: stdio, command, args}}` configuration resolve to the
/// same dispatch: tool calls behave identically under either shape.
pub proof fn lemma_flat_and_nested_dispatch_agree(ty: String, cmd: String, args: Option<Vec<String>>)
    requires
        ty@ == "stdio"@,
    ensures
        dispatch_spec(legacy_flat_cfg(cmd, args)) == dispatch_spec(nested_stdio_cfg(ty, cmd, args)),
{
    reveal_strlit("stdio");
    reveal_strlit("http");
    assert("stdio"@.len() == 5);
    assert("http"@.len() == 4);
    assert("stdio"@ != "http"@);
    assert(!transport_is(legacy_flat_cfg(cmd, args), "http"@));
    assert(!transport_is(nested_stdio_cfg(ty, cmd, args), "http"@));
    assert(transport_is(nested_stdio_cfg(ty, cmd, args), "stdio"@));
}

} // verus!
