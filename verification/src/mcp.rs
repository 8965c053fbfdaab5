//! Tools of external MCP servers: how they are named in an agent's tool list
//! (`mcp__<server>__<tool>`), and which server a call goes to.
use vstd::prelude::*;
use crate::httputil::{find_from, lemma_find_from, find_pattern, occurs_at};
use crate::strmap::StrMap;
use crate::text::{chars_of, owned, string_from_chars, str_eq};
use crate::channels::{slice, starts, starts_with};

verus! {

/// `serde_json::Value`, carried through as it is: nothing is read of it.
#[verifier::external_type_specification]
#[verifier::external_body]
pub struct ExJsonValue(serde_json::Value);

/// How to start an external MCP server.
#[derive(Debug)]
pub struct McpServerConfig {
    pub name: String,
    pub command: String,
    pub args: Vec<String>,
    pub env: StrMap<String>,
    pub enabled: Option<bool>,
}

/// A tool discovered on an MCP server.
pub struct McpTool {
    pub server_name: String,
    pub tool_name: String,
    pub description: String,
    pub input_schema: serde_json::Value,
}

/// The name an agent calls a server's tool by.
pub open spec fn qualified(server: Seq<char>, tool: Seq<char>) -> Seq<char> {
    "mcp__"@ + server + "_"@ + tool
}

impl McpTool {
    /// The name in the agent's tool list; see `qualified`.
    pub fn qualified_name(&self) -> (s: String)
        ensures
            s@ == qualified(self.server_name@, self.tool_name@),
    {
        let mut s = owned("mcp__");
        s.append(self.server_name.as_str());
        s.append("_");
        s.append(self.tool_name.as_str());
        proof {
            reveal_strlit("mcp__");
            reveal_strlit("_");
        }
        s
    }
}

/// A name of the MCP tool namespace.
pub open spec fn is_mcp_name(name: Seq<char>) -> bool {
    starts(name, "mcp__"@)
}

/// The server and tool a qualified name `mcp__<server>__<tool>` names: the
/// name cut at its first two `__`, the first part being `mcp`.
pub open spec fn split_name(name: Seq<char>) -> Option<(Seq<char>, Seq<char>)> {
    match find_from(name, "__"@, 0) {
        None => None,
        Some(i) => match find_from(name, "__"@, i + 2) {
            None => None,
            Some(j) => if name.take(i) == "mcp"@ {
                Some((name.subrange(i + 2, j), name.skip(j + 2)))
            } else {
                None
            },
        },
    }
}

pub open spec fn invalid_name_text(name: Seq<char>) -> Seq<char> {
    "invalid MCP tool name: "@ + name + " (expected mcp__<server>__<tool>)"@
}

pub open spec fn not_connected_text(server: Seq<char>) -> Seq<char> {
    "MCP server '"@ + server + "' not connected"@
}

/// Splits a qualified tool name into server and tool; see `split_name`.
pub fn split_tool_name(name: &str) -> (r: Result<(String, String), String>)
    ensures
        r matches Ok((server, tool)) ==> split_name(name@) == Some((server@, tool@)),
        r matches Err(e) ==> split_name(name@) is None && e@ == invalid_name_text(name@),
{
    let cs = chars_of(name);
    let n = cs.len();
    let sep = chars_of("__");
    proof {
        reveal_strlit("__");
        reveal_strlit("mcp");
    }
    let bad = {
        let mut m = owned("invalid MCP tool name: ");
        m.append(name);
        m.append(" (expected mcp__<server>__<tool>)");
        proof {
            reveal_strlit("invalid MCP tool name: ");
            reveal_strlit(" (expected mcp__<server>__<tool>)");
        }
        m
    };
    let i = match find_pattern(&cs, &sep, 0) {
        None => {
            return Err(bad);
        },
        Some(i) => i,
    };
    proof {
        lemma_find_from(cs@, sep@, 0);
        assert(find_from(cs@, sep@, 0) == Some(i as int));
        assert(sep@.len() == 2);
        assert(i + 2 <= cs@.len());
    }
    let start: usize = i + 2;
    let j = match find_pattern(&cs, &sep, start) {
        None => {
            return Err(bad);
        },
        Some(j) => j,
    };
    proof {
        lemma_find_from(cs@, sep@, i + 2);
        assert(find_from(cs@, sep@, i + 2) == Some(j as int));
        assert(j + 2 <= n);
    }
    let head = slice(&cs, 0, i);
    let mcp = chars_of("mcp");
    let mut same = head.len() == mcp.len();
    if same {
        let mut k: usize = 0;
        while k < head.len()
            invariant
                head@.len() == mcp@.len(),
                k <= head@.len(),
                same == forall|q: int| 0 <= q < k ==> head@[q] == mcp@[q],
            decreases head@.len() - k,
        {
            if head[k] != mcp[k] {
                same = false;
            }
            k = k + 1;
        }
        proof {
            if same {
                assert(head@ =~= mcp@);
            }
        }
    }
    proof {
        assert(head@ == cs@.take(i as int));
        if head@ == mcp@ {
            assert(same) by {
                if !same {
                    assert(forall|q: int| 0 <= q < head@.len() ==> head@[q] == mcp@[q]);
                }
            }
        }
    }
    if !same {
        return Err(bad);
    }
    let server = slice(&cs, i + 2, j);
    let tool = slice(&cs, j + 2, cs.len());
    proof {
        assert(tool@ =~= cs@.skip(j + 2));
    }
    Ok((string_from_chars(server), string_from_chars(tool)))
}

/// True for a name in the MCP tool namespace (`mcp__` prefix).
pub fn is_mcp_tool(name: &str) -> (b: bool)
    ensures
        b == is_mcp_name(name@),
{
    let cs = chars_of(name);
    let b = starts_with(&cs, "mcp__");
    b
}

/// The tools discovered on each connected MCP server, by server name.
pub struct McpClientManager {
    servers: StrMap<Vec<McpTool>>,
}

impl McpClientManager {
    pub closed spec fn connected(&self, server: Seq<char>) -> bool {
        self.servers.has(server)
    }

    pub closed spec fn wf(&self) -> bool {
        self.servers.wf()
    }

    pub fn new() -> (m: Self)
        ensures
            m.wf(),
            forall|s: Seq<char>| !#[trigger] m.connected(s),
    {
        McpClientManager { servers: StrMap::new() }
    }

    /// Records a server as connected, with the tools it offers.
    pub fn add_server(&mut self, name: String, tools: Vec<McpTool>)
        requires
            old(self).wf(),
        ensures
            final(self).wf(),
            forall|s: Seq<char>| #[trigger] final(self).connected(s) == (s == name@ || old(self).connected(s)),
    {
        let ghost k = name@;
        self.servers.insert(name, tools);
        proof {
            assert forall|s: Seq<char>| #[trigger] self.connected(s) == (s == k || old(self).connected(s)) by {
                assert(self.servers.lookup(s) is Some == self.servers.has(s));
                assert(old(self).servers.lookup(s) is Some == old(self).servers.has(s));
            }
        }
    }

    /// Every discovered tool, server by server in name order.
    pub fn all_tools(&self) -> (r: Vec<&McpTool>)
        requires
            self.wf(),
        ensures
            r@.map_values(|t: &McpTool| *t) == self.tools(),
    {
        let mut r: Vec<&McpTool> = Vec::new();
        let mut i: usize = 0;
        let n = self.servers.len();
        while i < n
            invariant
                self.wf(),
                n == self.servers.key_seq().len(),
                i <= n,
                r@.map_values(|t: &McpTool| *t) == flat_tools(self.servers.val_seq().take(i as int)),
            decreases n - i,
        {
            let tools = self.servers.value_at(i);
            let mut j: usize = 0;
            let ghost base = r@.map_values(|t: &McpTool| *t);
            while j < tools.len()
                invariant
                    j <= tools@.len(),
                    r@.map_values(|t: &McpTool| *t) == base + tools@.take(j as int),
                decreases tools@.len() - j,
            {
                let ghost prev = r@;
                let t = &tools[j];
                r.push(t);
                proof {
                    assert(r@.map_values(|t: &McpTool| *t) =~= prev.map_values(|t: &McpTool| *t).push(
                        *t,
                    ));
                    assert(tools@.take(j + 1) =~= tools@.take(j as int).push(tools@[j as int]));
                    assert(r@.map_values(|t: &McpTool| *t) =~= base + tools@.take(j + 1));
                }
                j = j + 1;
            }
            proof {
                assert(tools@.take(tools@.len() as int) =~= tools@);
                assert(self.servers.val_seq().take(i + 1).drop_last() =~= self.servers.val_seq().take(
                    i as int,
                ));
            }
            i = i + 1;
        }
        proof {
            assert(self.servers.val_seq().take(n as int) =~= self.servers.val_seq());
        }
        r
    }

    /// The discovered tools, server by server in name order.
    pub closed spec fn tools(&self) -> Seq<McpTool> {
        flat_tools(self.servers.val_seq())
    }

    /// The server and tool a call by qualified name goes to: refused when
    /// the name is not `mcp__<server>__<tool>` or the server is not
    /// connected.
    pub fn route(&self, qualified_name: &str) -> (r: Result<(String, String), String>)
        requires
            self.wf(),
        ensures
            split_name(qualified_name@) is None ==> (r matches Err(e) && e@ == invalid_name_text(
                qualified_name@,
            )),
            split_name(qualified_name@) matches Some((s, t)) ==> if self.connected(s) {
                (r matches Ok((rs, rt)) && rs@ == s && rt@ == t)
            } else {
                (r matches Err(e) && e@ == not_connected_text(s))
            },
    {
        match split_tool_name(qualified_name) {
            Err(e) => Err(e),
            Ok((server, tool)) => {
                if self.servers.contains(server.as_str()) {
                    Ok((server, tool))
                } else {
                    let mut m = owned("MCP server '");
                    m.append(server.as_str());
                    m.append("' not connected");
                    proof {
                        reveal_strlit("MCP server '");
                        reveal_strlit("' not connected");
                    }
                    Err(m)
                }
            },
        }
    }

    /// True for a name in the MCP tool namespace.
    pub fn is_mcp_tool(&self, name: &str) -> (b: bool)
        ensures
            b == is_mcp_name(name@),
    {
        is_mcp_tool(name)
    }
}

/// The tool lists one after the other.
pub open spec fn flat_tools(s: Seq<Vec<McpTool>>) -> Seq<McpTool>
    decreases s.len(),
{
    if s.len() == 0 {
        Seq::empty()
    } else {
        flat_tools(s.drop_last()) + s.last()@
    }
}

/// The requests the daemon's own MCP server answers.
#[derive(Debug, Clone, Copy, PartialEq, Eq, Structural)]
pub enum McpMethod {
    Initialize,
    Initialized,
    ToolsList,
    ToolsCall,
    Unknown,
}

pub open spec fn method_of(name: Seq<char>) -> McpMethod {
    if name == "initialize"@ {
        McpMethod::Initialize
    } else if name == "notifications/initialized"@ {
        McpMethod::Initialized
    } else if name == "tools/list"@ {
        McpMethod::ToolsList
    } else if name == "tools/call"@ {
        McpMethod::ToolsCall
    } else {
        McpMethod::Unknown
    }
}

/// Which request a JSON-RPC method name is; see `method_of`.
pub fn classify_method(name: &str) -> (m: McpMethod)
    ensures
        m == method_of(name@),
{
    if str_eq(name, "initialize") {
        McpMethod::Initialize
    } else if str_eq(name, "notifications/initialized") {
        McpMethod::Initialized
    } else if str_eq(name, "tools/list") {
        McpMethod::ToolsList
    } else if str_eq(name, "tools/call") {
        McpMethod::ToolsCall
    } else {
        McpMethod::Unknown
    }
}

/// The JSON-RPC error code and message for a method the server lacks.
pub fn method_not_found(name: &str) -> (r: (i32, String))
    ensures
        r.0 == -32601,
        r.1@ == "method not found: "@ + name@,
{
    let mut m = owned("method not found: ");
    m.append(name);
    proof {
        reveal_strlit("method not found: ");
    }
    (-32601, m)
}

} // verus!
