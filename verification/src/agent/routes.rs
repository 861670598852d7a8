//! Where a tool's name leads, and whether the agent may call it. The answer is the same for every
//! reader, so a name is never shown as one thing and run as another.
use vstd::prelude::*;

use crate::agent::run;
use crate::agent::run::among;
use crate::agent::streaming;
use crate::agent::streaming::canonical_tool_name;
use crate::text::{joined, same_text};
use crate::text_map::TextMap;

verus! {

/// Who may call a tool, a bit for each kind of caller.
#[derive(Debug, Clone, Copy, PartialEq, Eq, Structural)]
pub struct ToolAudience {
    pub bits: u32,
}

impl ToolAudience {
    /// Every caller of the other is one of these.
    pub open spec fn includes(self, other: ToolAudience) -> bool {
        self.bits & other.bits == other.bits
    }

    /// Whether every caller of the other is one of these.
    pub fn contains(self, other: ToolAudience) -> (result: bool)
        ensures
            result == self.includes(other),
    {
        self.bits & other.bits == other.bits
    }

    /// Every kind of caller.
    pub fn all() -> (result: Self)
        ensures
            result.bits == u32::MAX,
    {
        ToolAudience { bits: u32::MAX }
    }
}

/// A tool that the client brings along. `handler` names what runs it.
#[derive(Debug, Clone, Copy, PartialEq, Eq, Structural)]
pub struct LocalTool {
    pub handler: u64,
    pub audience: ToolAudience,
}

/// A registered tool. `tool` names what runs it; `permission` is what it declares to need.
#[derive(Debug, Clone, Copy, PartialEq, Eq, Structural)]
pub struct NativeTool {
    pub tool: u64,
    pub audience: ToolAudience,
    pub permission: Option<u32>,
}

/// A client's tool under its name.
#[derive(Debug)]
pub struct LocalEntry {
    pub name: String,
    pub tool: LocalTool,
}

/// A registered tool under its name, with the schema of its input and where it comes from.
#[derive(Debug)]
pub struct NativeEntry {
    pub name: String,
    pub tool: NativeTool,
    pub schema: String,
    pub source: String,
}

/// A name of an outside server's tool, and the tool's own name.
#[derive(Debug)]
pub struct McpName {
    pub name: String,
    pub qualified: String,
}

/// What outside servers offer: their tools by name, and the bindings that still hold.
#[derive(Debug)]
pub struct McpCatalog {
    pub names: Vec<McpName>,
    pub current: Vec<u64>,
}

/// What a name stood for when the turn began.
#[derive(Debug, PartialEq, Eq)]
pub enum TurnToolRoute {
    Local { handler: u64, audience: ToolAudience },
    Native { tool: u64 },
    Mcp { qualified: String, binding: u64 },
    ToolSearch,
}

/// What the mode of a turn says of tools: which there are, where it says so.
#[derive(Debug)]
pub struct ModeTools {
    pub tools: Option<Vec<String>>,
}

/// What a call can reach. `bindings` is what names stood for when the turn began and `routes` what
/// those bindings still lead to; `restricted` is whether the mode forbids to write; `excluded` are
/// the registered tools that the agent was not offered.
pub struct ToolWorld {
    pub local: Vec<LocalEntry>,
    pub registry: Vec<NativeEntry>,
    pub mcp: Option<McpCatalog>,
    pub bindings: TextMap<TurnToolRoute>,
    pub routes: TextMap<TurnToolRoute>,
    pub mode_def: Option<ModeTools>,
    pub restricted: bool,
    pub audience: ToolAudience,
    pub excluded: Vec<String>,
}

/// The first client's tool of a name, from a position on.
pub open spec fn local_from(entries: Seq<LocalEntry>, name: Seq<char>, from: int) -> Option<
    LocalTool,
>
    decreases entries.len() - from,
{
    if from < 0 || from >= entries.len() {
        None
    } else if entries[from].name@ == name {
        Some(entries[from].tool)
    } else {
        local_from(entries, name, from + 1)
    }
}

/// The first registered tool of a name, from a position on.
pub open spec fn native_from(entries: Seq<NativeEntry>, name: Seq<char>, from: int) -> Option<
    NativeTool,
>
    decreases entries.len() - from,
{
    if from < 0 || from >= entries.len() {
        None
    } else if entries[from].name@ == name {
        Some(entries[from].tool)
    } else {
        native_from(entries, name, from + 1)
    }
}

/// The first outside tool of a name, from a position on.
pub open spec fn qualified_from(names: Seq<McpName>, name: Seq<char>, from: int) -> Option<String>
    decreases names.len() - from,
{
    if from < 0 || from >= names.len() {
        None
    } else if names[from].name@ == name {
        Some(names[from].qualified)
    } else {
        qualified_from(names, name, from + 1)
    }
}

/// Where a name leads.
#[derive(Debug, PartialEq, Eq)]
pub enum Route {
    Local(LocalTool),
    Native(NativeTool),
    ToolSearch,
    Mcp(String),
    Unknown,
}

/// The name under which outside tools are searched.
pub open spec fn search_name() -> Seq<char> {
    "tool_search"@
}

/// Where a canonical name leads: to the client's tools first, then to the registered ones, then to
/// the outside servers and the search among their tools.
pub open spec fn route_of(world: ToolWorld, name: Seq<char>) -> Route {
    match local_from(world.local@, name, 0) {
        Some(tool) => Route::Local(tool),
        None => match native_from(world.registry@, name, 0) {
            Some(tool) => Route::Native(tool),
            None => match world.mcp {
                Some(catalog) => match qualified_from(catalog.names@, name, 0) {
                    Some(qualified) => Route::Mcp(qualified),
                    None => if name == search_name() {
                        Route::ToolSearch
                    } else {
                        Route::Unknown
                    },
                },
                None => Route::Unknown,
            },
        },
    }
}

/// A canonical name and where it leads.
#[derive(Debug, PartialEq, Eq)]
pub struct Resolved {
    pub name: String,
    pub route: Route,
}

/// Where a name leads, once it has been made canonical.
pub open spec fn resolves(world: ToolWorld, name: Seq<char>, resolved: Resolved) -> bool {
    &&& resolved.name@ == streaming::canonical_name(name)
    &&& resolved.route == route_of(world, resolved.name@)
}

/// Where a name leads.
pub fn resolve(world: &ToolWorld, name: &str) -> (result: Resolved)
    ensures
        resolves(*world, name@, result),
{
    let name = canonical_tool_name(name);
    let mut i: usize = 0;
    while i < world.local.len() && !same_text(world.local[i].name.as_str(), name.as_str())
        invariant
            i <= world.local@.len(),
            local_from(world.local@, name@, 0) == local_from(world.local@, name@, i as int),
        decreases world.local@.len() - i,
    {
        i += 1;
    }
    if i < world.local.len() {
        return Resolved { name, route: Route::Local(world.local[i].tool) };
    }
    let mut j: usize = 0;
    while j < world.registry.len() && !same_text(world.registry[j].name.as_str(), name.as_str())
        invariant
            j <= world.registry@.len(),
            native_from(world.registry@, name@, 0) == native_from(
                world.registry@,
                name@,
                j as int,
            ),
        decreases world.registry@.len() - j,
    {
        j += 1;
    }
    if j < world.registry.len() {
        return Resolved { name, route: Route::Native(world.registry[j].tool) };
    }
    let catalog = match &world.mcp {
        Some(catalog) => catalog,
        None => {
            return Resolved { name, route: Route::Unknown };
        },
    };
    let mut k: usize = 0;
    while k < catalog.names.len() && !same_text(catalog.names[k].name.as_str(), name.as_str())
        invariant
            k <= catalog.names@.len(),
            qualified_from(catalog.names@, name@, 0) == qualified_from(
                catalog.names@,
                name@,
                k as int,
            ),
        decreases catalog.names@.len() - k,
    {
        k += 1;
    }
    if k < catalog.names.len() {
        return Resolved { name, route: Route::Mcp(catalog.names[k].qualified.clone()) };
    }
    if same_text(name.as_str(), "tool_search") {
        Resolved { name, route: Route::ToolSearch }
    } else {
        Resolved { name, route: Route::Unknown }
    }
}

/// Where the first registered tool of a name comes from, looked for from a position on.
pub open spec fn source_from(entries: Seq<NativeEntry>, name: Seq<char>, from: int) -> Seq<char>
    decreases entries.len() - from,
{
    if from < 0 || from >= entries.len() {
        Seq::empty()
    } else if entries[from].name@ == name {
        entries[from].source@
    } else {
        source_from(entries, name, from + 1)
    }
}

/// What a call is counted as: a registered tool as what it comes from, any other as its kind.
pub open spec fn source_text(world: ToolWorld, resolved: Resolved) -> Seq<char> {
    match resolved.route {
        Route::Native(_) => source_from(world.registry@, resolved.name@, 0),
        Route::Local(_) => "local"@,
        Route::Mcp(_) => "mcp"@,
        Route::ToolSearch => search_name(),
        Route::Unknown => "unknown"@,
    }
}

/// What a call is counted as.
pub fn source(world: &ToolWorld, resolved: &Resolved) -> (result: String)
    ensures
        result@ == source_text(*world, *resolved),
{
    match &resolved.route {
        Route::Native(_) => {
            let name = resolved.name.as_str();
            let mut i: usize = 0;
            while i < world.registry.len() && !same_text(world.registry[i].name.as_str(), name)
                invariant
                    i <= world.registry@.len(),
                    source_from(world.registry@, name@, 0) == source_from(
                        world.registry@,
                        name@,
                        i as int,
                    ),
                decreases world.registry@.len() - i,
            {
                i += 1;
            }
            if i < world.registry.len() {
                world.registry[i].source.clone()
            } else {
                String::new()
            }
        },
        Route::Local(_) => "local".to_owned(),
        Route::Mcp(_) => "mcp".to_owned(),
        Route::ToolSearch => "tool_search".to_owned(),
        Route::Unknown => "unknown".to_owned(),
    }
}

/// What hooking a call would lend to the hook.
#[derive(Debug, Clone, Copy, PartialEq, Eq, Structural)]
pub enum Authority {
    Unbounded,
    Capability(u32),
}

impl Route {
    /// What hooking a call lends: only what a registered tool declares narrows it, and a name that
    /// leads nowhere lends nothing.
    pub open spec fn lends(self) -> Option<Authority> {
        match self {
            Route::Native(tool) => match tool.permission {
                Some(permission) => Some(Authority::Capability(permission)),
                None => Some(Authority::Unbounded),
            },
            Route::Unknown => None,
            _ => Some(Authority::Unbounded),
        }
    }

    /// What hooking a call lends.
    pub fn authority(&self) -> (result: Option<Authority>)
        ensures
            result == self.lends(),
    {
        match self {
            Route::Native(tool) => match tool.permission {
                Some(permission) => Some(Authority::Capability(permission)),
                None => Some(Authority::Unbounded),
            },
            Route::Unknown => None,
            _ => Some(Authority::Unbounded),
        }
    }
}

/// A binding still holds.
pub open spec fn is_current(mcp: Option<McpCatalog>, binding: u64) -> bool {
    mcp is Some && mcp->0.current@.contains(binding)
}

/// What a name stood for when the turn began is where it leads now.
pub open spec fn same_route(world: ToolWorld, pinned: TurnToolRoute, route: Route) -> bool {
    match (pinned, route) {
        (TurnToolRoute::Local { handler, audience }, Route::Local(tool)) => handler == tool.handler
            && audience == tool.audience,
        (TurnToolRoute::Native { tool }, Route::Native(current)) => tool == current.tool,
        (TurnToolRoute::Mcp { qualified, binding }, Route::Mcp(current)) => qualified@ == current@
            && is_current(world.mcp, binding),
        (TurnToolRoute::ToolSearch, Route::ToolSearch) => true,
        _ => false,
    }
}

/// A name leads where it led when the turn began, and still does.
pub open spec fn is_bound(world: ToolWorld, name: Seq<char>, route: Route) -> bool {
    &&& world.bindings@.contains_key(name)
    &&& same_route(world, world.bindings@[name], route)
    &&& world.routes@.contains_key(name)
}

/// Whether a number is in a list.
fn holds_number(list: &Vec<u64>, number: u64) -> (result: bool)
    ensures
        result == list@.contains(number),
{
    let mut i: usize = 0;
    while i < list.len()
        invariant
            i <= list@.len(),
            forall|j: int| 0 <= j < i ==> list@[j] != number,
        decreases list@.len() - i,
    {
        if list[i] == number {
            return true;
        }
        i += 1;
    }
    false
}

/// Whether a binding still holds.
fn binding_is_current(mcp: &Option<McpCatalog>, binding: u64) -> (result: bool)
    ensures
        result == is_current(*mcp, binding),
{
    match mcp {
        Some(catalog) => holds_number(&catalog.current, binding),
        None => false,
    }
}

/// Whether a name leads where it led when the turn began, and still does.
pub fn binding_matches(resolved: &Resolved, world: &ToolWorld) -> (result: bool)
    ensures
        result == is_bound(*world, resolved.name@, resolved.route),
{
    let pinned = match world.bindings.get(resolved.name.as_str()) {
        Some(pinned) => pinned,
        None => {
            return false;
        },
    };
    let same = match (pinned, &resolved.route) {
        (TurnToolRoute::Local { handler, audience }, Route::Local(tool)) => *handler
            == tool.handler && *audience == tool.audience,
        (TurnToolRoute::Native { tool }, Route::Native(current)) => *tool == current.tool,
        (TurnToolRoute::Mcp { qualified, binding }, Route::Mcp(current)) => same_text(
            qualified.as_str(),
            current.as_str(),
        ) && binding_is_current(&world.mcp, *binding),
        (TurnToolRoute::ToolSearch, Route::ToolSearch) => true,
        _ => false,
    };
    same && world.routes.contains(resolved.name.as_str())
}

/// The agent's kind of caller may call what a name leads to.
pub open spec fn is_available(world: ToolWorld, name: Seq<char>, route: Route) -> bool {
    match route {
        Route::Native(tool) => tool.audience.includes(world.audience) && !run::is_among(
            world.excluded@,
            name,
        ),
        Route::Local(tool) => tool.audience.includes(world.audience),
        Route::Mcp(_) => true,
        Route::ToolSearch => true,
        Route::Unknown => false,
    }
}

/// The turn's mode has a tool of that name.
pub open spec fn mode_has(mode_def: Option<ModeTools>, name: Seq<char>) -> bool {
    match mode_def {
        Some(mode) => match mode.tools {
            Some(names) => run::is_among(names@, name),
            None => true,
        },
        None => false,
    }
}

/// The agent may call a name: the mode has it, the agent is among its callers, it leads where it
/// led when the turn began, and the mode does not forbid to write, because what a tool writes is
/// not known before it runs.
pub open spec fn offers(world: ToolWorld, name: Seq<char>) -> bool {
    let canonical = streaming::canonical_name(name);
    let route = route_of(world, canonical);
    &&& mode_has(world.mode_def, canonical)
    &&& is_available(world, canonical, route)
    &&& is_bound(world, canonical, route)
    &&& !world.restricted
}

/// Whether the agent may call a name.
pub fn authorize_advertised(world: &ToolWorld, name: &str) -> (result: bool)
    ensures
        result == offers(*world, name@),
{
    let resolved = resolve(world, name);
    let in_mode = match &world.mode_def {
        Some(mode) => match &mode.tools {
            Some(names) => among(names, resolved.name.as_str()),
            None => true,
        },
        None => false,
    };
    let available = match &resolved.route {
        Route::Native(tool) => tool.audience.contains(world.audience) && !among(
            &world.excluded,
            resolved.name.as_str(),
        ),
        Route::Local(tool) => tool.audience.contains(world.audience),
        Route::Mcp(_) => true,
        Route::ToolSearch => true,
        Route::Unknown => false,
    };
    in_mode && available && binding_matches(&resolved, world) && !world.restricted
}

/// Why the agent may not call a name, if it may not.
pub open spec fn refusal(world: ToolWorld, name: Seq<char>) -> Option<Seq<char>> {
    if offers(world, name) {
        None
    } else if world.restricted {
        Some("tool not allowed in restricted mode: "@ + name)
    } else {
        Some("tool not available for this agent: "@ + name)
    }
}

/// Whether the agent may call a name, and if not why.
pub fn authorize_mode(world: &ToolWorld, resolved: &Resolved) -> (result: Result<(), String>)
    ensures
        match refusal(*world, resolved.name@) {
            None => result is Ok,
            Some(reason) => result is Err && result->Err_0@ == reason,
        },
{
    if authorize_advertised(world, resolved.name.as_str()) {
        return Ok(());
    }
    if world.restricted {
        Err(joined("tool not allowed in restricted mode: ", resolved.name.as_str()))
    } else {
        Err(joined("tool not available for this agent: ", resolved.name.as_str()))
    }
}

} // verus!
