//! Where a tool's name leads, and whether the agent may call it.
use vstd::prelude::*;

use crate::agent::catalog;
use crate::agent::catalog::{
    assign_aliases, callable, callable_among, identifier_alias, Callable, ToolSource,
};
use crate::agent::native::is_still_bound;
use crate::agent::routes;
use crate::agent::routes::{
    authorize_advertised, authorize_mode, binding_matches, resolve, source, Authority, Resolved,
    Route, ToolAudience, ToolWorld, TurnToolRoute,
};
use crate::agent::streaming;
use crate::promises::replies;
use crate::promises::texts;
use crate::text;

verus! {

/// The client's tool at `i` is the first of a name.
pub open spec fn is_local(world: ToolWorld, name: Seq<char>, i: int) -> bool {
    &&& 0 <= i < world.local@.len()
    &&& world.local@[i].name@ == name
    &&& forall|j: int| 0 <= j < i ==> (#[trigger] world.local@[j]).name@ != name
}

/// The registered tool at `i` is the first of a name.
pub open spec fn is_native(world: ToolWorld, name: Seq<char>, i: int) -> bool {
    &&& 0 <= i < world.registry@.len()
    &&& world.registry@[i].name@ == name
    &&& forall|j: int| 0 <= j < i ==> (#[trigger] world.registry@[j]).name@ != name
}

/// The outside tool at `i` is the first of a name.
pub open spec fn is_outside(world: ToolWorld, name: Seq<char>, i: int) -> bool {
    &&& world.mcp is Some
    &&& 0 <= i < world.mcp->0.names@.len()
    &&& world.mcp->0.names@[i].name@ == name
    &&& forall|j: int| 0 <= j < i ==> (#[trigger] world.mcp->0.names@[j]).name@ != name
}

/// No client's tool has a name.
pub open spec fn no_local(world: ToolWorld, name: Seq<char>) -> bool {
    forall|j: int| 0 <= j < world.local@.len() ==> (#[trigger] world.local@[j]).name@ != name
}

/// No registered tool has a name.
pub open spec fn no_native(world: ToolWorld, name: Seq<char>) -> bool {
    forall|j: int| 0 <= j < world.registry@.len() ==> (#[trigger] world.registry@[j]).name@ != name
}

/// No outside tool has a name.
pub open spec fn no_outside(world: ToolWorld, name: Seq<char>) -> bool {
    world.mcp is Some ==> forall|j: int|
        0 <= j < world.mcp->0.names@.len() ==> (#[trigger] world.mcp->0.names@[j]).name@ != name
}

/// Where a name leads: to the client's first tool of the name, else to the first registered one,
/// else to the first outside one, else to the search among outside tools where that is its name and
/// there are outside servers, and else nowhere.
pub open spec fn leads_to(world: ToolWorld, name: Seq<char>, route: Route) -> bool {
    match route {
        Route::Local(tool) => exists|i: int| #[trigger]
            is_local(world, name, i) && world.local@[i].tool == tool,
        Route::Native(tool) => no_local(world, name) && exists|i: int| #[trigger]
            is_native(world, name, i) && world.registry@[i].tool == tool,
        Route::Mcp(qualified) => no_local(world, name) && no_native(world, name) && exists|i: int|
            #[trigger] is_outside(world, name, i) && world.mcp->0.names@[i].qualified == qualified,
        Route::ToolSearch => {
            &&& no_local(world, name)
            &&& no_native(world, name)
            &&& no_outside(world, name)
            &&& world.mcp is Some
            &&& name == "tool_search"@
        },
        Route::Unknown => {
            &&& no_local(world, name)
            &&& no_native(world, name)
            &&& no_outside(world, name)
            &&& world.mcp is None || name != "tool_search"@
        },
    }
}

/// The client's tools from a position on.
proof fn lemma_local_from(world: ToolWorld, name: Seq<char>, from: int)
    requires
        0 <= from,
        forall|j: int|
            0 <= j < from && j < world.local@.len() ==> (#[trigger] world.local@[j]).name@ != name,
    ensures
        match routes::local_from(world.local@, name, from) {
            Some(tool) => exists|i: int| #[trigger]
                is_local(world, name, i) && world.local@[i].tool == tool,
            None => no_local(world, name),
        },
    decreases world.local@.len() - from,
{
    if from < world.local@.len() {
        if world.local@[from].name@ == name {
            assert(is_local(world, name, from));
        } else {
            lemma_local_from(world, name, from + 1);
        }
    }
}

/// The registered tools from a position on.
proof fn lemma_native_from(world: ToolWorld, name: Seq<char>, from: int)
    requires
        0 <= from,
        forall|j: int|
            0 <= j < from && j < world.registry@.len() ==> (#[trigger] world.registry@[j]).name@
                != name,
    ensures
        match routes::native_from(world.registry@, name, from) {
            Some(tool) => exists|i: int| #[trigger]
                is_native(world, name, i) && world.registry@[i].tool == tool,
            None => no_native(world, name),
        },
    decreases world.registry@.len() - from,
{
    if from < world.registry@.len() {
        if world.registry@[from].name@ == name {
            assert(is_native(world, name, from));
        } else {
            lemma_native_from(world, name, from + 1);
        }
    }
}

/// The outside tools from a position on.
proof fn lemma_qualified_from(world: ToolWorld, name: Seq<char>, from: int)
    requires
        0 <= from,
        world.mcp is Some,
        forall|j: int|
            0 <= j < from && j < world.mcp->0.names@.len() ==> (#[trigger] world.mcp->0.names@[
                j
            ]).name@ != name,
    ensures
        match routes::qualified_from(world.mcp->0.names@, name, from) {
            Some(qualified) => exists|i: int| #[trigger]
                is_outside(world, name, i) && world.mcp->0.names@[i].qualified == qualified,
            None => no_outside(world, name),
        },
    decreases world.mcp->0.names@.len() - from,
{
    if from < world.mcp->0.names@.len() {
        if world.mcp->0.names@[from].name@ == name {
            assert(is_outside(world, name, from));
        } else {
            lemma_qualified_from(world, name, from + 1);
        }
    }
}

/// Where a name leads.
pub proof fn lemma_leads(world: ToolWorld, name: Seq<char>)
    ensures
        leads_to(world, name, routes::route_of(world, name)),
{
    lemma_local_from(world, name, 0);
    lemma_native_from(world, name, 0);
    if world.mcp is Some {
        lemma_qualified_from(world, name, 0);
    }
}

/// A call reaches the tool that its plain name leads to.
pub proof fn law_names_lead_to_the_first_tool(world: ToolWorld, name: &str, resolved: Resolved)
    requires
        call_ensures(resolve, (&world, name), resolved),
    ensures
        replies::is_plain_name(name@, resolved.name@),
        leads_to(world, resolved.name@, resolved.route),
{
    replies::lemma_plain_name(name@);
    lemma_leads(world, resolved.name@);
}

/// A name leads where it led when the turn began: to the same client's tool for the same callers,
/// to the same registered tool, to the same outside tool by a binding that still holds, or to the
/// search; and what it led to is still there.
pub open spec fn still_leads(world: ToolWorld, name: Seq<char>, route: Route) -> bool {
    &&& world.routes@.contains_key(name)
    &&& world.bindings@.contains_key(name)
    &&& match world.bindings@[name] {
        TurnToolRoute::Local { handler, audience } => route matches Route::Local(tool)
            && tool.handler == handler && tool.audience == audience,
        TurnToolRoute::Native { tool: own } => route matches Route::Native(tool) && tool.tool
            == own,
        TurnToolRoute::Mcp { qualified, binding } => route matches Route::Mcp(current) && current@
            == qualified@ && world.mcp is Some && world.mcp->0.current@.contains(binding),
        TurnToolRoute::ToolSearch => route is ToolSearch,
    }
}

/// Whether a name still leads where it led is read from what it led to.
pub proof fn law_bindings_hold_or_do_not(
    world: ToolWorld,
    resolved: Resolved,
    same: bool,
    name: &str,
    bound: bool,
    named: Resolved,
)
    requires
        call_ensures(binding_matches, (&resolved, &world), same),
        call_ensures(is_still_bound, (&world, name), bound),
        call_ensures(resolve, (&world, name), named),
    ensures
        same <==> still_leads(world, resolved.name@, resolved.route),
        bound <==> still_leads(world, named.name@, named.route),
{
}

/// A text is one of others.
pub open spec fn is_one_of(texts: Seq<String>, text: Seq<char>) -> bool {
    exists|i: int| 0 <= i < texts.len() && (#[trigger] texts[i])@ == text
}

/// The agent may call a name that leads somewhere: the mode has it, the tool is for the agent's
/// kind of caller and not kept from it, it still leads where it led, and the mode lets tools write.
pub open spec fn may_call(world: ToolWorld, name: Seq<char>, route: Route) -> bool {
    &&& world.mode_def is Some
    &&& world.mode_def->0.tools is Some ==> is_one_of(world.mode_def->0.tools->0@, name)
    &&& !world.restricted
    &&& still_leads(world, name, route)
    &&& route matches Route::Native(tool) ==> tool.audience.bits & world.audience.bits
        == world.audience.bits && !is_one_of(world.excluded@, name)
    &&& route matches Route::Local(tool) ==> tool.audience.bits & world.audience.bits
        == world.audience.bits
    &&& !(route is Unknown)
}

/// What the agent may call.
pub proof fn lemma_may_call(world: ToolWorld, name: Seq<char>)
    ensures
        ({
            let plain = streaming::canonical_name(name);
            routes::offers(world, name) == may_call(world, plain, routes::route_of(world, plain))
        }),
{
}

/// The agent may call a name exactly where nothing stands against it, and if it may not it is told
/// why: because the mode forbids to write, or because the tool is not there for it.
pub proof fn law_agents_call_what_they_may(
    world: ToolWorld,
    name: &str,
    allowed: bool,
    resolved: Resolved,
    authorized: Result<(), String>,
)
    requires
        call_ensures(authorize_advertised, (&world, name), allowed),
        call_ensures(resolve, (&world, name), resolved),
        call_ensures(authorize_mode, (&world, &resolved), authorized),
        replies::is_plain_name(resolved.name@, resolved.name@),
    ensures
        allowed <==> may_call(world, resolved.name@, resolved.route),
        authorized is Ok <==> allowed,
        authorized matches Err(reason) ==> {
            &&& world.restricted ==> reason@ == "tool not allowed in restricted mode: "@
                + resolved.name@
            &&& !world.restricted ==> reason@ == "tool not available for this agent: "@
                + resolved.name@
        },
{
    lemma_may_call(world, name@);
    replies::lemma_one_plain_name(resolved.name@, resolved.name@);
}

/// Callers are included where each of their bits is set, and all callers are.
pub proof fn law_callers_are_included_by_bits(
    own: ToolAudience,
    other: ToolAudience,
    includes: bool,
    all: ToolAudience,
    includes_all: bool,
)
    requires
        call_ensures(ToolAudience::contains, (own, other), includes),
        call_ensures(ToolAudience::all, (), all),
        call_ensures(ToolAudience::contains, (all, other), includes_all),
    ensures
        includes <==> own.bits & other.bits == other.bits,
        includes_all,
{
    let bits = other.bits;
    assert(0xffff_ffffu32 & bits == bits) by (bit_vector);
}

/// What hooking a call lends: what a registered tool declares, everything where nothing narrows it,
/// and nothing where the name leads nowhere.
pub proof fn law_hooks_are_lent_what_tools_declare(route: Route, lent: Option<Authority>)
    requires
        call_ensures(Route::authority, (&route,), lent),
    ensures
        lent is None <==> route is Unknown,
        route matches Route::Native(tool) ==> {
            &&& tool.permission matches Some(permission) ==> lent == Some(
                Authority::Capability(permission),
            )
            &&& tool.permission is None ==> lent == Some(Authority::Unbounded)
        },
        route is Local || route is Mcp || route is ToolSearch ==> lent == Some(
            Authority::Unbounded,
        ),
{
}

/// The source of the first registered tool of a name.
proof fn lemma_source(world: ToolWorld, name: Seq<char>, from: int, i: int)
    requires
        0 <= from <= i,
        is_native(world, name, i),
    ensures
        routes::source_from(world.registry@, name, from) == world.registry@[i].source@,
    decreases i - from,
{
    if from < i {
        assert(world.registry@[from].name@ != name);
        lemma_source(world, name, from + 1, i);
    }
}

/// A call of a registered tool counts as what the tool comes from, and any other as its kind.
pub proof fn law_calls_count_as_their_source(
    world: ToolWorld,
    resolved: Resolved,
    counted: String,
    i: int,
)
    requires
        call_ensures(source, (&world, &resolved), counted),
    ensures
        resolved.route is Native && is_native(world, resolved.name@, i) ==> counted@
            == world.registry@[i].source@,
        resolved.route is Local ==> counted@ == "local"@,
        resolved.route is Mcp ==> counted@ == "mcp"@,
        resolved.route is ToolSearch ==> counted@ == "tool_search"@,
        resolved.route is Unknown ==> counted@ == "unknown"@,
{
    if is_native(world, resolved.name@, i) {
        lemma_source(world, resolved.name@, 0, i);
    }
}

/// Where a tool comes from is said in a word of its own.
pub proof fn law_sources_have_their_words(from: ToolSource, word: &'static str)
    requires
        call_ensures(ToolSource::word, (from,), word),
    ensures
        from == ToolSource::Local ==> word@ == "local"@,
        from == ToolSource::Native ==> word@ == "native"@,
        from == ToolSource::Mcp ==> word@ == "mcp"@,
{
}

/// A letter, a digit or an underscore.
pub open spec fn in_word(c: char) -> bool {
    ('a' <= c && c <= 'z') || ('A' <= c && c <= 'Z') || ('0' <= c && c <= '9') || c == '_'
}

/// A name is the identifier for another: as long, with each character that an identifier can hold
/// and an underscore for each other.
pub open spec fn is_identifier_for(name: Seq<char>, alias: Seq<char>) -> bool {
    &&& alias.len() == name.len()
    &&& forall|i: int|
        0 <= i < name.len() ==> #[trigger] alias[i] == (if in_word(name[i]) {
            name[i]
        } else {
            '_'
        })
}

/// A name needs an identifier: it begins with no digit, and holds a character that an identifier
/// cannot.
pub open spec fn needs_identifier(name: Seq<char>) -> bool {
    &&& name.len() > 0
    &&& !('0' <= name[0] && name[0] <= '9')
    &&& exists|i: int| 0 <= i < name.len() && !in_word(#[trigger] name[i])
}

/// The identifier for a name.
proof fn lemma_alias(name: Seq<char>)
    ensures
        match catalog::alias_text(name) {
            Some(alias) => needs_identifier(name) && is_identifier_for(name, alias),
            None => !needs_identifier(name),
        },
{
    let alias = catalog::underscored(name);
    assert(is_identifier_for(name, alias));
    if alias == name {
        assert forall|i: int| 0 <= i < name.len() implies in_word(#[trigger] name[i]) by {
            assert(alias[i] == name[i]);
        }
    } else if name.len() > 0 && !('0' <= name[0] && name[0] <= '9') {
        assert(needs_identifier(name)) by {
            if forall|i: int| 0 <= i < name.len() ==> in_word(#[trigger] name[i]) {
                assert(alias =~= name);
            }
        }
    }
}

/// Exactly the names that need one have an identifier that can stand for them.
pub proof fn law_names_get_identifiers(name: &str, alias: Option<String>)
    requires
        call_ensures(identifier_alias, (name,), alias),
    ensures
        alias is Some <==> needs_identifier(name@),
        alias matches Some(text) ==> is_identifier_for(name@, text@),
{
    lemma_alias(name@);
}

/// Identifiers for one name are the same.
proof fn lemma_one_identifier(name: Seq<char>, a: Seq<char>, b: Seq<char>)
    requires
        is_identifier_for(name, a),
        is_identifier_for(name, b),
    ensures
        a == b,
{
    assert(a =~= b);
}

/// A tool is listed as it is; it gets the identifier for its name exactly where it needs one and
/// nothing else is called by it, and else keeps the one it had.
pub open spec fn is_listed_as(tools: Seq<Callable>, at: int, listed: Callable) -> bool {
    let own = tools[at];
    &&& listed.name@ == own.name@
    &&& listed.source == own.source
    &&& listed.audience == own.audience
    &&& listed.schema == own.schema
    &&& listed.alias != own.alias ==> {
        &&& listed.alias is Some
        &&& needs_identifier(own.name@)
        &&& is_identifier_for(own.name@, listed.alias->0@)
        &&& forall|j: int|
            0 <= j < tools.len() ==> (#[trigger] tools[j]).name@ != listed.alias->0@ && (j != at
                ==> !(needs_identifier(tools[j].name@) && is_identifier_for(
                tools[j].name@,
                listed.alias->0@,
            )))
    }
    &&& own.alias is None && listed.alias is None && needs_identifier(own.name@) ==> exists|j: int|
        0 <= j < tools.len() && shares_identifier(own.name@, #[trigger] tools[j], j != at)
}

/// A tool is called by the identifier for a name: it has it for a name, or, being another, for an
/// identifier.
pub open spec fn shares_identifier(name: Seq<char>, tool: Callable, other: bool) -> bool {
    ||| is_identifier_for(name, tool.name@)
    ||| other && needs_identifier(tool.name@) && exists|alias: Seq<char>| #[trigger]
        is_identifier_for(name, alias) && is_identifier_for(tool.name@, alias)
}

/// How a tool is listed.
proof fn lemma_listed(tools: Seq<Callable>, at: int, listed: Callable)
    requires
        0 <= at < tools.len(),
        catalog::gets_alias(tools, at, listed),
    ensures
        is_listed_as(tools, at, listed),
{
    let own = tools[at];
    lemma_alias(own.name@);
    let alias = catalog::alias_text(own.name@);
    if alias is Some {
        if catalog::is_unambiguous(tools, at, alias->0) {
            assert forall|j: int| 0 <= j < tools.len() implies (#[trigger] tools[j]).name@
                != listed.alias->0@ && (j != at ==> !(needs_identifier(tools[j].name@)
                && is_identifier_for(tools[j].name@, listed.alias->0@))) by {
                lemma_alias(tools[j].name@);
                if j != at && needs_identifier(tools[j].name@) && is_identifier_for(
                    tools[j].name@,
                    listed.alias->0@,
                ) {
                    lemma_one_identifier(
                        tools[j].name@,
                        catalog::alias_text(tools[j].name@)->0,
                        listed.alias->0@,
                    );
                }
            }
        } else {
            let j = choose|j: int|
                0 <= j < tools.len() && !((#[trigger] tools[j]).name@ != alias->0 && (j != at
                    ==> catalog::alias_text(tools[j].name@) != Some(alias->0)));
            lemma_alias(tools[j].name@);
            if tools[j].name@ != alias->0 {
                assert(is_identifier_for(own.name@, alias->0));
                assert(is_identifier_for(tools[j].name@, alias->0));
            }
            assert(shares_identifier(own.name@, tools[j], j != at));
        }
    }
}

/// Tools keep their names and what they are; each gets the identifier for its name where it needs
/// one and nothing else is called by it.
pub proof fn law_identifiers_stand_for_one_tool(
    tools: Vec<Callable>,
    listed: Vec<Callable>,
    i: int,
)
    requires
        call_ensures(assign_aliases, (&tools,), listed),
    ensures
        listed@.len() == tools@.len(),
        0 <= i < tools@.len() ==> is_listed_as(tools@, i, listed@[i]),
{
    if 0 <= i < tools@.len() {
        lemma_listed(tools@, i, listed@[i]);
    }
}

/// The names that there are, in the order in which a call looks for them: the client's, the
/// registered ones, and the outside ones.
pub open spec fn name_at(
    world: ToolWorld,
    locals: Seq<String>,
    outside: Seq<String>,
    k: int,
) -> Seq<char> {
    if k < locals.len() {
        locals[k]@
    } else if k < locals.len() + world.registry@.len() {
        world.registry@[k - locals.len()].name@
    } else {
        outside[k - locals.len() - world.registry@.len()]@
    }
}

/// The entry describes the name at a place: where the tool comes from, whom it is for, and a
/// registered tool's schema.
pub open spec fn describes(
    world: ToolWorld,
    locals: Seq<String>,
    outside: Seq<String>,
    k: int,
    entry: Callable,
) -> bool {
    let n = locals.len();
    let m = world.registry@.len();
    &&& entry.name@ == name_at(world, locals, outside, k)
    &&& k < n ==> {
        &&& entry.source == ToolSource::Local
        &&& entry.schema is None
        &&& forall|i: int| #[trigger]
            is_local(world, entry.name@, i) ==> entry.audience == world.local@[i].tool.audience
    }
    &&& n <= k < n + m ==> {
        &&& entry.source == ToolSource::Native
        &&& entry.audience == world.registry@[k - n].tool.audience
        &&& entry.schema matches Some(schema) && schema@ == world.registry@[k - n].schema@
    }
    &&& n + m <= k ==> {
        &&& entry.source == ToolSource::Mcp
        &&& entry.audience.bits == u32::MAX
        &&& entry.schema is None
    }
}

/// The place of a name is taken: a call looks there first, the agent is among the callers, and it
/// may call the name.
pub open spec fn is_place(
    world: ToolWorld,
    locals: Seq<String>,
    outside: Seq<String>,
    k: int,
    entry: Callable,
) -> bool {
    let name = name_at(world, locals, outside, k);
    &&& 0 <= k < locals.len() + world.registry@.len() + outside.len()
    &&& describes(world, locals, outside, k, entry)
    &&& forall|j: int| 0 <= j < k ==> #[trigger] name_at(world, locals, outside, j) != name
    &&& entry.audience.bits & world.audience.bits == world.audience.bits
    &&& may_call(
        world,
        streaming::canonical_name(name),
        routes::route_of(world, streaming::canonical_name(name)),
    )
}

/// What stands at a place.
proof fn lemma_candidate(world: ToolWorld, locals: Seq<String>, outside: Seq<String>, k: int)
    requires
        0 <= k < locals.len() + world.registry@.len() + outside.len(),
    ensures
        describes(
            world,
            locals,
            outside,
            k,
            catalog::candidates(world, locals, outside)[k],
        ),
        catalog::candidates(world, locals, outside).len() == locals.len() + world.registry@.len()
            + outside.len(),
{
    let all = catalog::candidates(world, locals, outside);
    if k < locals.len() {
        assert(all[k] == catalog::local_callable(world, locals[k]));
        let name = locals[k]@;
        assert forall|i: int| #[trigger] is_local(world, name, i) implies all[k].audience
            == world.local@[i].tool.audience by {
            lemma_local_at(world, name, 0, i);
        }
    } else if k < locals.len() + world.registry@.len() {
        assert(all[k] == catalog::native_callable(world.registry@[k - locals.len()]));
    } else {
        assert(all[k] == catalog::mcp_callable(
            outside[k - locals.len() - world.registry@.len()],
        ));
    }
}

/// The client's first tool of a name is found.
proof fn lemma_local_at(world: ToolWorld, name: Seq<char>, from: int, i: int)
    requires
        0 <= from <= i,
        is_local(world, name, i),
    ensures
        routes::local_from(world.local@, name, from) == Some(world.local@[i].tool),
    decreases i - from,
{
    if from < i {
        assert(world.local@[from].name@ != name);
        lemma_local_at(world, name, from + 1, i);
    }
}

/// The entry stands at one of the first places.
pub open spec fn stands(
    world: ToolWorld,
    locals: Seq<String>,
    outside: Seq<String>,
    count: int,
    entry: Callable,
) -> bool {
    exists|k: int| 0 <= k < count && #[trigger] is_place(world, locals, outside, k, entry)
}

/// What is offered stands at a place that is taken, and places that are taken are offered.
proof fn lemma_offered(
    world: ToolWorld,
    locals: Seq<String>,
    outside: Seq<String>,
    count: int,
)
    requires
        0 <= count <= locals.len() + world.registry@.len() + outside.len(),
    ensures
        ({
            let all = catalog::candidates(world, locals, outside);
            let found = catalog::offered(world, all, count);
            &&& forall|i: int|
                0 <= i < found.len() ==> stands(
                    world,
                    locals,
                    outside,
                    count,
                    #[trigger] found[i],
                )
            &&& forall|k: int|
                0 <= k < count && is_place(world, locals, outside, k, #[trigger] all[k])
                    ==> found.contains(all[k])
        }),
    decreases count,
{
    let all = catalog::candidates(world, locals, outside);
    let found = catalog::offered(world, all, count);
    if count > 0 {
        let at = count - 1;
        let before = catalog::offered(world, all, at);
        lemma_offered(world, locals, outside, at);
        lemma_candidate(world, locals, outside, at);
        lemma_may_call(world, all[at].name@);
        assert(catalog::is_first(all, at) == (forall|j: int|
            0 <= j < at ==> #[trigger] name_at(world, locals, outside, j) != name_at(
                world,
                locals,
                outside,
                at,
            ))) by {
            assert forall|j: int| 0 <= j < at implies (#[trigger] all[j]).name@ == name_at(
                world,
                locals,
                outside,
                j,
            ) by {
                lemma_candidate(world, locals, outside, j);
            }
            if forall|j: int|
                0 <= j < at ==> #[trigger] name_at(world, locals, outside, j) != name_at(
                    world,
                    locals,
                    outside,
                    at,
                ) {
                assert forall|j: int| 0 <= j < at implies (#[trigger] all[j]).name@
                    != all[at].name@ by {
                    assert(name_at(world, locals, outside, j) != name_at(
                        world,
                        locals,
                        outside,
                        at,
                    ));
                }
            }
            if catalog::is_first(all, at) {
                assert forall|j: int| 0 <= j < at implies #[trigger] name_at(
                    world,
                    locals,
                    outside,
                    j,
                ) != name_at(world, locals, outside, at) by {
                    assert(all[j].name@ != all[at].name@);
                }
            }
        }
        assert(catalog::is_offered(world, all, at) == is_place(
            world,
            locals,
            outside,
            at,
            all[at],
        ));
        assert forall|i: int| 0 <= i < found.len() implies stands(
            world,
            locals,
            outside,
            count,
            #[trigger] found[i],
        ) by {
            if i < before.len() {
                assert(found[i] == before[i]);
                assert(stands(world, locals, outside, at, before[i]));
                let k = choose|k: int|
                    0 <= k < at && #[trigger] is_place(world, locals, outside, k, before[i]);
                assert(is_place(world, locals, outside, k, found[i]));
            } else {
                assert(is_place(world, locals, outside, at, found[i]));
            }
        }
        assert forall|k: int|
            0 <= k < count && is_place(
                world,
                locals,
                outside,
                k,
                #[trigger] all[k],
            ) implies found.contains(all[k]) by {
            if k < at {
                assert(before.contains(all[k]));
                let i = choose|i: int| 0 <= i < before.len() && before[i] == all[k];
                assert(found[i] == all[k]);
            } else {
                assert(found[found.len() - 1] == all[k]);
            }
        }
    }
}

/// A list of names: every entry stands at a place that is taken, under the name there and as what it
/// is, and every place that is taken is listed.
pub open spec fn lists(
    world: ToolWorld,
    locals: Seq<String>,
    outside: Seq<String>,
    listed: Seq<Callable>,
) -> bool {
    let count = (locals.len() + world.registry@.len() + outside.len()) as int;
    &&& forall|i: int|
        0 <= i < listed.len() ==> stands(world, locals, outside, count, #[trigger] listed[i])
    &&& forall|k: int|
        0 <= k < count && #[trigger] is_taken(world, locals, outside, k) ==> is_among(
            listed,
            name_at(world, locals, outside, k),
        )
}

/// A name is listed.
pub open spec fn is_among(listed: Seq<Callable>, name: Seq<char>) -> bool {
    exists|i: int| 0 <= i < listed.len() && (#[trigger] listed[i]).name@ == name
}

/// Some entry could stand at a place.
pub open spec fn is_taken(
    world: ToolWorld,
    locals: Seq<String>,
    outside: Seq<String>,
    k: int,
) -> bool {
    exists|entry: Callable| #[trigger] is_place(world, locals, outside, k, entry)
}

/// What is listed.
proof fn lemma_lists(
    world: ToolWorld,
    locals: Seq<String>,
    outside: Seq<String>,
    listed: Seq<Callable>,
)
    requires
        catalog::names_all(catalog::offered_names(world, locals, outside), listed),
    ensures
        lists(world, locals, outside, listed),
{
    let all = catalog::candidates(world, locals, outside);
    let found = catalog::offered_names(world, locals, outside);
    let count = (locals.len() + world.registry@.len() + outside.len()) as int;
    assert(all.len() == count);
    lemma_offered(world, locals, outside, count);
    assert forall|i: int| 0 <= i < listed.len() implies stands(
        world,
        locals,
        outside,
        count,
        #[trigger] listed[i],
    ) by {
        assert(catalog::gets_alias(found, i, listed[i]));
        assert(stands(world, locals, outside, count, found[i]));
        let k = choose|k: int|
            0 <= k < count && #[trigger] is_place(world, locals, outside, k, found[i]);
        assert(is_place(world, locals, outside, k, listed[i]));
    }
    assert forall|k: int|
        0 <= k < count && #[trigger] is_taken(world, locals, outside, k) implies is_among(
        listed,
        name_at(world, locals, outside, k),
    ) by {
        let entry = choose|entry: Callable| #[trigger] is_place(world, locals, outside, k, entry);
        lemma_candidate(world, locals, outside, k);
        lemma_same_audience(world, locals, outside, k, entry);
        assert(is_place(world, locals, outside, k, all[k]));
        assert(found.contains(all[k]));
        let i = choose|i: int| 0 <= i < found.len() && found[i] == all[k];
        assert(catalog::gets_alias(found, i, listed[i]));
        assert(listed[i].name@ == name_at(world, locals, outside, k));
    }
}

/// What stands at a place is for the same callers, however it is described; a client's name that
/// has no tool is for all.
proof fn lemma_same_audience(
    world: ToolWorld,
    locals: Seq<String>,
    outside: Seq<String>,
    k: int,
    entry: Callable,
)
    requires
        is_place(world, locals, outside, k, entry),
    ensures
        catalog::candidates(world, locals, outside)[k].audience.bits & world.audience.bits
            == world.audience.bits,
{
    lemma_candidate(world, locals, outside, k);
    let own = catalog::candidates(world, locals, outside)[k];
    let name = name_at(world, locals, outside, k);
    if k < locals.len() {
        lemma_local_from(world, name, 0);
        if routes::local_from(world.local@, name, 0) is Some {
            let i = choose|i: int| #[trigger]
                is_local(world, name, i) && world.local@[i].tool == routes::local_from(
                    world.local@,
                    name,
                    0,
                )->0;
            assert(is_local(world, entry.name@, i));
            assert(is_local(world, own.name@, i));
        } else {
            let bits = world.audience.bits;
            assert(0xffff_ffffu32 & bits == bits) by (bit_vector);
            assert(own == catalog::local_callable(world, locals[k]));
        }
    }
}

/// Exactly the names that a call would reach first and that the agent may call are listed, each as
/// the tool that it stands for.
pub proof fn law_callable_names_are_listed(
    world: ToolWorld,
    locals: Vec<String>,
    outside: Vec<String>,
    listed: Vec<Callable>,
)
    requires
        call_ensures(callable_among, (&world, &locals, &outside), listed),
    ensures
        lists(world, locals@, outside@, listed@),
{
    lemma_lists(world, locals@, outside@, listed@);
}

/// The list for an agent holds the client's tools and the outside ones in the order of text, and
/// the registered ones between them.
pub proof fn law_agents_see_what_they_can_call(world: ToolWorld, listed: Vec<Callable>)
    requires
        call_ensures(callable, (&world,), listed),
    ensures
        exists|locals: Seq<String>, outside: Seq<String>|
            {
                &&& #[trigger] lists(world, locals, outside, listed@)
                &&& locals.len() == world.local@.len()
                &&& forall|i: int|
                    0 <= i < world.local@.len() ==> locals.contains(
                        (#[trigger] world.local@[i]).name,
                    )
                &&& world.mcp is None ==> outside.len() == 0
                &&& world.mcp is Some ==> {
                    &&& outside.len() == world.mcp->0.names@.len() + 1
                    &&& exists|k: int|
                        0 <= k < outside.len() && (#[trigger] outside[k])@ == "tool_search"@
                    &&& forall|i: int|
                        0 <= i < world.mcp->0.names@.len() ==> outside.contains(
                            (#[trigger] world.mcp->0.names@[i]).name,
                        )
                }
                &&& forall|i: int, j: int|
                    0 <= i < j < locals.len() ==> !texts::comes_before(
                        (#[trigger] locals[j])@,
                        (#[trigger] locals[i])@,
                    )
                &&& forall|i: int, j: int|
                    0 <= i < j < outside.len() ==> !texts::comes_before(
                        (#[trigger] outside[j])@,
                        (#[trigger] outside[i])@,
                    )
            },
{
    let (locals, names, outside) = choose|locals: Seq<String>, names: Seq<String>, outside: Seq<String>|
        #![trigger text::is_sorted_copy(locals, catalog::local_names(world.local@)), text::is_sorted_copy(outside, names)]
        {
            &&& text::is_sorted_copy(locals, catalog::local_names(world.local@))
            &&& catalog::are_outside_names(world, names)
            &&& text::is_sorted_copy(outside, names)
            &&& catalog::names_all(catalog::offered_names(world, locals, outside), listed@)
        };
    lemma_lists(world, locals, outside, listed@);
    let own = catalog::local_names(world.local@);
    vstd::seq_lib::to_multiset_len(locals);
    vstd::seq_lib::to_multiset_len(own);
    vstd::seq_lib::to_multiset_len(outside);
    vstd::seq_lib::to_multiset_len(names);
    if world.mcp is Some {
        let known = world.mcp->0.names@;
        assert(names[names.len() - 1] == names.last());
        assert(names.contains(names.last()));
        vstd::seq_lib::to_multiset_contains::<String>(names, names.last());
        vstd::seq_lib::to_multiset_contains::<String>(outside, names.last());
        let k = choose|k: int| 0 <= k < outside.len() && outside[k] == names.last();
        assert(outside[k]@ == "tool_search"@);
        assert forall|i: int| 0 <= i < known.len() implies outside.contains(
            (#[trigger] known[i]).name,
        ) by {
            assert(names.drop_last()[i] == known[i].name);
            assert(names[i] == known[i].name);
            assert(names.contains(known[i].name));
            vstd::seq_lib::to_multiset_contains::<String>(names, known[i].name);
            vstd::seq_lib::to_multiset_contains::<String>(outside, known[i].name);
        }
    }
    assert forall|i: int| 0 <= i < world.local@.len() implies locals.contains(
        (#[trigger] world.local@[i]).name,
    ) by {
        let name = world.local@[i].name;
        assert(own[i] == name);
        assert(own.contains(name));
        vstd::seq_lib::to_multiset_contains::<String>(own, name);
        vstd::seq_lib::to_multiset_contains::<String>(locals, name);
    }
    assert forall|i: int, j: int| 0 <= i < j < locals.len() implies !texts::comes_before(
        (#[trigger] locals[j])@,
        (#[trigger] locals[i])@,
    ) by {
        texts::lemma_precedes(locals[j]@, locals[i]@);
    }
    assert forall|i: int, j: int| 0 <= i < j < outside.len() implies !texts::comes_before(
        (#[trigger] outside[j])@,
        (#[trigger] outside[i])@,
    ) by {
        texts::lemma_precedes(outside[j]@, outside[i]@);
    }
}

} // verus!
