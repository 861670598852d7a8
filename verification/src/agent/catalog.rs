//! Every name that an agent can call, each described as the tool that a call would reach.
use vstd::prelude::*;

use crate::agent::events::copy_option;
use crate::agent::routes;
use crate::agent::routes::{
    authorize_advertised, LocalEntry, McpName, NativeEntry, ToolAudience, ToolWorld,
};
use crate::agent::streaming;
use crate::text;
use crate::text::{chars_of, same_text, sort_texts, string_from_chars};

verus! {

/// Where a callable tool comes from.
#[derive(Debug, Clone, Copy, PartialEq, Eq, Structural)]
pub enum ToolSource {
    Local,
    Native,
    Mcp,
}

/// The word for where a tool comes from.
pub open spec fn source_word(source: ToolSource) -> Seq<char> {
    match source {
        ToolSource::Local => "local"@,
        ToolSource::Native => "native"@,
        ToolSource::Mcp => "mcp"@,
    }
}

impl ToolSource {
    /// The word for where a tool comes from.
    pub fn word(self) -> (result: &'static str)
        ensures
            result@ == source_word(self),
    {
        match self {
            ToolSource::Local => "local",
            ToolSource::Native => "native",
            ToolSource::Mcp => "mcp",
        }
    }
}

/// A callable name: whom it is for, the schema of a registered tool's input, and a name that can
/// stand for it where only identifiers can.
#[derive(Debug, PartialEq, Eq)]
pub struct Callable {
    pub name: String,
    pub alias: Option<String>,
    pub source: ToolSource,
    pub audience: ToolAudience,
    pub schema: Option<String>,
}

impl Clone for Callable {
    fn clone(&self) -> (result: Self)
        ensures
            result == *self,
    {
        Callable {
            name: self.name.clone(),
            alias: copy_option(&self.alias),
            source: self.source,
            audience: self.audience,
            schema: copy_option(&self.schema),
        }
    }
}

/// The names of the client's tools.
pub open spec fn local_names(entries: Seq<LocalEntry>) -> Seq<String> {
    entries.map_values(|entry: LocalEntry| entry.name)
}

/// The names of the outside servers' tools.
pub open spec fn mcp_names(names: Seq<McpName>) -> Seq<String> {
    names.map_values(|name: McpName| name.name)
}

/// A client's tool as a callable name.
pub open spec fn local_callable(world: ToolWorld, name: String) -> Callable {
    Callable {
        name,
        alias: None,
        source: ToolSource::Local,
        audience: match routes::local_from(world.local@, name@, 0) {
            Some(tool) => tool.audience,
            None => ToolAudience { bits: u32::MAX },
        },
        schema: None,
    }
}

/// A registered tool as a callable name.
pub open spec fn native_callable(entry: NativeEntry) -> Callable {
    Callable {
        name: entry.name,
        alias: None,
        source: ToolSource::Native,
        audience: entry.tool.audience,
        schema: Some(entry.schema),
    }
}

/// An outside tool as a callable name. Outside servers know no audiences.
pub open spec fn mcp_callable(name: String) -> Callable {
    Callable {
        name,
        alias: None,
        source: ToolSource::Mcp,
        audience: ToolAudience { bits: u32::MAX },
        schema: None,
    }
}

/// All names that there are, in the order in which a call looks for them.
pub open spec fn candidates(world: ToolWorld, locals: Seq<String>, outside: Seq<String>) -> Seq<
    Callable,
> {
    locals.map_values(|name: String| local_callable(world, name)) + world.registry@.map_values(
        |entry: NativeEntry| native_callable(entry),
    ) + outside.map_values(|name: String| mcp_callable(name))
}

/// No name before stands for the same.
pub open spec fn is_first(all: Seq<Callable>, at: int) -> bool {
    forall|j: int| 0 <= j < at ==> (#[trigger] all[j]).name@ != all[at].name@
}

/// A name can be called: a call would reach it first, the agent is among its callers, and the agent
/// may call it. A name that the agent may not call is still taken.
pub open spec fn is_offered(world: ToolWorld, all: Seq<Callable>, at: int) -> bool {
    &&& is_first(all, at)
    &&& all[at].audience.includes(world.audience)
    &&& routes::offers(world, all[at].name@)
}

/// The names among the first so many that can be called, in order.
pub open spec fn offered(world: ToolWorld, all: Seq<Callable>, count: int) -> Seq<Callable>
    decreases count,
{
    if count <= 0 {
        Seq::empty()
    } else {
        let before = offered(world, all, count - 1);
        if is_offered(world, all, count - 1) {
            before.push(all[count - 1])
        } else {
            before
        }
    }
}

/// A letter, a digit or an underscore.
pub open spec fn is_word_char(c: char) -> bool {
    ('a' <= c && c <= 'z') || ('A' <= c && c <= 'Z') || ('0' <= c && c <= '9') || c == '_'
}

/// A name with an underscore for each character that an identifier cannot hold.
pub open spec fn underscored(name: Seq<char>) -> Seq<char> {
    name.map_values(
        |c: char|
            if is_word_char(c) {
                c
            } else {
                '_'
            },
    )
}

/// The identifier that can stand for a name that is none: there is none for an empty name and for
/// one that begins with a digit.
pub open spec fn alias_text(name: Seq<char>) -> Option<Seq<char>> {
    if name.len() == 0 || ('0' <= name[0] && name[0] <= '9') || underscored(name) == name {
        None
    } else {
        Some(underscored(name))
    }
}

/// Whether a character is a letter, a digit or an underscore.
fn word_char(c: char) -> (result: bool)
    ensures
        result == is_word_char(c),
{
    ('a' <= c && c <= 'z') || ('A' <= c && c <= 'Z') || ('0' <= c && c <= '9') || c == '_'
}

/// The identifier that can stand for a name that is none.
pub fn identifier_alias(name: &str) -> (result: Option<String>)
    ensures
        match alias_text(name@) {
            Some(alias) => result is Some && result->0@ == alias,
            None => result is None,
        },
{
    let chars = chars_of(name);
    if chars.len() == 0 {
        return None;
    }
    if '0' <= chars[0] && chars[0] <= '9' {
        return None;
    }
    let mut alias: Vec<char> = Vec::new();
    let mut changed = false;
    let mut i: usize = 0;
    assert(underscored(chars@.take(0)) =~= chars@.take(0));
    while i < chars.len()
        invariant
            i <= chars@.len(),
            alias@ == underscored(chars@.take(i as int)),
            changed == (underscored(chars@.take(i as int)) != chars@.take(i as int)),
        decreases chars@.len() - i,
    {
        let c = chars[i];
        let ghost shorter = chars@.take(i as int);
        let ghost longer = chars@.take(i + 1);
        assert(longer =~= shorter.push(c));
        if word_char(c) {
            alias.push(c);
        } else {
            alias.push('_');
            changed = true;
        }
        assert(alias@ =~= underscored(longer));
        proof {
            assert(underscored(longer) =~= underscored(shorter).push(alias@.last()));
            if underscored(longer) == longer {
                assert(underscored(longer).drop_last() =~= underscored(shorter));
                assert(longer.drop_last() =~= shorter);
                assert(underscored(longer)[i as int] == longer[i as int]);
            }
        }
        i += 1;
    }
    assert(chars@.take(i as int) =~= chars@);
    if changed {
        Some(string_from_chars(alias.as_slice()))
    } else {
        None
    }
}

/// Nothing else is called by an alias: no tool has it for a name, and no other for an alias.
pub open spec fn is_unambiguous(tools: Seq<Callable>, at: int, alias: Seq<char>) -> bool {
    forall|j: int|
        0 <= j < tools.len() ==> (#[trigger] tools[j]).name@ != alias && (j != at ==> alias_text(
            tools[j].name@,
        ) != Some(alias))
}

/// A tool gets the alias that its name has, where nothing else is called by it; otherwise it keeps
/// what it had.
pub open spec fn gets_alias(tools: Seq<Callable>, at: int, named: Callable) -> bool {
    let alias = alias_text(tools[at].name@);
    &&& named == (Callable { alias: named.alias, ..tools[at] })
    &&& if alias is Some && is_unambiguous(tools, at, alias->0) {
        named.alias is Some && named.alias->0@ == alias->0
    } else {
        named.alias == tools[at].alias
    }
}

/// Whether nothing else is called by an alias.
fn unambiguous(tools: &Vec<Callable>, at: usize, alias: &str) -> (result: bool)
    requires
        at < tools@.len(),
    ensures
        result == is_unambiguous(tools@, at as int, alias@),
{
    let mut j: usize = 0;
    while j < tools.len()
        invariant
            j <= tools@.len(),
            forall|k: int|
                0 <= k < j ==> (#[trigger] tools@[k]).name@ != alias@ && (k != at ==> alias_text(
                    tools@[k].name@,
                ) != Some(alias@)),
        decreases tools@.len() - j,
    {
        if same_text(tools[j].name.as_str(), alias) {
            assert(tools@[j as int].name@ == alias@);
            return false;
        }
        if j != at {
            match identifier_alias(tools[j].name.as_str()) {
                Some(other) => {
                    if same_text(other.as_str(), alias) {
                        assert(alias_text(tools@[j as int].name@) == Some(alias@));
                        return false;
                    }
                },
                None => {},
            }
        }
        j += 1;
    }
    true
}

/// Gives tools the aliases that their names have. Where two would share one, neither gets it.
pub fn assign_aliases(tools: &Vec<Callable>) -> (result: Vec<Callable>)
    ensures
        result@.len() == tools@.len(),
        forall|i: int| 0 <= i < tools@.len() ==> gets_alias(tools@, i, #[trigger] result@[i]),
{
    let mut named: Vec<Callable> = Vec::new();
    let mut i: usize = 0;
    while i < tools.len()
        invariant
            i <= tools@.len(),
            named@.len() == i,
            forall|j: int| 0 <= j < i ==> gets_alias(tools@, j, #[trigger] named@[j]),
        decreases tools@.len() - i,
    {
        let mut tool = tools[i].clone();
        match identifier_alias(tool.name.as_str()) {
            Some(alias) => {
                if unambiguous(tools, i, alias.as_str()) {
                    tool.alias = Some(alias);
                }
            },
            None => {},
        }
        named.push(tool);
        i += 1;
    }
    named
}

/// The audience of the client's first tool of a name.
fn local_audience(entries: &Vec<LocalEntry>, name: &str) -> (result: ToolAudience)
    ensures
        result == match routes::local_from(entries@, name@, 0) {
            Some(tool) => tool.audience,
            None => ToolAudience { bits: u32::MAX },
        },
{
    let mut i: usize = 0;
    while i < entries.len() && !same_text(entries[i].name.as_str(), name)
        invariant
            i <= entries@.len(),
            routes::local_from(entries@, name@, 0) == routes::local_from(
                entries@,
                name@,
                i as int,
            ),
        decreases entries@.len() - i,
    {
        i += 1;
    }
    if i < entries.len() {
        entries[i].tool.audience
    } else {
        ToolAudience::all()
    }
}

/// All names that there are, in the order in which a call looks for them.
fn all_candidates(world: &ToolWorld, locals: &Vec<String>, outside: &Vec<String>)
    -> (result: Vec<Callable>)
    ensures
        result@ == candidates(*world, locals@, outside@),
{
    let mut all: Vec<Callable> = Vec::new();
    let mut i: usize = 0;
    let ghost first = locals@.map_values(|name: String| local_callable(*world, name));
    let ghost second = world.registry@.map_values(|entry: NativeEntry| native_callable(entry));
    let ghost third = outside@.map_values(|name: String| mcp_callable(name));
    assert(first.take(0) =~= all@);
    while i < locals.len()
        invariant
            i <= locals@.len(),
            first == locals@.map_values(|name: String| local_callable(*world, name)),
            all@ == first.take(i as int),
        decreases locals@.len() - i,
    {
        let name = locals[i].clone();
        let audience = local_audience(&world.local, name.as_str());
        all.push(
            Callable { name, alias: None, source: ToolSource::Local, audience, schema: None },
        );
        i += 1;
        assert(all@ =~= first.take(i as int));
    }
    let mut j: usize = 0;
    assert(all@ =~= first + second.take(0));
    while j < world.registry.len()
        invariant
            j <= world.registry@.len(),
            second == world.registry@.map_values(|entry: NativeEntry| native_callable(entry)),
            all@ == first + second.take(j as int),
        decreases world.registry@.len() - j,
    {
        let entry = &world.registry[j];
        all.push(
            Callable {
                name: entry.name.clone(),
                alias: None,
                source: ToolSource::Native,
                audience: entry.tool.audience,
                schema: Some(entry.schema.clone()),
            },
        );
        j += 1;
        assert(all@ =~= first + second.take(j as int));
    }
    let mut k: usize = 0;
    assert(all@ =~= first + second + third.take(0));
    while k < outside.len()
        invariant
            k <= outside@.len(),
            third == outside@.map_values(|name: String| mcp_callable(name)),
            all@ == first + second + third.take(k as int),
        decreases outside@.len() - k,
    {
        all.push(
            Callable {
                name: outside[k].clone(),
                alias: None,
                source: ToolSource::Mcp,
                audience: ToolAudience::all(),
                schema: None,
            },
        );
        k += 1;
        assert(all@ =~= first + second + third.take(k as int));
    }
    assert(third.take(k as int) =~= third);
    all
}

/// Whether no name before stands for the same.
fn first_of_name(all: &Vec<Callable>, at: usize) -> (result: bool)
    requires
        at < all@.len(),
    ensures
        result == is_first(all@, at as int),
{
    let mut j: usize = 0;
    while j < at
        invariant
            j <= at < all@.len(),
            forall|k: int| 0 <= k < j ==> (#[trigger] all@[k]).name@ != all@[at as int].name@,
        decreases at - j,
    {
        if same_text(all[j].name.as_str(), all[at].name.as_str()) {
            assert(all@[j as int].name@ == all@[at as int].name@);
            return false;
        }
        j += 1;
    }
    true
}

/// The names that can be called, given those of the client and of the outside servers in order.
pub fn callable_among(world: &ToolWorld, locals: &Vec<String>, outside: &Vec<String>)
    -> (result: Vec<Callable>)
    ensures
        names_all(offered_names(*world, locals@, outside@), result@),
{
    let all = all_candidates(world, locals, outside);
    let mut found: Vec<Callable> = Vec::new();
    let mut i: usize = 0;
    while i < all.len()
        invariant
            i <= all@.len(),
            found@ == offered(*world, all@, i as int),
        decreases all@.len() - i,
    {
        if first_of_name(&all, i) && all[i].audience.contains(world.audience)
            && authorize_advertised(world, all[i].name.as_str()) {
            found.push(all[i].clone());
        }
        i += 1;
    }
    assign_aliases(&found)
}

/// The names that can be called, before they get aliases.
pub open spec fn offered_names(world: ToolWorld, locals: Seq<String>, outside: Seq<String>) -> Seq<
    Callable,
> {
    let all = candidates(world, locals, outside);
    offered(world, all, all.len() as int)
}

/// Names with the aliases that they get.
pub open spec fn names_all(tools: Seq<Callable>, named: Seq<Callable>) -> bool {
    &&& named.len() == tools.len()
    &&& forall|i: int| 0 <= i < tools.len() ==> gets_alias(tools, i, #[trigger] named[i])
}

/// The names of the outside servers' tools and of the search among them.
pub open spec fn are_outside_names(world: ToolWorld, names: Seq<String>) -> bool {
    match world.mcp {
        Some(catalog) => {
            &&& names.len() == catalog.names@.len() + 1
            &&& names.drop_last() == mcp_names(catalog.names@)
            &&& names.last()@ == routes::search_name()
        },
        None => names.len() == 0,
    }
}

/// The names that can be called, those of the client and of the outside servers in the order of
/// text.
pub open spec fn lists_callables(world: ToolWorld, result: Seq<Callable>) -> bool {
    exists|locals: Seq<String>, names: Seq<String>, outside: Seq<String>|
        #![trigger text::is_sorted_copy(locals, local_names(world.local@)), text::is_sorted_copy(outside, names)]
        {
            &&& text::is_sorted_copy(locals, local_names(world.local@))
            &&& are_outside_names(world, names)
            &&& text::is_sorted_copy(outside, names)
            &&& names_all(offered_names(world, locals, outside), result)
        }
}

/// Every name that the agent can call, each once, described as the tool that a call would reach.
pub fn callable(world: &ToolWorld) -> (result: Vec<Callable>)
    ensures
        lists_callables(*world, result@),
{
    let mut names: Vec<String> = Vec::new();
    let mut i: usize = 0;
    assert(local_names(world.local@).take(0) =~= names@);
    while i < world.local.len()
        invariant
            i <= world.local@.len(),
            names@ == local_names(world.local@).take(i as int),
        decreases world.local@.len() - i,
    {
        names.push(world.local[i].name.clone());
        i += 1;
        assert(names@ =~= local_names(world.local@).take(i as int));
    }
    assert(names@ =~= local_names(world.local@));
    let locals = sort_texts(&names);
    let mut outside_names: Vec<String> = Vec::new();
    match &world.mcp {
        Some(catalog) => {
            let mut k: usize = 0;
            assert(mcp_names(catalog.names@).take(0) =~= outside_names@);
            while k < catalog.names.len()
                invariant
                    k <= catalog.names@.len(),
                    outside_names@ == mcp_names(catalog.names@).take(k as int),
                decreases catalog.names@.len() - k,
            {
                outside_names.push(catalog.names[k].name.clone());
                k += 1;
                assert(outside_names@ =~= mcp_names(catalog.names@).take(k as int));
            }
            outside_names.push("tool_search".to_owned());
            assert(outside_names@.drop_last() =~= mcp_names(catalog.names@));
        },
        None => {},
    }
    let outside = sort_texts(&outside_names);
    assert(text::is_sorted_copy(locals@, local_names(world.local@)));
    assert(text::is_sorted_copy(outside@, outside_names@));
    callable_among(world, &locals, &outside)
}

/// What is offered was a candidate, the first of its name, that the agent may call.
proof fn lemma_offered(world: ToolWorld, all: Seq<Callable>, count: int, i: int)
    requires
        0 <= count <= all.len(),
        0 <= i < offered(world, all, count).len(),
    ensures
        exists|at: int|
            0 <= at < count && #[trigger] is_offered(world, all, at) && all[at] == offered(
                world,
                all,
                count,
            )[i],
    decreases count,
{
    if count > 0 {
        let before = offered(world, all, count - 1);
        if i < before.len() {
            lemma_offered(world, all, count - 1, i);
        } else {
            assert(is_offered(world, all, count - 1));
        }
    }
}

/// A name that leads to a client's tool is among the names of those.
proof fn lemma_local_found(entries: Seq<LocalEntry>, name: Seq<char>, from: int)
    requires
        0 <= from,
    ensures
        match routes::local_from(entries, name, from) {
            Some(tool) => exists|i: int|
                from <= i < entries.len() && #[trigger] entries[i].name@ == name && entries[i].tool
                    == tool,
            None => forall|i: int|
                from <= i < entries.len() ==> (#[trigger] entries[i]).name@ != name,
        },
    decreases entries.len() - from,
{
    if from < entries.len() && entries[from].name@ != name {
        lemma_local_found(entries, name, from + 1);
    }
}

/// The first registered tool of a name is found.
proof fn lemma_native_found(entries: Seq<NativeEntry>, name: Seq<char>, from: int, at: int)
    requires
        0 <= from <= at < entries.len(),
        entries[at].name@ == name,
        forall|i: int| from <= i < at ==> (#[trigger] entries[i]).name@ != name,
    ensures
        routes::native_from(entries, name, from) == Some(entries[at].tool),
    decreases at - from,
{
    if from < at {
        lemma_native_found(entries, name, from + 1, at);
    }
}

/// A registered tool of no entry's name is not found.
proof fn lemma_native_absent(entries: Seq<NativeEntry>, name: Seq<char>, from: int)
    requires
        0 <= from,
        forall|i: int| from <= i < entries.len() ==> (#[trigger] entries[i]).name@ != name,
    ensures
        routes::native_from(entries, name, from) is None,
    decreases entries.len() - from,
{
    if from < entries.len() {
        lemma_native_absent(entries, name, from + 1);
    }
}

/// An entry of the list describes the tool that a call of its name reaches: where it says that the
/// client brings it, the name leads to the client's tool of that audience; where it says that it is
/// registered, to the registered tool of that audience; and where it says that it is an outside
/// one, to an outside server or the search among their tools. A name that is not canonical is left
/// out, because a call looks for the canonical one.
pub proof fn law_entries_describe_what_runs(
    world: ToolWorld,
    locals: Seq<String>,
    outside: Seq<String>,
    i: int,
)
    requires
        text::is_sorted_copy(locals, local_names(world.local@)),
        0 <= i < offered_names(world, locals, outside).len(),
        streaming::canonical_name(offered_names(world, locals, outside)[i].name@)
            == offered_names(world, locals, outside)[i].name@,
    ensures
        ({
            let entry = offered_names(world, locals, outside)[i];
            let route = routes::route_of(world, entry.name@);
            &&& routes::offers(world, entry.name@)
            &&& match entry.source {
                ToolSource::Local => route is Local && route->Local_0.audience == entry.audience,
                ToolSource::Native => route is Native && route->Native_0.audience
                    == entry.audience,
                ToolSource::Mcp => route is Mcp || route is ToolSearch,
            }
        }),
{
    let all = candidates(world, locals, outside);
    lemma_offered(world, all, all.len() as int, i);
    let at = choose|at: int|
        0 <= at < all.len() && #[trigger] is_offered(world, all, at) && all[at] == offered(
            world,
            all,
            all.len() as int,
        )[i];
    let name = all[at].name@;
    let n = locals.len() as int;
    let m = world.registry@.len() as int;
    lemma_local_found(world.local@, name, 0);
    vstd::seq_lib::to_multiset_contains::<String>(locals, all[at].name);
    vstd::seq_lib::to_multiset_contains::<String>(local_names(world.local@), all[at].name);
    if at < n {
        assert(all[at] == local_callable(world, locals[at]));
        assert(locals.contains(all[at].name));
        assert(local_names(world.local@).contains(all[at].name));
        let k = choose|k: int|
            0 <= k < local_names(world.local@).len() && local_names(world.local@)[k]
                == all[at].name;
        assert(world.local@[k].name@ == name);
    } else {
        // No client's tool has the name: it would have come first.
        assert(routes::local_from(world.local@, name, 0) is None) by {
            if routes::local_from(world.local@, name, 0) is Some {
                let k = choose|k: int|
                    0 <= k < world.local@.len() && #[trigger] world.local@[k].name@ == name;
                let own = local_names(world.local@)[k];
                assert(local_names(world.local@).contains(own));
                vstd::seq_lib::to_multiset_contains::<String>(local_names(world.local@), own);
                vstd::seq_lib::to_multiset_contains::<String>(locals, own);
                assert(locals.contains(own));
                let j = choose|j: int| 0 <= j < locals.len() && locals[j] == own;
                assert(all[j] == local_callable(world, locals[j]));
                assert(all[j].name@ == name);
            }
        }
        if at < n + m {
            assert(all[at] == native_callable(world.registry@[at - n]));
            assert forall|k: int| 0 <= k < at - n implies (#[trigger] world.registry@[k]).name@
                != name by {
                assert(all[n + k] == native_callable(world.registry@[k]));
            }
            lemma_native_found(world.registry@, name, 0, at - n);
        } else {
            assert(all[at] == mcp_callable(outside[at - n - m]));
            assert forall|k: int| 0 <= k < m implies (#[trigger] world.registry@[k]).name@
                != name by {
                assert(all[n + k] == native_callable(world.registry@[k]));
            }
            lemma_native_absent(world.registry@, name, 0);
            assert(routes::is_available(world, name, routes::route_of(world, name)));
        }
    }
}

/// Every position of what is offered comes from a position of its own, in order.
proof fn lemma_offered_in_order(world: ToolWorld, all: Seq<Callable>, count: int, i: int, j: int)
    requires
        0 <= count <= all.len(),
        0 <= i < j < offered(world, all, count).len(),
    ensures
        offered(world, all, count)[i].name@ != offered(world, all, count)[j].name@,
    decreases count,
{
    if count > 0 {
        let before = offered(world, all, count - 1);
        if j < before.len() {
            lemma_offered_in_order(world, all, count - 1, i, j);
        } else {
            lemma_offered(world, all, count - 1, i);
            let at = choose|at: int|
                0 <= at < count - 1 && #[trigger] is_offered(world, all, at) && all[at]
                    == before[i];
            assert(is_first(all, count - 1));
            assert(all[at].name@ != all[count - 1].name@);
        }
    }
}

/// No name is listed twice.
pub proof fn law_names_are_listed_once(
    world: ToolWorld,
    locals: Seq<String>,
    outside: Seq<String>,
    i: int,
    j: int,
)
    requires
        0 <= i < j < offered_names(world, locals, outside).len(),
    ensures
        offered_names(world, locals, outside)[i].name@ != offered_names(
            world,
            locals,
            outside,
        )[j].name@,
{
    let all = candidates(world, locals, outside);
    lemma_offered_in_order(world, all, all.len() as int, i, j);
}

/// An alias that is given stands for one tool: it is no tool's name and no other tool's alias.
pub proof fn law_aliases_are_unambiguous(tools: Seq<Callable>, named: Seq<Callable>, i: int, j: int)
    requires
        forall|k: int| 0 <= k < tools.len() ==> (#[trigger] tools[k]).alias is None,
        names_all(tools, named),
        0 <= i < tools.len(),
        0 <= j < tools.len(),
        named[i].alias is Some,
    ensures
        named[j].name@ != named[i].alias->0@,
        i != j && named[j].alias is Some ==> named[j].alias->0@ != named[i].alias->0@,
{
    assert(gets_alias(tools, i, named[i]));
    assert(gets_alias(tools, j, named[j]));
    assert(tools[i].alias is None);
    assert(tools[j].alias is None);
    assert(tools[j].name@ != named[i].alias->0@);
}

} // verus!
