//! The outside servers that a client brings along.
use vstd::prelude::*;

use crate::text::{chars_of, string_from_chars};
use crate::text_map;
use crate::text_map::TextMap;

verus! {

/// A server that a client brings along.
#[derive(Debug)]
pub enum InjectedServer {
    Http { name: String, url: String, headers: Vec<(String, String)> },
    Stdio { name: String, command: String, args: Vec<String>, env: Vec<(String, String)> },
    /// One that is spoken to in a way that is not known.
    Other,
}

/// How a server is spoken to.
pub enum RawTransport {
    Http { url: String, headers: TextMap<String> },
    Stdio { command: Vec<String>, environment: TextMap<String> },
}

/// A letter or a digit of plain text.
pub open spec fn is_plain(c: char) -> bool {
    ('a' <= c && c <= 'z') || ('A' <= c && c <= 'Z') || ('0' <= c && c <= '9')
}

/// The name under which a server is known: its first characters, those that are not plain made
/// hyphens.
pub open spec fn known_name(name: Seq<char>, limit: nat) -> Seq<char> {
    let kept = if name.len() <= limit {
        name
    } else {
        name.take(limit as int)
    };
    kept.map_values(
        |c: char|
            if is_plain(c) {
                c
            } else {
                '-'
            },
    )
}

/// The name under which a server is known.
pub fn server_name(name: &str, limit: usize) -> (result: String)
    ensures
        result@ == known_name(name@, limit as nat),
{
    let chars = chars_of(name);
    let mut kept: Vec<char> = Vec::new();
    let mut i: usize = 0;
    while i < chars.len() && i < limit
        invariant
            i <= chars@.len(),
            i <= limit,
            kept@.len() == i,
            forall|j: int|
                0 <= j < i ==> #[trigger] kept@[j] == (if is_plain(chars@[j]) {
                    chars@[j]
                } else {
                    '-'
                }),
        decreases chars@.len() - i,
    {
        let c = chars[i];
        if ('a' <= c && c <= 'z') || ('A' <= c && c <= 'Z') || ('0' <= c && c <= '9') {
            kept.push(c);
        } else {
            kept.push('-');
        }
        i += 1;
    }
    assert(kept@ =~= known_name(name@, limit as nat));
    string_from_chars(kept.as_slice())
}

/// The map that named values stand for: of two values with one name the later counts.
pub fn pairs(items: &Vec<(String, String)>) -> (result: TextMap<String>)
    ensures
        result@ == text_map::entries_map(items@),
{
    let mut map: TextMap<String> = TextMap::new();
    let mut i: usize = 0;
    assert(items@.take(0) =~= Seq::empty());
    while i < items.len()
        invariant
            i <= items@.len(),
            map@ == text_map::entries_map(items@.take(i as int)),
        decreases items@.len() - i,
    {
        assert(items@.take(i + 1).drop_last() =~= items@.take(i as int));
        map.insert(items[i].0.clone(), items[i].1.clone());
        i += 1;
    }
    assert(items@.take(i as int) =~= items@);
    map
}

/// A server is spoken to as the client says.
pub open spec fn speaks(server: InjectedServer, limit: nat, entry: (String, RawTransport)) -> bool {
    match server {
        InjectedServer::Http { name, url, headers } => {
            &&& entry.0@ == known_name(name@, limit)
            &&& entry.1 matches RawTransport::Http { url: given, headers: map } && given == url
                && map@ == text_map::entries_map(headers@)
        },
        InjectedServer::Stdio { name, command, args, env } => {
            &&& entry.0@ == known_name(name@, limit)
            &&& entry.1 matches RawTransport::Stdio { command: line, environment } && line@
                == seq![command] + args@ && environment@ == text_map::entries_map(env@)
        },
        InjectedServer::Other => false,
    }
}

/// The servers that can be spoken to.
pub open spec fn speakable(servers: Seq<InjectedServer>) -> Seq<InjectedServer> {
    servers.filter(|server: InjectedServer| !(server is Other))
}

/// The servers that a client brings along and that can be spoken to, in order; any other is left
/// out.
pub fn injected_servers(servers: &Vec<InjectedServer>, limit: usize) -> (result: Vec<
    (String, RawTransport),
>)
    ensures
        result@.len() == speakable(servers@).len(),
        forall|i: int|
            0 <= i < result@.len() ==> speaks(
                speakable(servers@)[i],
                limit as nat,
                #[trigger] result@[i],
            ),
{
    let ghost keep = |server: InjectedServer| !(server is Other);
    let mut result: Vec<(String, RawTransport)> = Vec::new();
    let mut i: usize = 0;
    proof {
        reveal(Seq::filter);
        assert(servers@.take(0) =~= Seq::empty());
    }
    while i < servers.len()
        invariant
            i <= servers@.len(),
            keep == (|server: InjectedServer| !(server is Other)),
            result@.len() == servers@.take(i as int).filter(keep).len(),
            forall|j: int|
                0 <= j < result@.len() ==> speaks(
                    servers@.take(i as int).filter(keep)[j],
                    limit as nat,
                    #[trigger] result@[j],
                ),
        decreases servers@.len() - i,
    {
        proof {
            reveal(Seq::filter);
            assert(servers@.take(i + 1).drop_last() =~= servers@.take(i as int));
            assert(servers@.take(i + 1).last() == servers@[i as int]);
        }
        match &servers[i] {
            InjectedServer::Http { name, url, headers } => {
                result.push(
                    (
                        server_name(name.as_str(), limit),
                        RawTransport::Http { url: url.clone(), headers: pairs(headers) },
                    ),
                );
            },
            InjectedServer::Stdio { name, command, args, env } => {
                let line = command_line(command, args);
                result.push(
                    (
                        server_name(name.as_str(), limit),
                        RawTransport::Stdio { command: line, environment: pairs(env) },
                    ),
                );
            },
            InjectedServer::Other => {},
        }
        i += 1;
    }
    assert(servers@.take(i as int) =~= servers@);
    result
}

/// A command and its arguments.
fn command_line(command: &String, args: &Vec<String>) -> (result: Vec<String>)
    ensures
        result@ == seq![*command] + args@,
{
    let mut line: Vec<String> = Vec::new();
    line.push(command.clone());
    let mut i: usize = 0;
    while i < args.len()
        invariant
            i <= args@.len(),
            line@ == seq![*command] + args@.take(i as int),
        decreases args@.len() - i,
    {
        line.push(args[i].clone());
        assert(args@.take(i + 1) =~= args@.take(i as int).push(args@[i as int]));
        assert(line@ =~= seq![*command] + args@.take(i + 1));
        i += 1;
    }
    assert(args@.take(i as int) =~= args@);
    line
}

} // verus!
