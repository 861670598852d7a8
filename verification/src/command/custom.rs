//! The user's own commands.
use vstd::prelude::*;

use crate::command::frontmatter;
use crate::command::frontmatter::{parse_frontmatter, Frontmatter};
use crate::text;
use crate::text::{find_text, replace_text, same_text, text_before};
use crate::types::{AgentTurn, CommandAttachment, CommandContent};

verus! {

/// Where a command comes from.
#[derive(Debug, Clone, Copy, PartialEq, Eq, Structural)]
pub enum CommandScope {
    Project,
    User,
}

/// A command that the user has written down.
#[derive(Debug, PartialEq, Eq)]
pub struct CustomCommand {
    pub name: String,
    pub description: String,
    pub content: String,
    pub scope: CommandScope,
    pub accepts_args: bool,
    pub argument_hint: Option<String>,
}

/// The words that a command is called by.
pub open spec fn shown_name(scope: CommandScope, name: Seq<char>) -> Seq<char> {
    match scope {
        CommandScope::Project => "/project:"@ + name,
        CommandScope::User => "/user:"@ + name,
    }
}

impl CustomCommand {
    /// The words that the command is called by.
    pub fn display_name(&self) -> (result: String)
        ensures
            result@ == shown_name(self.scope, self.name@),
    {
        let mut shown = match self.scope {
            CommandScope::Project => "/project:".to_owned(),
            CommandScope::User => "/user:".to_owned(),
        };
        shown.append(self.name.as_str());
        shown
    }

    /// Whether the command takes arguments.
    pub fn has_args(&self) -> (result: bool)
        ensures
            result == self.accepts_args,
    {
        self.accepts_args
    }

    /// What the command says with arguments in the place that it holds for them.
    pub fn render(&self, args: &str) -> (result: String)
        ensures
            result@ == text::replaced(self.content@, "$ARGUMENTS"@, args@),
    {
        replace_text(self.content.as_str(), "$ARGUMENTS", args)
    }

    /// The turn that the command asks for.
    pub fn execute(&self, arguments: &str, attachments: Vec<CommandAttachment>)
        -> (result: AgentTurn)
        ensures
            result.content.text@ == text::replaced(self.content@, "$ARGUMENTS"@, arguments@),
            result.content.attachments == attachments,
            result.prompt is None,
    {
        AgentTurn {
            content: CommandContent { text: self.render(arguments), attachments },
            prompt: None,
        }
    }
}

/// A text holds another.
pub open spec fn mentions(whole: Seq<char>, part: Seq<char>) -> bool {
    text::first_occurrence(whole, part) is Some
}

/// A command is what its file says, where its heading was read as `read`.
pub open spec fn reads_as(
    content: Seq<char>,
    file_stem: Seq<char>,
    scope: CommandScope,
    read: Option<Frontmatter>,
    command: CustomCommand,
) -> bool {
    let body = frontmatter::body_text(content);
    let heading = if frontmatter::heading_text(content) is Some {
        read
    } else {
        None
    };
    &&& match heading {
        Some(Frontmatter { name: Some(name), .. }) => command.name == name,
        _ => command.name@ == file_stem,
    }
    &&& match heading {
        Some(Frontmatter { description: Some(description), .. }) => command.description
            == description,
        _ => command.description@.len() == 0,
    }
    &&& command.content@ == body
    &&& command.scope == scope
    &&& command.accepts_args == (command.argument_hint is Some || mentions(body, "$ARGUMENTS"@))
    &&& command.argument_hint == match heading {
        Some(read) => read.argument_hint,
        None => None,
    }
}

/// The command that a file holds, given what its heading was read as. A file without a name for
/// its command, and one without a body, holds none.
pub fn parse_command(
    content: &str,
    file_stem: Option<&str>,
    scope: CommandScope,
    read: Option<Frontmatter>,
) -> (result: Option<CustomCommand>)
    requires
        frontmatter::heading_can_be_cut(content@),
    ensures
        match result {
            Some(command) => {
                &&& file_stem is Some
                &&& frontmatter::body_text(content@).len() > 0
                &&& reads_as(content@, file_stem->0@, scope, read, command)
            },
            None => file_stem is None || frontmatter::body_text(content@).len() == 0,
        },
{
    let name_from_file = match file_stem {
        Some(stem) => stem.to_owned(),
        None => {
            return None;
        },
    };
    let parsed = parse_frontmatter(content, read);
    let heading = parsed.frontmatter;
    if parsed.body.as_str().is_empty() {
        return None;
    }
    let accepts_args = heading.argument_hint.is_some() || find_text(
        parsed.body.as_str(),
        "$ARGUMENTS",
    ).is_some();
    assert(frontmatter::says(content@, read, heading));
    Some(
        CustomCommand {
            name: match heading.name {
                Some(name) => name,
                None => name_from_file,
            },
            description: match heading.description {
                Some(description) => description,
                None => String::new(),
            },
            content: parsed.body,
            scope,
            accepts_args,
            argument_hint: heading.argument_hint,
        },
    )
}

/// Whether a file with that extension holds a command.
pub fn is_command_file(extension: Option<&str>) -> (result: bool)
    ensures
        result == (extension is Some && extension->0@ == "md"@),
{
    match extension {
        Some(extension) => same_text(extension, "md"),
        None => false,
    }
}

/// A directory above the working directory, and whether a repository begins in it.
#[derive(Debug)]
pub struct AncestorDir {
    pub path: String,
    pub has_git: bool,
}

/// How many of the directories above belong to the project: all up to and with the first in which
/// a repository begins.
pub open spec fn project_depth(dirs: Seq<AncestorDir>) -> nat
    decreases dirs.len(),
{
    if dirs.len() == 0 {
        0
    } else if dirs[0].has_git {
        1
    } else {
        1 + project_depth(dirs.skip(1))
    }
}

/// The directories of the project, from the working directory up.
pub fn find_project_ancestor_dirs(dirs: &Vec<AncestorDir>) -> (result: Vec<String>)
    ensures
        result@.len() == project_depth(dirs@),
        result@.len() <= dirs@.len(),
        forall|i: int| 0 <= i < result@.len() ==> #[trigger] result@[i] == dirs@[i].path,
{
    let mut found: Vec<String> = Vec::new();
    let mut i: usize = 0;
    assert(dirs@.skip(0) =~= dirs@);
    while i < dirs.len()
        invariant
            i <= dirs@.len(),
            found@.len() == i,
            project_depth(dirs@) == i + project_depth(dirs@.skip(i as int)),
            forall|j: int| 0 <= j < i ==> #[trigger] found@[j] == dirs@[j].path,
        decreases dirs@.len() - i,
    {
        found.push(dirs[i].path.clone());
        assert(dirs@.skip(i as int).skip(1) =~= dirs@.skip(i + 1));
        if dirs[i].has_git {
            return found;
        }
        i += 1;
    }
    found
}

/// A directory that is looked through for commands: `below` stands below `base`, or is empty where
/// `base` itself is looked through.
#[derive(Debug)]
pub struct CommandDir {
    pub base: String,
    pub below: String,
    pub scope: CommandScope,
}

/// A directory to look through.
pub open spec fn looks_through(
    dir: CommandDir,
    base: Seq<char>,
    below: Seq<char>,
    scope: CommandScope,
) -> bool {
    dir.base@ == base && dir.below@ == below && dir.scope == scope
}

/// Where the directories of the project begin: behind those of the user and the user's home.
pub open spec fn project_start(user_dirs: Seq<String>, home: Option<Seq<char>>) -> int {
    if home is Some {
        user_dirs.len() as int + 1
    } else {
        user_dirs.len() as int
    }
}

/// The directories that are looked through, in order.
pub open spec fn are_command_dirs(
    dirs: Seq<CommandDir>,
    user_dirs: Seq<String>,
    home: Option<Seq<char>>,
    project: Seq<String>,
    shared: Seq<char>,
) -> bool {
    let start = project_start(user_dirs, home);
    &&& dirs.len() == start + 2 * project.len()
    &&& forall|i: int|
        0 <= i < user_dirs.len() ==> looks_through(
            #[trigger] dirs[i],
            user_dirs[i]@,
            Seq::empty(),
            CommandScope::User,
        )
    &&& home is Some ==> looks_through(
        dirs[user_dirs.len() as int],
        home->0,
        shared,
        CommandScope::User,
    )
    &&& forall|i: int|
        0 <= i < project.len() ==> {
            &&& looks_through(
                #[trigger] dirs[start + 2 * i],
                project[i]@,
                ".makima/commands"@,
                CommandScope::Project,
            )
            &&& looks_through(
                dirs[start + 2 * i + 1],
                project[i]@,
                shared,
                CommandScope::Project,
            )
        }
}

/// The directories that are looked through, in order; what is found later stands before what was
/// found earlier. The user's configuration comes first, then what lies in the user's home, then
/// the project from the working directory up, in each place the own directory before `shared`, the
/// one that other tools keep commands in.
pub fn command_dirs(
    user_dirs: &Vec<String>,
    home: Option<&str>,
    project: &Vec<String>,
    shared: &str,
) -> (result: Vec<CommandDir>)
    ensures
        are_command_dirs(
            result@,
            user_dirs@,
            match home {
                Some(home) => Some(home@),
                None => None,
            },
            project@,
            shared@,
        ),
{
    let mut dirs: Vec<CommandDir> = Vec::new();
    let mut i: usize = 0;
    while i < user_dirs.len()
        invariant
            i <= user_dirs@.len(),
            dirs@.len() == i,
            forall|j: int|
                0 <= j < i ==> looks_through(
                    #[trigger] dirs@[j],
                    user_dirs@[j]@,
                    Seq::empty(),
                    CommandScope::User,
                ),
        decreases user_dirs@.len() - i,
    {
        dirs.push(
            CommandDir {
                base: user_dirs[i].clone(),
                below: String::new(),
                scope: CommandScope::User,
            },
        );
        i += 1;
    }
    match home {
        Some(home) => {
            dirs.push(
                CommandDir {
                    base: home.to_owned(),
                    below: shared.to_owned(),
                    scope: CommandScope::User,
                },
            );
        },
        None => {},
    }
    let ghost head = dirs@;
    let ghost start = dirs@.len() as int;
    let mut k: usize = 0;
    while k < project.len()
        invariant
            k <= project@.len(),
            head.len() == start,
            dirs@.len() == start + 2 * k,
            forall|j: int| 0 <= j < start ==> #[trigger] dirs@[j] == head[j],
            forall|j: int|
                0 <= j < k ==> {
                    &&& looks_through(
                        #[trigger] dirs@[start + 2 * j],
                        project@[j]@,
                        ".makima/commands"@,
                        CommandScope::Project,
                    )
                    &&& looks_through(
                        dirs@[start + 2 * j + 1],
                        project@[j]@,
                        shared@,
                        CommandScope::Project,
                    )
                },
        decreases project@.len() - k,
    {
        dirs.push(
            CommandDir {
                base: project[k].clone(),
                below: ".makima/commands".to_owned(),
                scope: CommandScope::Project,
            },
        );
        dirs.push(
            CommandDir {
                base: project[k].clone(),
                below: shared.to_owned(),
                scope: CommandScope::Project,
            },
        );
        k += 1;
    }
    dirs
}

/// The names of commands come in order, each once.
pub open spec fn in_order(commands: Seq<CustomCommand>) -> bool {
    forall|i: int, j: int|
        0 <= i < j < commands.len() ==> text::precedes(
            (#[trigger] commands[i]).name@,
            (#[trigger] commands[j]).name@,
        )
}

/// `at` is where the last command of that name stands.
pub open spec fn last_of_name(found: Seq<CustomCommand>, at: int) -> bool {
    &&& 0 <= at < found.len()
    &&& forall|j: int| at < j < found.len() ==> (#[trigger] found[j]).name@ != found[at].name@
}

/// A command is the last of its name.
pub open spec fn is_last(found: Seq<CustomCommand>, command: CustomCommand) -> bool {
    exists|at: int| #[trigger] last_of_name(found, at) && found[at] == command
}

/// Some command has that name.
pub open spec fn is_named(commands: Seq<CustomCommand>, name: Seq<char>) -> bool {
    exists|i: int| 0 <= i < commands.len() && (#[trigger] commands[i]).name@ == name
}

/// `kept` holds, of all the commands of each name in `found`, the last.
pub open spec fn keeps_last(found: Seq<CustomCommand>, kept: Seq<CustomCommand>) -> bool {
    &&& forall|i: int| 0 <= i < kept.len() ==> #[trigger] is_last(found, kept[i])
    &&& forall|at: int| 0 <= at < found.len() ==> #[trigger] is_named(kept, found[at].name@)
}

/// Where a command belongs among commands in order: before the first whose name does not come
/// before its own.
fn place_of(commands: &Vec<CustomCommand>, name: &String) -> (result: usize)
    requires
        in_order(commands@),
    ensures
        result <= commands@.len(),
        forall|i: int| 0 <= i < result ==> text::precedes((#[trigger] commands@[i]).name@, name@),
        forall|i: int|
            result <= i < commands@.len() ==> !text::precedes(
                (#[trigger] commands@[i]).name@,
                name@,
            ),
{
    let mut at: usize = 0;
    while at < commands.len() && text_before(commands[at].name.as_str(), name.as_str())
        invariant
            at <= commands@.len(),
            forall|i: int| 0 <= i < at ==> text::precedes((#[trigger] commands@[i]).name@, name@),
        decreases commands@.len() - at,
    {
        at += 1;
    }
    assert forall|i: int| at <= i < commands@.len() implies !text::precedes(
        (#[trigger] commands@[i]).name@,
        name@,
    ) by {
        if i > at && text::precedes(commands@[i].name@, name@) {
            assert(text::precedes(commands@[at as int].name@, commands@[i].name@));
            text::lemma_precedes_transitive(
                commands@[at as int].name@,
                commands@[i].name@,
                name@,
            );
        }
    }
    at
}

/// The commands that are found, in the order of their names: of those with one name the last.
pub fn discover_commands(found: Vec<CustomCommand>) -> (result: Vec<CustomCommand>)
    ensures
        in_order(result@),
        keeps_last(found@, result@),
{
    let ghost all = found@;
    let mut rest = crate::text_map::reversed(found);
    let mut kept: Vec<CustomCommand> = Vec::new();
    let ghost mut done: int = 0;
    while rest.len() > 0
        invariant
            0 <= done <= all.len(),
            rest@.len() == all.len() - done,
            forall|j: int| 0 <= j < rest@.len() ==> rest@[j] == all[all.len() - 1 - j],
            in_order(kept@),
            keeps_last(all.take(done), kept@),
        decreases rest@.len(),
    {
        match rest.pop() {
            Some(command) => {
                assert(command == all[done]);
                let ghost before = kept@;
                let at: usize = place_of(&kept, &command.name);
                let replaces = at < kept.len() && same_text(
                    kept[at].name.as_str(),
                    command.name.as_str(),
                );
                if replaces {
                    kept.set(at, command);
                    assert(kept@ =~= before.update(at as int, command));
                    assert(in_order(kept@)) by {
                        assert forall|i: int, j: int| 0 <= i < j < kept@.len() implies
                            text::precedes(
                            (#[trigger] kept@[i]).name@,
                            (#[trigger] kept@[j]).name@,
                        ) by {
                            assert(text::precedes(before[i].name@, before[j].name@));
                        }
                    }
                } else {
                    kept.insert(at, command);
                    assert(kept@ =~= before.insert(at as int, command));
                    assert(in_order(kept@)) by {
                        lemma_insert_in_order(before, at as int, command);
                    }
                }
                proof {
                    lemma_keeps_last_step(all.take(done), before, command, at as int, replaces);
                    assert(all.take(done + 1) =~= all.take(done).push(command));
                    done = done + 1;
                }
            },
            None => {},
        }
    }
    assert(all.take(done) =~= all);
    kept
}

/// A command put in its place leaves commands in order.
proof fn lemma_insert_in_order(before: Seq<CustomCommand>, at: int, command: CustomCommand)
    requires
        in_order(before),
        0 <= at <= before.len(),
        forall|i: int|
            0 <= i < at ==> text::precedes((#[trigger] before[i]).name@, command.name@),
        forall|i: int|
            at <= i < before.len() ==> !text::precedes(
                (#[trigger] before[i]).name@,
                command.name@,
            ),
        at < before.len() ==> before[at].name@ != command.name@,
    ensures
        in_order(before.insert(at, command)),
{
    let after = before.insert(at, command);
    assert forall|i: int, j: int| 0 <= i < j < after.len() implies text::precedes(
        (#[trigger] after[i]).name@,
        (#[trigger] after[j]).name@,
    ) by {
        if i < at && j < at {
            assert(after[i] == before[i] && after[j] == before[j]);
        } else if i < at && j == at {
            assert(after[i] == before[i]);
        } else if i < at && j > at {
            assert(after[i] == before[i] && after[j] == before[j - 1]);
        } else if i == at {
            assert(after[j] == before[j - 1]);
            text::lemma_precedes_total(command.name@, before[at].name@);
            assert(text::precedes(command.name@, before[at].name@));
            if j - 1 > at {
                assert(text::precedes(before[at].name@, before[j - 1].name@));
                text::lemma_precedes_transitive(
                    command.name@,
                    before[at].name@,
                    before[j - 1].name@,
                );
            }
        } else {
            assert(after[i] == before[i - 1] && after[j] == before[j - 1]);
        }
    }
}

/// Taking one command more keeps the last of each name.
proof fn lemma_keeps_last_step(
    found: Seq<CustomCommand>,
    before: Seq<CustomCommand>,
    command: CustomCommand,
    at: int,
    replaces: bool,
)
    requires
        in_order(before),
        keeps_last(found, before),
        0 <= at <= before.len(),
        forall|i: int|
            0 <= i < at ==> text::precedes((#[trigger] before[i]).name@, command.name@),
        forall|i: int|
            at <= i < before.len() ==> !text::precedes(
                (#[trigger] before[i]).name@,
                command.name@,
            ),
        replaces == (at < before.len() && before[at].name@ == command.name@),
    ensures
        keeps_last(
            found.push(command),
            if replaces {
                before.update(at, command)
            } else {
                before.insert(at, command)
            },
        ),
{
    let longer = found.push(command);
    let after = if replaces {
        before.update(at, command)
    } else {
        before.insert(at, command)
    };
    assert forall|i: int| 0 <= i < after.len() implies #[trigger] is_last(longer, after[i]) by {
        if i == at {
            assert(last_of_name(longer, found.len() as int));
            assert(longer[found.len() as int] == after[i]);
        } else {
            let old = if replaces || i < at {
                i
            } else {
                i - 1
            };
            assert(after[i] == before[old]);
            assert(is_last(found, before[old]));
            let k = choose|k: int| #[trigger] last_of_name(found, k) && found[k] == before[old];
            assert(before[old].name@ != command.name@) by {
                text::lemma_precedes_irreflexive(command.name@);
                if old > at && before[old].name@ == command.name@ {
                    assert(text::precedes(before[at].name@, before[old].name@));
                }
            }
            assert(longer[k] == found[k]);
            assert forall|j: int| k < j < longer.len() implies (#[trigger] longer[j]).name@
                != longer[k].name@ by {
                if j < found.len() {
                    assert(longer[j] == found[j]);
                }
            }
            assert(last_of_name(longer, k));
        }
    }
    assert forall|k: int| 0 <= k < longer.len() implies #[trigger] is_named(
        after,
        longer[k].name@,
    ) by {
        if k == found.len() {
            assert(after[at].name@ == longer[k].name@);
        } else {
            assert(longer[k] == found[k]);
            assert(is_named(before, found[k].name@));
            let i = choose|i: int|
                0 <= i < before.len() && (#[trigger] before[i]).name@ == found[k].name@;
            if replaces || i < at {
                assert(after[i].name@ == before[i].name@);
            } else {
                assert(after[i + 1] == before[i]);
            }
        }
    }
}

/// Of two commands with one name the later one is found, whatever stands between them.
pub proof fn law_later_commands_override(
    found: Seq<CustomCommand>,
    kept: Seq<CustomCommand>,
    earlier: int,
    later: int,
    i: int,
)
    requires
        in_order(kept),
        keeps_last(found, kept),
        0 <= earlier < later < found.len(),
        found[earlier].name@ == found[later].name@,
        last_of_name(found, later),
        0 <= i < kept.len(),
        kept[i].name@ == found[earlier].name@,
    ensures
        kept[i] == found[later],
{
    assert(is_last(found, kept[i]));
    let at = choose|at: int| #[trigger] last_of_name(found, at) && found[at] == kept[i];
    if at < later {
        assert(found[later].name@ != found[at].name@);
    } else if later < at {
        assert(found[at].name@ != found[later].name@);
    }
}

} // verus!
