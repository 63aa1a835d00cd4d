//! Configuration of what a session remembers of its windows.

use vstd::prelude::*;
use crate::config::utils::MergeWith;
use crate::text::{clone_strings, str_eq, views};

verus! {

/// Session restore as it is in effect.
#[derive(Debug)]
pub struct SessionRestore {
    /// No session is saved or restored.
    pub off: bool,
    /// Where the session is saved, in place of the usual file.
    pub state_path: Option<String>,
    /// How to start the applications of a saved session again.
    pub launch_commands: Vec<LaunchCommand>,
}

/// How to start an application again.
///
/// An argument `%s` stands for the working directory that the window had. An
/// application without an entry is started by its `app_id`.
#[derive(Debug)]
pub struct LaunchCommand {
    pub app_id: String,
    pub command: Vec<String>,
    /// The working directory is that of the process that runs inside of the
    /// window, as in a terminal.
    pub cwd_from_child: bool,
}

/// The session restore section of one file.
#[derive(Debug)]
pub struct SessionRestorePart {
    pub off: bool,
    pub on: bool,
    pub state_path: Option<String>,
    pub launch_commands: Vec<LaunchCommandPart>,
}

/// A launch command of one file.
#[derive(Debug)]
pub struct LaunchCommandPart {
    pub app_id: String,
    pub cwd_from_child: bool,
    pub command: Vec<String>,
}

/// What a launch command says.
pub struct LaunchCommandState {
    pub app_id: Seq<char>,
    pub command: Seq<Seq<char>>,
    pub cwd_from_child: bool,
}

impl View for LaunchCommand {
    type V = LaunchCommandState;

    open spec fn view(&self) -> LaunchCommandState {
        LaunchCommandState {
            app_id: self.app_id@,
            command: views(self.command@),
            cwd_from_child: self.cwd_from_child,
        }
    }
}

impl View for LaunchCommandPart {
    type V = LaunchCommandState;

    open spec fn view(&self) -> LaunchCommandState {
        LaunchCommandState {
            app_id: self.app_id@,
            command: views(self.command@),
            cwd_from_child: self.cwd_from_child,
        }
    }
}

/// What launch commands say.
pub open spec fn command_states(commands: Seq<LaunchCommand>) -> Seq<LaunchCommandState> {
    Seq::new(commands.len(), |i: int| commands[i]@)
}

/// What launch commands of one file say.
pub open spec fn part_states(commands: Seq<LaunchCommandPart>) -> Seq<LaunchCommandState> {
    Seq::new(commands.len(), |i: int| commands[i]@)
}

/// The launch commands that are there without a configuration.
pub open spec fn builtin_states() -> Seq<LaunchCommandState> {
    seq![
        LaunchCommandState {
            app_id: "org.kde.dolphin"@,
            command: seq!["dolphin"@, "%s"@],
            cwd_from_child: false,
        },
        LaunchCommandState {
            app_id: "org.kde.konsole"@,
            command: seq!["konsole"@, "--workdir"@, "%s"@],
            cwd_from_child: true,
        },
    ]
}

fn builtin_launch_commands() -> (r: Vec<LaunchCommand>)
    ensures
        command_states(r@) == builtin_states(),
{
    let dolphin = vec!["dolphin".to_owned(), "%s".to_owned()];
    let konsole = vec!["konsole".to_owned(), "--workdir".to_owned(), "%s".to_owned()];
    assert(views(dolphin@) =~= seq!["dolphin"@, "%s"@]);
    assert(views(konsole@) =~= seq!["konsole"@, "--workdir"@, "%s"@]);
    let r = vec![
        LaunchCommand {
            app_id: "org.kde.dolphin".to_owned(),
            command: dolphin,
            cwd_from_child: false,
        },
        LaunchCommand {
            app_id: "org.kde.konsole".to_owned(),
            command: konsole,
            cwd_from_child: true,
        },
    ];
    assert(command_states(r@) =~= builtin_states());
    r
}

impl Default for SessionRestore {
    /// Off, with the commands for a file manager and a terminal.
    fn default() -> (r: Self)
        ensures
            r.off,
            r.state_path is None,
            command_states(r.launch_commands@) == builtin_states(),
    {
        SessionRestore {
            off: true,
            state_path: None,
            launch_commands: builtin_launch_commands(),
        }
    }
}

impl Default for SessionRestorePart {
    fn default() -> (r: Self)
        ensures
            !r.off,
            !r.on,
            r.state_path is None,
            r.launch_commands@.len() == 0,
    {
        SessionRestorePart {
            off: false,
            on: false,
            state_path: None,
            launch_commands: Vec::new(),
        }
    }
}

/// The launch commands of one file as they take effect.
fn commands_of(parts: &Vec<LaunchCommandPart>) -> (r: Vec<LaunchCommand>)
    ensures
        command_states(r@) == part_states(parts@),
{
    let mut r: Vec<LaunchCommand> = Vec::new();
    let mut i: usize = 0;
    while i < parts.len()
        invariant
            i <= parts@.len(),
            r@.len() == i,
            forall|j: int| 0 <= j < i ==> (#[trigger] r@[j])@ == parts@[j]@,
        decreases parts@.len() - i,
    {
        let part = &parts[i];
        r.push(
            LaunchCommand {
                app_id: part.app_id.clone(),
                command: clone_strings(&part.command),
                cwd_from_child: part.cwd_from_child,
            },
        );
        i += 1;
    }
    assert(command_states(r@) =~= part_states(parts@));
    r
}

impl MergeWith<SessionRestorePart> for SessionRestore {
    /// A file can turn the feature on or off. Where it says both, `off` wins; an
    /// `on` in a file that comes later turns the feature back on. A file with
    /// launch commands replaces all of them.
    open spec fn merges_to(&self, part: &SessionRestorePart, after: &Self) -> bool {
        &&& after.off == (part.off || self.off && !part.on)
        &&& after.state_path == (if part.state_path is Some {
            part.state_path
        } else {
            self.state_path
        })
        &&& command_states(after.launch_commands@) == (if part.launch_commands@.len() > 0 {
            part_states(part.launch_commands@)
        } else {
            command_states(self.launch_commands@)
        })
    }

    fn merge_with(&mut self, part: &SessionRestorePart) {
        if part.off {
            self.off = true;
        } else if part.on {
            self.off = false;
        }
        if part.state_path.is_some() {
            self.state_path = part.state_path.clone();
        }
        if part.launch_commands.len() > 0 {
            self.launch_commands = commands_of(&part.launch_commands);
        }
    }
}

/// Whether this is how to start an application again: the first entry for it.
pub open spec fn is_command_for(
    commands: Seq<LaunchCommand>,
    app_id: Seq<char>,
    r: Option<&LaunchCommand>,
) -> bool {
    match r {
        Some(command) => exists|i: int|
            {
                &&& 0 <= i < commands.len()
                &&& #[trigger] commands[i] == *command
                &&& command.app_id@ == app_id
                &&& forall|j: int| 0 <= j < i ==> (#[trigger] commands[j]).app_id@ != app_id
            },
        None => forall|i: int|
            0 <= i < commands.len() ==> (#[trigger] commands[i]).app_id@ != app_id,
    }
}

impl SessionRestore {
    /// How to start an application again: the first entry for it.
    pub fn launch_command_for(&self, app_id: &str) -> (r: Option<&LaunchCommand>)
        ensures
            is_command_for(self.launch_commands@, app_id@, r),
    {
        let mut i: usize = 0;
        while i < self.launch_commands.len()
            invariant
                i <= self.launch_commands@.len(),
                forall|j: int|
                    0 <= j < i ==> (#[trigger] self.launch_commands@[j]).app_id@ != app_id@,
            decreases self.launch_commands@.len() - i,
        {
            let command = &self.launch_commands[i];
            if str_eq(command.app_id.as_str(), app_id) {
                assert(self.launch_commands@[i as int] == *command);
                return Some(command);
            }
            i += 1;
        }
        None
    }
}

/// Once a file defines a launch command, an application that it does not
/// mention has none, whatever there was before.
pub proof fn launch_commands_are_replaced(
    before: SessionRestore,
    part: SessionRestorePart,
    after: SessionRestore,
    app_id: Seq<char>,
)
    requires
        before.merges_to(&part, &after),
        part.launch_commands@.len() > 0,
        forall|i: int|
            0 <= i < part.launch_commands@.len() ==> (
            #[trigger] part.launch_commands@[i]).app_id@ != app_id,
    ensures
        forall|i: int|
            0 <= i < after.launch_commands@.len() ==> (
            #[trigger] after.launch_commands@[i]).app_id@ != app_id,
{
    assert forall|i: int| 0 <= i < after.launch_commands@.len() implies (
    #[trigger] after.launch_commands@[i]).app_id@ != app_id by {
        assert(command_states(after.launch_commands@).len() == after.launch_commands@.len());
        assert(part_states(part.launch_commands@).len() == part.launch_commands@.len());
        assert(command_states(after.launch_commands@)[i] == after.launch_commands@[i]@);
        assert(part_states(part.launch_commands@)[i] == part.launch_commands@[i]@);
    }
}

/// An empty section changes nothing.
pub proof fn empty_part_keeps_everything(
    before: SessionRestore,
    part: SessionRestorePart,
    after: SessionRestore,
)
    requires
        before.merges_to(&part, &after),
        !part.off,
        !part.on,
        part.state_path is None,
        part.launch_commands@.len() == 0,
    ensures
        after.off == before.off,
        after.state_path == before.state_path,
        command_states(after.launch_commands@) == command_states(before.launch_commands@),
{
}

/// The first entry for an application counts, and entries behind it don't matter.
pub proof fn first_command_counts(
    commands: Seq<LaunchCommand>,
    more: LaunchCommand,
    app_id: Seq<char>,
    r: Option<&LaunchCommand>,
)
    requires
        is_command_for(commands, app_id, r),
    ensures
        r is Some ==> is_command_for(commands.push(more), app_id, r),
        r is None && more.app_id@ == app_id ==> is_command_for(
            commands.push(more),
            app_id,
            Some(&more),
        ),
        r is None && more.app_id@ != app_id ==> is_command_for(commands.push(more), app_id, None),
        commands.len() > 0 && commands[0].app_id@ == app_id ==> r == Some(&commands[0]),
        r matches Some(command) ==> commands.contains(*command) && command.app_id@ == app_id,
        r is None ==> forall|i: int|
            0 <= i < commands.len() ==> (#[trigger] commands[i]).app_id@ != app_id,
{
    let all = commands.push(more);
    if let Some(command) = r {
        let i = choose|i: int|
            {
                &&& 0 <= i < commands.len()
                &&& #[trigger] commands[i] == *command
                &&& command.app_id@ == app_id
                &&& forall|j: int| 0 <= j < i ==> (#[trigger] commands[j]).app_id@ != app_id
            };
        assert(all[i] == *command);
        assert forall|j: int| 0 <= j < i implies (#[trigger] all[j]).app_id@ != app_id by {
            assert(all[j] == commands[j]);
        }
    } else {
        assert forall|j: int| 0 <= j < commands.len() implies (
        #[trigger] all[j]).app_id@ != app_id by {
            assert(all[j] == commands[j]);
        }
        assert(all[commands.len() as int] == more);
    }
}

/// A file that says `off` turns session restore off, one that only says `on` turns it on, and
/// one that says neither leaves it.
pub proof fn last_file_decides(
    before: SessionRestore,
    part: SessionRestorePart,
    after: SessionRestore,
)
    requires
        before.merges_to(&part, &after),
    ensures
        part.off ==> after.off,
        part.on && !part.off ==> !after.off,
        !part.on && !part.off ==> after.off == before.off,
        part.state_path is Some ==> after.state_path == part.state_path,
        part.state_path is None ==> after.state_path == before.state_path,
        part.launch_commands@.len() > 0 ==> command_states(after.launch_commands@) == part_states(
            part.launch_commands@,
        ),
        part.launch_commands@.len() == 0 ==> command_states(after.launch_commands@)
            == command_states(before.launch_commands@),
{
}

} // verus!
