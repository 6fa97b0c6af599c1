//! Terminals on a periphery: the requests on them, what a periphery does for
//! each, and the commands that run on them.

use vstd::prelude::*;
use vstd::string::StrSliceExecFns;
use vstd::string::StringExecFns;
use uuid::Uuid;
use crate::text;

verus! {

/// The line that a command prints before its output.
pub const START_OF_OUTPUT: &'static str = "__KOMODO_START_OF_OUTPUT__";

/// The line that a command prints after its exit code.
pub const END_OF_OUTPUT: &'static str = "__KOMODO_END_OF_OUTPUT__";

/// What stands before the exit code of a command.
pub const KOMODO_EXIT_CODE: &'static str = "__KOMODO_EXIT_CODE:";

/// When a terminal that already exists is created anew.
#[derive(Debug, Clone, Copy, PartialEq, Eq, Structural)]
pub enum TerminalRecreateMode {
    Never,
    Always,
    DifferentCommand,
}

impl Default for TerminalRecreateMode {
    fn default() -> (r: TerminalRecreateMode)
        ensures
            r == TerminalRecreateMode::Never,
    {
        TerminalRecreateMode::Never
    }
}

/// Lists the terminals.
pub struct ListTerminals {}

/// Creates a terminal.
pub struct CreateTerminal {
    /// The name of the terminal to create
    pub name: String,
    /// The shell command (eg `bash`) to init the shell.
    pub command: String,
    /// Default: `Never`
    pub recreate: TerminalRecreateMode,
}

/// The command of a terminal for which none is given.
pub fn default_command() -> (r: String)
    ensures
        r@ == "bash"@,
{
    "bash".to_owned()
}

/// Connects to a terminal.
pub struct ConnectTerminal {
    /// The name of the terminal to connect to
    pub terminal: String,
}

/// Connects to a shell in a container.
pub struct ConnectContainerExec {
    /// The name of the container to connect to.
    pub container: String,
    /// The shell to start inside container.
    /// Default: `sh`
    pub shell: String,
}

/// Used to disconnect both Terminals and Container Exec sessions.
pub struct DisconnectTerminal {
    /// The connection id of the terminal to disconnect from
    pub id: Uuid,
}

/// Deletes a terminal.
pub struct DeleteTerminal {
    /// The name of the terminal to delete
    pub terminal: String,
}

/// Deletes all terminals.
pub struct DeleteAllTerminals {}

/// Executes a command on a terminal, which must already exist.
pub struct ExecuteTerminal {
    /// Specify the terminal to execute the command on.
    pub terminal: String,
    /// The command to execute.
    pub command: String,
}

/// Executes a command in a container.
pub struct ExecuteContainerExec {
    /// The name of the container to execute command in.
    pub container: String,
    /// The shell to start inside container.
    /// Default: `sh`
    pub shell: String,
    /// The command to execute.
    pub command: String,
}

/// The shell of a container for which none is given.
pub fn default_container_shell() -> (r: String)
    ensures
        r@ == "sh"@,
{
    "sh".to_owned()
}

/// What a periphery allows.
#[derive(Debug, Clone, Copy, PartialEq, Eq, Structural)]
pub struct TerminalConfig {
    pub disable_terminals: bool,
    pub disable_container_exec: bool,
}

/// Why a periphery refuses a request on a terminal.
#[derive(Debug, Clone, Copy, PartialEq, Eq, Structural)]
pub enum TerminalError {
    /// Terminals are disabled in the periphery config.
    TerminalsDisabled,
    /// Container exec is disabled in the periphery config.
    ContainerExecDisabled,
    /// The use of '&&' is forbidden in the container name or shell.
    ForbiddenAnd,
}

impl TerminalError {
    /// The HTTP status of the refusal.
    pub fn status(&self) -> (r: u16)
        ensures
            r == (if *self == TerminalError::TerminalsDisabled {
                403u16
            } else {
                500u16
            }),
    {
        match self {
            TerminalError::TerminalsDisabled => 403,
            _ => 500,
        }
    }
}

/// What a periphery does for a request.
pub enum TerminalPlan {
    /// Clean up the terminals, then list them.
    List,
    /// Create a terminal.
    Create { name: String, command: String, recreate: TerminalRecreateMode },
    /// Delete a terminal.
    Delete { terminal: String },
    /// Delete all terminals.
    DeleteAll,
    /// Clean up the terminals, then forward a terminal that is there on a fresh
    /// channel.
    Connect { terminal: String },
    /// Create a terminal, then forward it on a fresh channel.
    CreateAndConnect { name: String, command: String, recreate: TerminalRecreateMode },
    /// Take the terminal channel away, and cancel what forwards on it.
    Disconnect { id: Uuid },
    /// Run a command on a terminal that is there, and forward its output on a
    /// fresh channel. `input` is what the terminal gets.
    Execute { terminal: String, input: String },
    /// Create a terminal, run a command on it, and forward its output on a
    /// fresh channel. `input` is what the terminal gets.
    CreateAndExecute { name: String, command: String, recreate: TerminalRecreateMode, input: String },
}

/// The text of `TerminalPlan`.
pub enum TerminalPlanView {
    List,
    Create { name: Seq<char>, command: Seq<char>, recreate: TerminalRecreateMode },
    Delete { terminal: Seq<char> },
    DeleteAll,
    Connect { terminal: Seq<char> },
    CreateAndConnect { name: Seq<char>, command: Seq<char>, recreate: TerminalRecreateMode },
    Disconnect { id: Uuid },
    Execute { terminal: Seq<char>, input: Seq<char> },
    CreateAndExecute { name: Seq<char>, command: Seq<char>, recreate: TerminalRecreateMode, input: Seq<char> },
}

impl View for TerminalPlan {
    type V = TerminalPlanView;

    open spec fn view(&self) -> TerminalPlanView {
        match *self {
            TerminalPlan::List => TerminalPlanView::List,
            TerminalPlan::Create { name, command, recreate } => TerminalPlanView::Create {
                name: name@,
                command: command@,
                recreate,
            },
            TerminalPlan::Delete { terminal } => TerminalPlanView::Delete { terminal: terminal@ },
            TerminalPlan::DeleteAll => TerminalPlanView::DeleteAll,
            TerminalPlan::Connect { terminal } => TerminalPlanView::Connect { terminal: terminal@ },
            TerminalPlan::CreateAndConnect { name, command, recreate } => TerminalPlanView::CreateAndConnect {
                name: name@,
                command: command@,
                recreate,
            },
            TerminalPlan::Disconnect { id } => TerminalPlanView::Disconnect { id },
            TerminalPlan::Execute { terminal, input } => TerminalPlanView::Execute {
                terminal: terminal@,
                input: input@,
            },
            TerminalPlan::CreateAndExecute { name, command, recreate, input } => TerminalPlanView::CreateAndExecute {
                name: name@,
                command: command@,
                recreate,
                input: input@,
            },
        }
    }
}

/// Whether `r` refuses with `error`.
pub open spec fn refuses(r: Result<TerminalPlan, TerminalError>, error: TerminalError) -> bool {
    r == Err::<TerminalPlan, TerminalError>(error)
}

/// Whether `r` goes ahead with `plan`.
pub open spec fn plans(r: Result<TerminalPlan, TerminalError>, plan: TerminalPlanView) -> bool {
    r matches Ok(p) && p@ == plan
}

/// The command of the terminal that runs `shell` in `container`.
pub open spec fn container_command_text(container: Seq<char>, shell: Seq<char>) -> Seq<char> {
    "docker exec -it "@ + container + " "@ + shell
}

/// The command of the terminal that runs `shell` in `container`.
pub fn container_command(container: &str, shell: &str) -> (r: String)
    ensures
        r@ == container_command_text(container@, shell@),
{
    let mut r: String = text::concat3("docker exec -it ", container, " ");
    r.append(shell);
    r
}

/// What a terminal gets to run `command`: the output stands between the two
/// sentinels, and ends in the exit code.
pub open spec fn full_command_text(command: Seq<char>) -> Seq<char> {
    "printf '\n"@ + START_OF_OUTPUT@ + "\n\n'; "@ + command + "; rc=$?; printf '\n"@ + KOMODO_EXIT_CODE@ + "%d\n"@
        + END_OF_OUTPUT@ + "\n' \"$rc\"\n"@
}

/// What a terminal gets to run `command`.
pub fn full_command(command: &str) -> (r: String)
    ensures
        r@ == full_command_text(command@),
{
    let mut r: String = text::concat3("printf '\n", START_OF_OUTPUT, "\n\n'; ");
    r.append(command);
    r.append("; rc=$?; printf '\n");
    r.append(KOMODO_EXIT_CODE);
    r.append("%d\n");
    r.append(END_OF_OUTPUT);
    r.append("\n' \"$rc\"\n");
    r
}

/// Whether `container` or `shell` could start another command.
pub open spec fn has_and(container: Seq<char>, shell: Seq<char>) -> bool {
    text::has_text(container, "&&"@) || text::has_text(shell, "&&"@)
}

impl ListTerminals {
    pub fn resolve(self) -> (r: TerminalPlan)
        ensures
            r@ == TerminalPlanView::List,
    {
        TerminalPlan::List
    }
}

impl CreateTerminal {
    pub fn resolve(self, config: &TerminalConfig) -> (r: Result<TerminalPlan, TerminalError>)
        ensures
            if config.disable_terminals {
                refuses(r, TerminalError::TerminalsDisabled)
            } else {
                plans(
                    r,
                    TerminalPlanView::Create { name: self.name@, command: self.command@, recreate: self.recreate },
                )
            },
    {
        if config.disable_terminals {
            return Err(TerminalError::TerminalsDisabled);
        }
        Ok(TerminalPlan::Create { name: self.name, command: self.command, recreate: self.recreate })
    }
}

impl DeleteTerminal {
    pub fn resolve(self) -> (r: TerminalPlan)
        ensures
            r@ == (TerminalPlanView::Delete { terminal: self.terminal@ }),
    {
        TerminalPlan::Delete { terminal: self.terminal }
    }
}

impl DeleteAllTerminals {
    pub fn resolve(self) -> (r: TerminalPlan)
        ensures
            r@ == TerminalPlanView::DeleteAll,
    {
        TerminalPlan::DeleteAll
    }
}

impl ConnectTerminal {
    pub fn resolve(self, config: &TerminalConfig) -> (r: Result<TerminalPlan, TerminalError>)
        ensures
            if config.disable_terminals {
                refuses(r, TerminalError::TerminalsDisabled)
            } else {
                plans(r, TerminalPlanView::Connect { terminal: self.terminal@ })
            },
    {
        if config.disable_terminals {
            return Err(TerminalError::TerminalsDisabled);
        }
        Ok(TerminalPlan::Connect { terminal: self.terminal })
    }
}

impl ConnectContainerExec {
    pub fn resolve(self, config: &TerminalConfig) -> (r: Result<TerminalPlan, TerminalError>)
        ensures
            if config.disable_container_exec {
                refuses(r, TerminalError::ContainerExecDisabled)
            } else if has_and(self.container@, self.shell@) {
                refuses(r, TerminalError::ForbiddenAnd)
            } else {
                plans(
                    r,
                    TerminalPlanView::CreateAndConnect {
                        name: self.container@,
                        command: container_command_text(self.container@, self.shell@),
                        recreate: TerminalRecreateMode::DifferentCommand,
                    },
                )
            },
    {
        if config.disable_container_exec {
            return Err(TerminalError::ContainerExecDisabled);
        }
        if text::contains(self.container.as_str(), "&&") || text::contains(self.shell.as_str(), "&&") {
            return Err(TerminalError::ForbiddenAnd);
        }
        let command: String = container_command(self.container.as_str(), self.shell.as_str());
        Ok(
            TerminalPlan::CreateAndConnect {
                name: self.container,
                command,
                recreate: TerminalRecreateMode::DifferentCommand,
            },
        )
    }
}

impl DisconnectTerminal {
    pub fn resolve(self) -> (r: TerminalPlan)
        ensures
            r@ == (TerminalPlanView::Disconnect { id: self.id }),
    {
        TerminalPlan::Disconnect { id: self.id }
    }
}

impl ExecuteTerminal {
    pub fn resolve(self, config: &TerminalConfig) -> (r: Result<TerminalPlan, TerminalError>)
        ensures
            if config.disable_terminals {
                refuses(r, TerminalError::TerminalsDisabled)
            } else {
                plans(
                    r,
                    TerminalPlanView::Execute {
                        terminal: self.terminal@,
                        input: full_command_text(self.command@),
                    },
                )
            },
    {
        if config.disable_terminals {
            return Err(TerminalError::TerminalsDisabled);
        }
        let input: String = full_command(self.command.as_str());
        Ok(TerminalPlan::Execute { terminal: self.terminal, input })
    }
}

impl ExecuteContainerExec {
    pub fn resolve(self, config: &TerminalConfig) -> (r: Result<TerminalPlan, TerminalError>)
        ensures
            if config.disable_container_exec {
                refuses(r, TerminalError::ContainerExecDisabled)
            } else if has_and(self.container@, self.shell@) {
                refuses(r, TerminalError::ForbiddenAnd)
            } else {
                plans(
                    r,
                    TerminalPlanView::CreateAndExecute {
                        name: self.container@,
                        command: container_command_text(self.container@, self.shell@),
                        recreate: TerminalRecreateMode::DifferentCommand,
                        input: full_command_text(self.command@),
                    },
                )
            },
    {
        if config.disable_container_exec {
            return Err(TerminalError::ContainerExecDisabled);
        }
        if text::contains(self.container.as_str(), "&&") || text::contains(self.shell.as_str(), "&&") {
            return Err(TerminalError::ForbiddenAnd);
        }
        let command: String = container_command(self.container.as_str(), self.shell.as_str());
        let input: String = full_command(self.command.as_str());
        Ok(
            TerminalPlan::CreateAndExecute {
                name: self.container,
                command,
                recreate: TerminalRecreateMode::DifferentCommand,
                input,
            },
        )
    }
}

/// The command of a container terminal holds no '&&' where neither the
/// container nor the shell does.
pub proof fn law_container_command_has_no_and(container: Seq<char>, shell: Seq<char>)
    requires
        !has_and(container, shell),
    ensures
        !text::has_text(container_command_text(container, shell), "&&"@),
{
    reveal_strlit("docker exec -it ");
    reveal_strlit(" ");
    reveal_strlit("&&");
    let command = container_command_text(container, shell);
    let n = container.len() as int;
    assert forall|i: int| !text::occurs_at(command, "&&"@, i) by {
        if text::occurs_at(command, "&&"@, i) {
            let found = command.subrange(i, i + 2);
            assert(found[0] == command[i] && found[1] == command[i + 1]);
            assert("&&"@[0] == '&' && "&&"@[1] == '&');
            if i < 16 {
                assert(command[i] == "docker exec -it "@[i]);
            } else if i + 1 < 16 + n {
                assert(container.subrange(i - 16, i - 14) =~= "&&"@);
                assert(text::occurs_at(container, "&&"@, i - 16));
            } else if i <= 16 + n {
                assert(command[16 + n] == ' ');
            } else {
                assert(shell.subrange(i - 17 - n, i - 15 - n) =~= "&&"@);
                assert(text::occurs_at(shell, "&&"@, i - 17 - n));
            }
        }
    }
}

/// What is to be done with the next line of a terminal that runs a command.
#[derive(Debug, Clone, Copy, PartialEq, Eq, Structural)]
pub enum StartStep {
    /// Read another line.
    Read,
    /// The output starts.
    Started,
    /// The lines ended before the output started.
    Terminated,
    /// A line could not be read.
    Failed,
}

/// What waiting for the output makes of the next line: `Ok(None)` where there
/// are no more, and an error where it could not be read.
pub open spec fn start_step(line: Result<Option<String>, ()>) -> StartStep {
    match line {
        Ok(Some(line)) => if line@ == START_OF_OUTPUT@ {
            StartStep::Started
        } else {
            StartStep::Read
        },
        Ok(None) => StartStep::Terminated,
        Err(()) => StartStep::Failed,
    }
}

/// Waits for the start sentinel: the response starts only after it.
pub fn setup_execute_command_on_terminal(line: Result<Option<String>, ()>) -> (r: StartStep)
    ensures
        r == start_step(line),
{
    match line {
        Ok(Some(line)) => {
            if text::same(line.as_str(), START_OF_OUTPUT) {
                StartStep::Started
            } else {
                StartStep::Read
            }
        },
        Ok(None) => StartStep::Terminated,
        Err(()) => StartStep::Failed,
    }
}

/// A terminal runs a command as it was given: whatever the command, it gets the
/// same text before it and the same text after it, and the characters of the
/// command, unchanged, between them. The text before prints the start sentinel
/// in a line of its own; the text after prints the exit code of the command and
/// then the end sentinel, in lines of their own.
pub proof fn law_command_runs_as_it_was_given(command: Seq<char>)
    ensures
        full_command_text(command) == "printf '\n__KOMODO_START_OF_OUTPUT__\n\n'; "@ + command
            + "; rc=$?; printf '\n__KOMODO_EXIT_CODE:%d\n__KOMODO_END_OF_OUTPUT__\n' \"$rc\"\n"@,
        full_command_text(command).len() == full_command_text(Seq::empty()).len() + command.len(),
        full_command_text(command).subrange(40, 40 + command.len() as int) == command,
        full_command_text(command).take(40) == full_command_text(Seq::empty()).take(40),
        full_command_text(command).skip(40 + command.len() as int) == full_command_text(Seq::empty()).skip(40),
{
    reveal_strlit("printf '\n");
    reveal_strlit("__KOMODO_START_OF_OUTPUT__");
    reveal_strlit("\n\n'; ");
    reveal_strlit("; rc=$?; printf '\n");
    reveal_strlit("__KOMODO_EXIT_CODE:");
    reveal_strlit("%d\n");
    reveal_strlit("__KOMODO_END_OF_OUTPUT__");
    reveal_strlit("\n' \"$rc\"\n");
    reveal_strlit("printf '\n__KOMODO_START_OF_OUTPUT__\n\n'; ");
    reveal_strlit("; rc=$?; printf '\n__KOMODO_EXIT_CODE:%d\n__KOMODO_END_OF_OUTPUT__\n' \"$rc\"\n");
    let before = "printf '\n__KOMODO_START_OF_OUTPUT__\n\n'; "@;
    let after = "; rc=$?; printf '\n__KOMODO_EXIT_CODE:%d\n__KOMODO_END_OF_OUTPUT__\n' \"$rc\"\n"@;
    let none = Seq::<char>::empty();
    assert(before =~= "printf '\n"@ + START_OF_OUTPUT@ + "\n\n'; "@);
    assert(after =~= "; rc=$?; printf '\n"@ + KOMODO_EXIT_CODE@ + "%d\n"@ + END_OF_OUTPUT@ + "\n' \"$rc\"\n"@);
    assert(full_command_text(command) =~= before + command + after);
    assert(full_command_text(none) =~= before + none + after);
    assert(before.len() == 40);
    assert(full_command_text(command).subrange(40, 40 + command.len() as int) =~= command);
    assert(full_command_text(command).take(40) =~= full_command_text(none).take(40));
    assert(full_command_text(command).skip(40 + command.len() as int) =~= full_command_text(none).skip(40));
}

/// The command of a container terminal names the container and the shell as
/// they were given, with a space between them and nothing after them.
pub proof fn law_container_command_names_both(container: Seq<char>, shell: Seq<char>)
    ensures
        container_command_text(container, shell).len() == 17 + container.len() + shell.len(),
        container_command_text(container, shell).take(16) == "docker exec -it "@,
        container_command_text(container, shell).subrange(16, 16 + container.len() as int) == container,
        container_command_text(container, shell)[16 + container.len() as int] == ' ',
        container_command_text(container, shell).skip(17 + container.len() as int) == shell,
{
    reveal_strlit("docker exec -it ");
    reveal_strlit(" ");
    let command = container_command_text(container, shell);
    assert(command.take(16) =~= "docker exec -it "@);
    assert(command.subrange(16, 16 + container.len() as int) =~= container);
    assert(command.skip(17 + container.len() as int) =~= shell);
}

/// A container or a shell is refused exactly where two '&' stand next to each
/// other in either of them.
pub proof fn law_two_ands_are_refused(container: Seq<char>, shell: Seq<char>)
    ensures
        has_and(container, shell) <==> (exists|i: int|
            0 <= i < container.len() - 1 && #[trigger] container[i] == '&' && container[i + 1] == '&') || (exists|i: int|
            0 <= i < shell.len() - 1 && #[trigger] shell[i] == '&' && shell[i + 1] == '&'),
{
    lemma_two_ands(container);
    lemma_two_ands(shell);
}

proof fn lemma_two_ands(s: Seq<char>)
    ensures
        text::has_text(s, "&&"@) <==> exists|i: int| 0 <= i < s.len() - 1 && #[trigger] s[i] == '&' && s[i + 1] == '&',
{
    reveal_strlit("&&");
    if text::has_text(s, "&&"@) {
        let i = choose|i: int| text::occurs_at(s, "&&"@, i);
        assert(s.subrange(i, i + 2)[0] == s[i] && s.subrange(i, i + 2)[1] == s[i + 1]);
        assert(s[i] == '&' && s[i + 1] == '&');
    }
    if exists|i: int| 0 <= i < s.len() - 1 && #[trigger] s[i] == '&' && s[i + 1] == '&' {
        let i = choose|i: int| 0 <= i < s.len() - 1 && #[trigger] s[i] == '&' && s[i + 1] == '&';
        assert(s.subrange(i, i + 2) =~= "&&"@);
        assert(text::occurs_at(s, "&&"@, i));
    }
}

/// The output of a command starts after the line that is the start sentinel, and
/// after no other line; waiting for it fails where the lines end or cannot be
/// read.
pub proof fn law_output_starts_after_the_sentinel(line: Result<Option<String>, ()>)
    ensures
        start_step(line) == StartStep::Started <==> (line matches Ok(Some(text)) && text@
            == "__KOMODO_START_OF_OUTPUT__"@),
        start_step(line) == StartStep::Read <==> (line matches Ok(Some(text)) && text@
            != "__KOMODO_START_OF_OUTPUT__"@),
        start_step(line) == StartStep::Terminated <==> line == Ok::<Option<String>, ()>(None),
        start_step(line) == StartStep::Failed <==> line is Err,
{
}

/// The contents of a plan tell what it is, and hold all of it.
pub proof fn law_contents_of_a_plan(plan: TerminalPlan)
    ensures
        plan is List <==> plan@ is List,
        plan is Create <==> plan@ is Create,
        plan is Create ==> plan@->Create_name == plan->Create_name@,
        plan is Create ==> plan@->Create_command == plan->Create_command@,
        plan is Create ==> plan@->Create_recreate == plan->Create_recreate,
        plan is Delete <==> plan@ is Delete,
        plan is Delete ==> plan@->Delete_terminal == plan->Delete_terminal@,
        plan is DeleteAll <==> plan@ is DeleteAll,
        plan is Connect <==> plan@ is Connect,
        plan is Connect ==> plan@->Connect_terminal == plan->Connect_terminal@,
        plan is CreateAndConnect <==> plan@ is CreateAndConnect,
        plan is CreateAndConnect ==> plan@->CreateAndConnect_name == plan->CreateAndConnect_name@,
        plan is CreateAndConnect ==> plan@->CreateAndConnect_command == plan->CreateAndConnect_command@,
        plan is CreateAndConnect ==> plan@->CreateAndConnect_recreate == plan->CreateAndConnect_recreate,
        plan is Disconnect <==> plan@ is Disconnect,
        plan is Disconnect ==> plan@->Disconnect_id == plan->Disconnect_id,
        plan is Execute <==> plan@ is Execute,
        plan is Execute ==> plan@->Execute_terminal == plan->Execute_terminal@,
        plan is Execute ==> plan@->Execute_input == plan->Execute_input@,
        plan is CreateAndExecute <==> plan@ is CreateAndExecute,
        plan is CreateAndExecute ==> plan@->CreateAndExecute_name == plan->CreateAndExecute_name@,
        plan is CreateAndExecute ==> plan@->CreateAndExecute_command == plan->CreateAndExecute_command@,
        plan is CreateAndExecute ==> plan@->CreateAndExecute_recreate == plan->CreateAndExecute_recreate,
        plan is CreateAndExecute ==> plan@->CreateAndExecute_input == plan->CreateAndExecute_input@,
{
}

/// A request is either refused, with its error, or goes ahead, with its plan.
pub proof fn law_request_is_refused_or_planned(
    r: Result<TerminalPlan, TerminalError>,
    error: TerminalError,
    plan: TerminalPlanView,
)
    ensures
        refuses(r, error) <==> r is Err && r->Err_0 == error,
        plans(r, plan) <==> r is Ok && r->Ok_0@ == plan,
{
}

} // verus!
