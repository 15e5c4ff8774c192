//! The sequencing of a run: the plan of all commands, the state of the run,
//! and what follows from each report of the launcher. The first failure ends
//! the run.

use crate::cli::executor::NODE_INSTALL;
use crate::cli::executor::NVM_INSTALL;
use crate::cli::executor::RUST_INSTALL;
use crate::cli::executor::ToolId;
use crate::cli::executor::commands;
use crate::cli::executor::editor_bootstrap;
use crate::cli::executor::editor_commands;
use crate::cli::executor::editor_configuration;
use crate::cli::executor::extension_install;
use crate::cli::executor::install_nodejs_with_nvm;
use crate::cli::executor::install_nvm;
use crate::cli::executor::install_rust;
use crate::cli::executor::install_system_packages;
use crate::cli::executor::install_vscode;
use crate::cli::executor::probe_script;
use crate::cli::executor::probe_verdict;
use crate::cli::executor::probing;
use crate::cli::executor::scoped;
use crate::cli::executor::settings_script;
use crate::cli::executor::system_packages;
use crate::cli::executor::validate;
use crate::cli::executor::validation_probe;
use crate::cli::privilege::Context;
use crate::cli::privilege::PrivilegeContext;
use crate::cli::privilege::resolve;
use crate::cli::privilege::resolved;
use crate::cli::privilege::signal_text;
use crate::error::Failure;
use crate::error::ProcessError;
use crate::utils::cmd_builder::CommandBuilder;
use crate::utils::cmd_builder::CommandSpec;
use crate::utils::cmd_builder::LaunchReport;
use crate::utils::cmd_builder::Observation;
use crate::utils::cmd_builder::outcome;
use crate::utils::cmd_builder::texts;
use crate::utils::json::JsonTree;
use crate::utils::json::json_document;
use crate::utils::json::manifest_of;
use crate::utils::json::parse_extensions;
use vstd::prelude::*;
use vstd::string::*;

verus! {

/// The installation steps, in the order in which they run.
#[derive(Debug, Clone, Copy, PartialEq, Eq, Structural)]
pub enum Step {
    SystemPackages,
    VersionManager,
    NodeJs,
    RustToolchain,
    Editor,
    EditorConfiguration,
}

/// The progress line of `step`.
pub open spec fn step_label(step: Step) -> Seq<char> {
    match step {
        Step::SystemPackages => "Installing system packages..."@,
        Step::VersionManager => "Installing NVM..."@,
        Step::NodeJs => "Installing Node.js with NVM..."@,
        Step::RustToolchain => "Installing Rust..."@,
        Step::Editor => "Installing VS Code..."@,
        Step::EditorConfiguration => "Configuring VS Code..."@,
    }
}

impl Step {
    /// The line that reports this step while it runs.
    pub fn label(&self) -> (line: &'static str)
        ensures
            line@ == step_label(*self),
    {
        match self {
            Step::SystemPackages => "Installing system packages...",
            Step::VersionManager => "Installing NVM...",
            Step::NodeJs => "Installing Node.js with NVM...",
            Step::RustToolchain => "Installing Rust...",
            Step::Editor => "Installing VS Code...",
            Step::EditorConfiguration => "Configuring VS Code...",
        }
    }
}

/// One command of the run: the step it belongs to, and, where it is the
/// probe that follows an installation, the tool it probes.
#[derive(Debug)]
pub struct Task {
    pub step: Step,
    pub command: CommandBuilder,
    pub probe: Option<ToolId>,
}

/// The mathematical content of a [`Task`].
pub struct TaskSpec {
    pub step: Step,
    pub command: CommandSpec,
    pub probe: Option<ToolId>,
}

impl View for Task {
    type V = TaskSpec;

    open spec fn view(&self) -> TaskSpec {
        TaskSpec { step: self.step, command: self.command@, probe: self.probe }
    }
}

/// The tasks of `v`, each by its content.
pub open spec fn tasks(v: Seq<Task>) -> Seq<TaskSpec> {
    v.map_values(|t: Task| t@)
}

/// The installing task of `step` that runs `command`.
pub open spec fn install(step: Step, command: CommandSpec) -> TaskSpec {
    TaskSpec { step, command, probe: None }
}

/// One installing task of `step` for each of `cmds`, in order.
pub open spec fn installs(step: Step, cmds: Seq<CommandSpec>) -> Seq<TaskSpec> {
    cmds.map_values(|c: CommandSpec| install(step, c))
}

/// The task of `step` that probes `tool` in the context `ctx`.
pub open spec fn probe(step: Step, tool: ToolId, ctx: Context) -> TaskSpec {
    TaskSpec { step, command: probing(ctx, probe_script(tool)), probe: Some(tool) }
}

/// The whole run for the context `ctx`, the extensions `ids` and the settings
/// `document`: every command in the order in which it is due.
pub open spec fn plan_of(ctx: Context, ids: Seq<Seq<char>>, document: Seq<u8>) -> Seq<TaskSpec> {
    installs(
        Step::SystemPackages,
        system_packages().map_values(|p: Seq<char>| crate::cli::executor::apt_install(p)),
    ) + seq![
        install(Step::VersionManager, scoped(ctx, NVM_INSTALL@)),
        probe(Step::VersionManager, ToolId::Nvm, ctx),
        install(Step::NodeJs, scoped(ctx, NODE_INSTALL@)),
        install(Step::RustToolchain, scoped(ctx, RUST_INSTALL@)),
        probe(Step::RustToolchain, ToolId::Rust, ctx),
    ] + installs(Step::Editor, editor_bootstrap()) + installs(
        Step::EditorConfiguration,
        editor_configuration(ctx, ids, document),
    )
}

/// What a task comes to, given what the launcher saw of its command. An
/// installing task fails as its command does; a probe passes or fails with
/// the one message of its tool.
pub open spec fn verdict(task: TaskSpec, report: Observation) -> Result<(), Failure> {
    match task.probe {
        Some(tool) => probe_verdict(tool, report),
        None => match outcome(task.command, report) {
            Ok(_) => Ok(()),
            Err(e) => Err(e),
        },
    }
}

impl Task {
    /// Settles the outcome of the command from what the launcher saw of it.
    pub fn settle(&self, report: LaunchReport) -> (r: Result<(), ProcessError>)
        ensures
            match r {
                Ok(_) => verdict(self@, report@) == Ok::<(), Failure>(()),
                Err(e) => verdict(self@, report@) == Err::<(), Failure>(e@),
            },
    {
        match self.probe {
            Some(tool) => validate(tool, &report),
            None => match self.command.execute(report) {
                Ok(_) => Ok(()),
                Err(e) => Err(e),
            },
        }
    }
}

fn push_installs(plan: &mut Vec<Task>, step: Step, cmds: Vec<CommandBuilder>)
    ensures
        tasks(final(plan)@) == tasks(old(plan)@) + installs(step, commands(cmds@)),
{
    let ghost start = plan@;
    let ghost all = commands(cmds@);
    let mut cmds = cmds;
    let ghost mut done: Seq<CommandSpec> = Seq::empty();
    while cmds.len() > 0
        invariant
            done + commands(cmds@) == all,
            tasks(plan@) == tasks(start) + installs(step, done),
        decreases cmds.len(),
    {
        let ghost before = plan@;
        let ghost rest = cmds@;
        let command = cmds.remove(0);
        proof {
            assert(commands(rest) =~= seq![command@] + commands(cmds@));
            assert(done.push(command@) + commands(cmds@) =~= done + commands(rest));
        }
        plan.push(Task { step, command, probe: None });
        proof {
            assert(tasks(plan@) =~= tasks(before).push(install(step, command@)));
            assert(installs(step, done.push(command@)) =~= installs(step, done).push(
                install(step, command@),
            ));
            done = done.push(command@);
        }
    }
    proof {
        assert(commands(cmds@) =~= Seq::empty());
        assert(done =~= all);
    }
}

/// Lays out the whole run: the system packages, the version manager and its
/// probe, Node.js, the Rust toolchain and its probe, the editor, and the
/// editor's configuration with one command per extension, in this order.
pub fn plan(ctx: &PrivilegeContext, extensions: &Vec<String>, settings: &str) -> (list: Vec<Task>)
    ensures
        tasks(list@) == plan_of(ctx@, texts(extensions@), settings.spec_bytes()),
{
    let mut list: Vec<Task> = Vec::new();
    assert(tasks(list@) =~= Seq::empty());
    push_installs(&mut list, Step::SystemPackages, install_system_packages());
    let ghost packages = tasks(list@);
    list.push(Task { step: Step::VersionManager, command: install_nvm(ctx), probe: None });
    list.push(
        Task {
            step: Step::VersionManager,
            command: validation_probe(ToolId::Nvm, ctx),
            probe: Some(ToolId::Nvm),
        },
    );
    list.push(Task { step: Step::NodeJs, command: install_nodejs_with_nvm(ctx), probe: None });
    list.push(Task { step: Step::RustToolchain, command: install_rust(ctx), probe: None });
    list.push(
        Task {
            step: Step::RustToolchain,
            command: validation_probe(ToolId::Rust, ctx),
            probe: Some(ToolId::Rust),
        },
    );
    assert(tasks(list@) =~= packages + seq![
        install(Step::VersionManager, scoped(ctx@, NVM_INSTALL@)),
        probe(Step::VersionManager, ToolId::Nvm, ctx@),
        install(Step::NodeJs, scoped(ctx@, NODE_INSTALL@)),
        install(Step::RustToolchain, scoped(ctx@, RUST_INSTALL@)),
        probe(Step::RustToolchain, ToolId::Rust, ctx@),
    ]);
    push_installs(&mut list, Step::Editor, install_vscode());
    push_installs(
        &mut list,
        Step::EditorConfiguration,
        editor_commands(ctx, extensions, settings),
    );
    list
}

/// Where a run stands. `Completed` and `Failed` are final: nothing leads out
/// of them, and nothing leads back.
#[derive(Debug, Clone, Copy, PartialEq, Eq, Structural)]
pub enum RunState {
    /// Nothing was checked yet.
    NotStarted,
    /// The operating system is the supported one.
    OsChecked,
    /// The plan is laid out and a command is due.
    Running,
    /// Every command of the plan ran and passed.
    Completed,
    /// The run was given up.
    Failed,
}

/// The one operating system that a run accepts.
pub const SUPPORTED_OS: &'static str = "Ubuntu";

/// What the message about an unsupported system starts with.
pub const UNSUPPORTED_OS: &'static str = "This function requires Ubuntu, but detected: ";

/// The mathematical content of an [`Orchestrator`]: its state, its plan, the
/// number of tasks that passed, the number of commands that were launched, and
/// what it failed with.
pub struct Run {
    pub state: RunState,
    pub plan: Seq<TaskSpec>,
    pub cursor: nat,
    pub launched: nat,
    pub failure: Option<Failure>,
}

/// What holds of every run: the plan is there from the first command on; a
/// command is due only while tasks are left; every task before the cursor
/// passed, and at most the one at the cursor was launched besides; a failure
/// is recorded exactly in the state `Failed`.
pub open spec fn well_formed(run: Run) -> bool {
    &&& run.cursor <= run.plan.len()
    &&& run.cursor <= run.launched <= run.cursor + 1
    &&& run.launched <= run.plan.len()
    &&& (run.failure is Some <==> run.state == RunState::Failed)
    &&& (run.state == RunState::NotStarted || run.state == RunState::OsChecked ==> run.plan.len()
        == 0)
    &&& (run.state == RunState::Running ==> run.cursor < run.plan.len())
    &&& (run.state == RunState::Completed ==> run.cursor == run.plan.len())
    &&& (run.state != RunState::Failed ==> run.launched == run.cursor)
}

/// The run before anything happened.
pub open spec fn fresh() -> Run {
    Run { state: RunState::NotStarted, plan: Seq::empty(), cursor: 0, launched: 0, failure: None }
}

/// `run`, given up with `failure`.
pub open spec fn given_up(run: Run, failure: Failure) -> Run {
    Run { state: RunState::Failed, failure: Some(failure), ..run }
}

/// `run` after the operating system was detected as `os`: a run that has not
/// started goes on if `os` is the supported system and is given up if not;
/// any other run stays as it is.
pub open spec fn os_checked(run: Run, os: Seq<char>) -> Run {
    if run.state != RunState::NotStarted {
        run
    } else if os == SUPPORTED_OS@ {
        Run { state: RunState::OsChecked, ..run }
    } else {
        given_up(run, Failure::Scripting { message: UNSUPPORTED_OS@ + os, exit_code: 1 })
    }
}

/// A run over `plan` with its first command due, or completed at once where
/// the plan is empty.
pub open spec fn begun(plan: Seq<TaskSpec>) -> Run {
    Run {
        state: if plan.len() == 0 {
            RunState::Completed
        } else {
            RunState::Running
        },
        plan,
        cursor: 0,
        launched: 0,
        failure: None,
    }
}

/// `run` after its inputs were read, for a manifest that parsed to `tree`: a
/// run whose system was checked is given up where the elevation signal or the
/// manifest is refused, and else begins the plan laid out for them; any other
/// run stays as it is. The signal is looked at first.
pub open spec fn prepared(
    run: Run,
    signal: Option<Seq<char>>,
    tree: JsonTree,
    document: Seq<u8>,
) -> Run {
    if run.state != RunState::OsChecked {
        run
    } else {
        match resolved(signal) {
            Err(e) => given_up(run, e),
            Ok(ctx) => match manifest_of(tree) {
                Err(e) => given_up(run, e),
                Ok(ids) => begun(plan_of(ctx, ids, document)),
            },
        }
    }
}

/// The task whose command is due in `run`, if one is.
pub open spec fn due(run: Run) -> Option<TaskSpec> {
    if run.state == RunState::Running && run.cursor < run.plan.len() {
        Some(run.plan[run.cursor as int])
    } else {
        None
    }
}

/// `run` after the launcher reported on the command that was due: where the
/// task passes, the next one is due, or the run is completed after the last;
/// where it fails, the run is given up with that failure, and what remains of
/// the plan never runs. A run without a command due stays as it is.
pub open spec fn recorded(run: Run, report: Observation) -> Run {
    match due(run) {
        None => run,
        Some(task) => match verdict(task, report) {
            Ok(_) => Run {
                state: if run.cursor + 1 == run.plan.len() {
                    RunState::Completed
                } else {
                    RunState::Running
                },
                cursor: run.cursor + 1,
                launched: run.launched + 1,
                ..run
            },
            Err(e) => Run { launched: run.launched + 1, ..given_up(run, e) },
        },
    }
}

/// The exit code that `run` ends the process with: 0 after completion, 1 after
/// a failure, none while the run is under way.
pub open spec fn exit_code_of(run: Run) -> Option<i32> {
    match run.state {
        RunState::Completed => Some(0i32),
        RunState::Failed => Some(1i32),
        _ => None,
    }
}

/// The sequencing of a run: which command is due, and what follows from the
/// launcher's report on it. It launches nothing itself.
#[derive(Debug)]
pub struct Orchestrator {
    state: RunState,
    plan: Vec<Task>,
    cursor: usize,
    launched: usize,
    failure: Option<ProcessError>,
}

/// The failure that an optional error stands for.
pub open spec fn failure_of(error: Option<ProcessError>) -> Option<Failure> {
    match error {
        Some(e) => Some(e@),
        None => None,
    }
}

impl View for Orchestrator {
    type V = Run;

    closed spec fn view(&self) -> Run {
        Run {
            state: self.state,
            plan: tasks(self.plan@),
            cursor: self.cursor as nat,
            launched: self.launched as nat,
            failure: failure_of(self.failure),
        }
    }
}

impl Orchestrator {
    #[verifier::type_invariant]
    spec fn sound(self) -> bool {
        well_formed(self@)
    }

    /// A run that has not started.
    pub fn new() -> (run: Self)
        ensures
            run@ == fresh(),
    {
        let plan: Vec<Task> = Vec::new();
        assert(tasks(plan@) =~= Seq::empty());
        Orchestrator { state: RunState::NotStarted, plan, cursor: 0, launched: 0, failure: None }
    }

    /// A run over `plan`, with its first command due.
    pub fn with_plan(plan: Vec<Task>) -> (run: Self)
        ensures
            run@ == begun(tasks(plan@)),
    {
        let state = if plan.len() == 0 {
            RunState::Completed
        } else {
            RunState::Running
        };
        Orchestrator { state, plan, cursor: 0, launched: 0, failure: None }
    }

    /// Takes the detected operating system: see [`os_checked`].
    pub fn check_os(self, os: &str) -> (run: Self)
        ensures
            run@ == os_checked(self@, os@),
    {
        proof {
            use_type_invariant(&self);
        }
        let Orchestrator { state, plan, cursor, launched, failure } = self;
        match state {
            RunState::NotStarted => {
                if os.to_string() == SUPPORTED_OS.to_string() {
                    Orchestrator { state: RunState::OsChecked, plan, cursor, launched, failure }
                } else {
                    let error_msg = UNSUPPORTED_OS.to_string().concat(os);
                    Orchestrator {
                        state: RunState::Failed,
                        plan,
                        cursor,
                        launched,
                        failure: Some(ProcessError::ScriptingError { error_msg, exit_code: 1 }),
                    }
                }
            },
            _ => Orchestrator { state, plan, cursor, launched, failure },
        }
    }

    /// Takes the inputs of the run: the elevation signal, the extension
    /// manifest and the settings document. Both the signal and the manifest
    /// are settled here, before any command is due: see [`prepared`]. A
    /// manifest that is no JSON document gives the run up with the parser's
    /// error, unless the signal was refused before.
    pub fn prepare(self, sudo_user: Option<&str>, extensions_json: &str, settings_json: &str) -> (run:
        Self)
        ensures
            match json_document(extensions_json@) {
                Some(tree) => run@ == prepared(
                    self@,
                    signal_text(sudo_user),
                    tree,
                    settings_json.spec_bytes(),
                ),
                None => if self@.state != RunState::OsChecked {
                    run@ == self@
                } else {
                    match resolved(signal_text(sudo_user)) {
                        Err(e) => run@ == given_up(self@, e),
                        Ok(_) => exists|e: serde_json::Error|
                            run@ == given_up(self@, Failure::Json(e)),
                    }
                },
            },
    {
        proof {
            use_type_invariant(&self);
        }
        let Orchestrator { state, plan, cursor, launched, failure } = self;
        match state {
            RunState::OsChecked => {
                let ctx = match resolve(sudo_user) {
                    Ok(ctx) => ctx,
                    Err(e) => {
                        return Orchestrator {
                            state: RunState::Failed,
                            plan,
                            cursor,
                            launched,
                            failure: Some(e),
                        };
                    },
                };
                match parse_extensions(extensions_json) {
                    Ok(ids) => Orchestrator::with_plan(crate::cli::orchestrator::plan(&ctx, &ids, settings_json)),
                    Err(e) => {
                        let ghost cause = e@;
                        let run = Orchestrator {
                            state: RunState::Failed,
                            plan,
                            cursor,
                            launched,
                            failure: Some(e),
                        };
                        proof {
                            if json_document(extensions_json@) is None {
                                assert(run@ == given_up(self@, Failure::Json(cause->Json_0)));
                            }
                        }
                        run
                    },
                }
            },
            _ => Orchestrator { state, plan, cursor, launched, failure },
        }
    }

    /// The task whose command is to be launched now; `None` before the plan
    /// is laid out and after the run has ended.
    pub fn current(&self) -> (task: Option<&Task>)
        ensures
            match task {
                Some(t) => due(self@) == Some(t@),
                None => due(self@) is None,
            },
    {
        proof {
            use_type_invariant(self);
        }
        assert(tasks(self.plan@).len() == self.plan@.len());
        match self.state {
            RunState::Running => {
                assert(tasks(self.plan@)[self.cursor as int] == self.plan@[self.cursor as int]@);
                Some(&self.plan[self.cursor])
            },
            _ => None,
        }
    }

    /// Takes the launcher's report on the command that was due: see
    /// [`recorded`].
    pub fn record(self, report: LaunchReport) -> (run: Self)
        ensures
            run@ == recorded(self@, report@),
    {
        proof {
            use_type_invariant(&self);
        }
        let Orchestrator { state, plan, cursor, launched, failure } = self;
        assert(well_formed(self@) && self@.plan.len() == plan@.len());
        match state {
            RunState::Running => {
                assert(cursor < plan.len());
                assert(tasks(plan@)[cursor as int] == plan@[cursor as int]@);
                match plan[cursor].settle(report) {
                    Ok(_) => {
                        let state = if cursor + 1 == plan.len() {
                            RunState::Completed
                        } else {
                            RunState::Running
                        };
                        Orchestrator {
                            state,
                            plan,
                            cursor: cursor + 1,
                            launched: launched + 1,
                            failure,
                        }
                    },
                    Err(e) => Orchestrator {
                        state: RunState::Failed,
                        plan,
                        cursor,
                        launched: launched + 1,
                        failure: Some(e),
                    },
                }
            },
            _ => Orchestrator { state, plan, cursor, launched, failure },
        }
    }

    /// Where the run stands.
    pub fn state(&self) -> (state: RunState)
        ensures
            state == self@.state,
            well_formed(self@),
    {
        proof {
            use_type_invariant(self);
        }
        self.state
    }

    /// The exit code to end the process with, once the run has ended.
    pub fn exit_code(&self) -> (code: Option<i32>)
        ensures
            code == exit_code_of(self@),
    {
        match self.state {
            RunState::Completed => Some(0),
            RunState::Failed => Some(1),
            _ => None,
        }
    }

    /// The tasks of the run, in order.
    pub fn tasks(&self) -> (list: &Vec<Task>)
        ensures
            tasks(list@) == self@.plan,
    {
        &self.plan
    }

    /// How many tasks have passed.
    pub fn position(&self) -> (n: usize)
        ensures
            n == self@.cursor,
    {
        self.cursor
    }

    /// How many commands were launched so far.
    pub fn launched(&self) -> (n: usize)
        ensures
            n == self@.launched,
    {
        self.launched
    }

    /// What the run failed with, if it failed.
    pub fn failure(&self) -> (error: Option<&ProcessError>)
        ensures
            match error {
                Some(e) => self@.failure == Some(e@),
                None => self@.failure is None,
            },
    {
        match &self.failure {
            Some(e) => Some(e),
            None => None,
        }
    }

    /// Ends the run and hands out what it failed with, if it failed.
    pub fn into_result(self) -> (r: Result<(), ProcessError>)
        ensures
            match r {
                Ok(_) => self@.failure is None,
                Err(e) => self@.failure == Some(e@),
            },
    {
        proof {
            use_type_invariant(&self);
        }
        let Orchestrator { state: _, plan: _, cursor: _, launched: _, failure } = self;
        match failure {
            Some(e) => Err(e),
            None => Ok(()),
        }
    }
}

/// `run` after the launcher's `reports` were taken one after the other.
pub open spec fn after(run: Run, reports: Seq<Observation>) -> Run
    decreases reports.len(),
{
    if reports.len() == 0 {
        run
    } else {
        after(recorded(run, reports[0]), reports.drop_first())
    }
}

/// The place of `step` in the order of the steps.
pub open spec fn step_index(step: Step) -> nat {
    match step {
        Step::SystemPackages => 0,
        Step::VersionManager => 1,
        Step::NodeJs => 2,
        Step::RustToolchain => 3,
        Step::Editor => 4,
        Step::EditorConfiguration => 5,
    }
}

/// Every transition keeps a run well formed, and a run begins well formed.
pub proof fn law_runs_stay_well_formed(
    run: Run,
    os: Seq<char>,
    signal: Option<Seq<char>>,
    tree: JsonTree,
    document: Seq<u8>,
    report: Observation,
    plan: Seq<TaskSpec>,
)
    requires
        well_formed(run),
    ensures
        well_formed(fresh()),
        well_formed(begun(plan)),
        well_formed(os_checked(run, os)),
        well_formed(prepared(run, signal, tree, document)),
        well_formed(recorded(run, report)),
{
}

/// A run that has ended stays as it is, whatever is reported to it: nothing
/// leads out of `Completed` or `Failed`, and no command is due there.
pub proof fn law_ended_runs_stay(run: Run, reports: Seq<Observation>)
    requires
        run.state == RunState::Completed || run.state == RunState::Failed,
    ensures
        due(run) is None,
        after(run, reports) == run,
    decreases reports.len(),
{
    if reports.len() > 0 {
        law_ended_runs_stay(run, reports.drop_first());
    }
}

/// On a system other than the supported one the run is given up at once: it
/// ends with exit code 1 and the message that names the system, no command
/// is ever due, and none is launched, whatever the other inputs are.
pub proof fn law_unsupported_os_runs_nothing(
    os: Seq<char>,
    signal: Option<Seq<char>>,
    tree: JsonTree,
    document: Seq<u8>,
    reports: Seq<Observation>,
)
    requires
        os != SUPPORTED_OS@,
    ensures
        ({
            let run = prepared(os_checked(fresh(), os), signal, tree, document);
            &&& run.state == RunState::Failed
            &&& run.failure == Some(
                Failure::Scripting { message: UNSUPPORTED_OS@ + os, exit_code: 1 },
            )
            &&& exit_code_of(run) == Some(1i32)
            &&& due(run) is None
            &&& after(run, reports) == run
            &&& after(run, reports).launched == 0
        }),
{
    let run = prepared(os_checked(fresh(), os), signal, tree, document);
    law_ended_runs_stay(run, reports);
}

/// With an elevation signal that names no valid user the run is given up
/// before any command is due: it ends with exit code 1 and the failure of the
/// username policy, and nothing is launched.
pub proof fn law_refused_signal_runs_nothing(
    signal: Option<Seq<char>>,
    tree: JsonTree,
    document: Seq<u8>,
    reports: Seq<Observation>,
)
    requires
        resolved(signal) is Err,
    ensures
        ({
            let run = prepared(os_checked(fresh(), SUPPORTED_OS@), signal, tree, document);
            &&& run.state == RunState::Failed
            &&& run.failure == Some(resolved(signal)->Err_0)
            &&& exit_code_of(run) == Some(1i32)
            &&& due(run) is None
            &&& after(run, reports) == run
            &&& after(run, reports).launched == 0
        }),
{
    let run = prepared(os_checked(fresh(), SUPPORTED_OS@), signal, tree, document);
    law_ended_runs_stay(run, reports);
}

/// With a manifest that lacks the list of extensions the run is given up
/// before any command is due, with a configuration error.
pub proof fn law_refused_manifest_runs_nothing(
    signal: Option<Seq<char>>,
    tree: JsonTree,
    document: Seq<u8>,
    reports: Seq<Observation>,
)
    requires
        resolved(signal) is Ok,
        manifest_of(tree) is Err,
    ensures
        ({
            let run = prepared(os_checked(fresh(), SUPPORTED_OS@), signal, tree, document);
            &&& run.state == RunState::Failed
            &&& run.failure == Some(manifest_of(tree)->Err_0)
            &&& run.failure->0 is Configuration
            &&& exit_code_of(run) == Some(1i32)
            &&& due(run) is None
            &&& after(run, reports).launched == 0
        }),
{
    let run = prepared(os_checked(fresh(), SUPPORTED_OS@), signal, tree, document);
    law_ended_runs_stay(run, reports);
}

/// Fail fast: where the next `k` tasks pass and the one after them fails with
/// `e`, the run ends as failed with `e` and exit code 1. Exactly the tasks up
/// to the failing one were launched; those behind it never run, whatever else
/// is reported.
pub proof fn law_first_failure_ends_run(run: Run, reports: Seq<Observation>, k: nat, e: Failure)
    requires
        well_formed(run),
        run.state == RunState::Running,
        k < reports.len(),
        run.cursor + k < run.plan.len(),
        forall|j: int| 0 <= j < k ==> verdict(run.plan[run.cursor + j], #[trigger] reports[j]) is Ok,
        verdict(run.plan[run.cursor + k as int], reports[k as int]) == Err::<(), Failure>(e),
    ensures
        after(run, reports) == (Run {
            state: RunState::Failed,
            plan: run.plan,
            cursor: run.cursor + k,
            launched: run.launched + k + 1,
            failure: Some(e),
        }),
        exit_code_of(after(run, reports)) == Some(1i32),
    decreases k,
{
    let next = recorded(run, reports[0]);
    let rest = reports.drop_first();
    if k == 0 {
        law_ended_runs_stay(next, rest);
    } else {
        assert(verdict(run.plan[run.cursor as int], reports[0]) is Ok);
        assert forall|j: int| 0 <= j < k - 1 implies verdict(
            next.plan[next.cursor + j],
            #[trigger] rest[j],
        ) is Ok by {
            assert(rest[j] == reports[j + 1]);
        }
        assert(rest[k - 1] == reports[k as int]);
        law_first_failure_ends_run(next, rest, (k - 1) as nat, e);
    }
}

/// Where every task that is left passes, the run is completed: it ends with
/// exit code 0, each task of the plan was launched exactly once, in the order
/// of the plan, and nothing failed.
pub proof fn law_all_passing_completes(run: Run, reports: Seq<Observation>)
    requires
        well_formed(run),
        run.state == RunState::Running,
        reports.len() >= run.plan.len() - run.cursor,
        forall|j: int|
            0 <= j < run.plan.len() - run.cursor ==> verdict(
                run.plan[run.cursor + j],
                #[trigger] reports[j],
            ) is Ok,
    ensures
        after(run, reports) == (Run {
            state: RunState::Completed,
            plan: run.plan,
            cursor: run.plan.len(),
            launched: run.plan.len(),
            failure: None,
        }),
        exit_code_of(after(run, reports)) == Some(0i32),
    decreases run.plan.len() - run.cursor,
{
    let next = recorded(run, reports[0]);
    let rest = reports.drop_first();
    assert(verdict(run.plan[run.cursor as int], reports[0]) is Ok);
    if next.state == RunState::Completed {
        law_ended_runs_stay(next, rest);
    } else {
        assert forall|j: int| 0 <= j < next.plan.len() - next.cursor implies verdict(
            next.plan[next.cursor + j],
            #[trigger] rest[j],
        ) is Ok by {
            assert(rest[j] == reports[j + 1]);
        }
        law_all_passing_completes(next, rest);
    }
}

/// While a run is under way, the command that is due is the task of the plan
/// at the cursor: tasks are handed out in the order of the plan, one at a
/// time, and each only after all before it have passed.
pub proof fn law_tasks_run_in_order(run: Run, report: Observation)
    requires
        well_formed(run),
        run.state == RunState::Running,
    ensures
        due(run) == Some(run.plan[run.cursor as int]),
        recorded(run, report).plan == run.plan,
        recorded(run, report).state == RunState::Running ==> due(recorded(run, report)) == Some(
            run.plan[run.cursor + 1 as int],
        ),
        recorded(run, report).state == RunState::Failed ==> recorded(run, report).cursor
            == run.cursor,
{
}

/// The shape of every plan. It holds fifteen tasks besides one per extension.
/// Its steps stand in their fixed order. It probes each tool exactly once,
/// right after the command that installs it. The extensions are installed in
/// the order of the manifest, one command each, and the settings are written
/// last.
pub proof fn law_plan_shape(ctx: Context, ids: Seq<Seq<char>>, document: Seq<u8>)
    ensures
        ({
            let plan = plan_of(ctx, ids, document);
            &&& plan.len() == 15 + ids.len()
            &&& forall|i: int, j: int|
                0 <= i <= j < plan.len() ==> step_index(#[trigger] plan[i].step) <= step_index(
                    #[trigger] plan[j].step,
                )
            &&& forall|i: int|
                0 <= i < plan.len() ==> ((#[trigger] plan[i]).probe is Some <==> i == 7 || i == 10)
            &&& plan[6] == install(Step::VersionManager, scoped(ctx, NVM_INSTALL@))
            &&& plan[7] == probe(Step::VersionManager, ToolId::Nvm, ctx)
            &&& plan[9] == install(Step::RustToolchain, scoped(ctx, RUST_INSTALL@))
            &&& plan[10] == probe(Step::RustToolchain, ToolId::Rust, ctx)
            &&& forall|i: int|
                0 <= i < ids.len() ==> #[trigger] plan[14 + i] == install(
                    Step::EditorConfiguration,
                    extension_install(ctx, ids[i]),
                )
            &&& plan[14 + ids.len() as int] == install(
                Step::EditorConfiguration,
                scoped(ctx, settings_script(document)),
            )
        }),
{
    let plan = plan_of(ctx, ids, document);
    let packages = installs(
        Step::SystemPackages,
        system_packages().map_values(|p: Seq<char>| crate::cli::executor::apt_install(p)),
    );
    let middle = seq![
        install(Step::VersionManager, scoped(ctx, NVM_INSTALL@)),
        probe(Step::VersionManager, ToolId::Nvm, ctx),
        install(Step::NodeJs, scoped(ctx, NODE_INSTALL@)),
        install(Step::RustToolchain, scoped(ctx, RUST_INSTALL@)),
        probe(Step::RustToolchain, ToolId::Rust, ctx),
    ];
    let editor = installs(Step::Editor, editor_bootstrap());
    let config = installs(Step::EditorConfiguration, editor_configuration(ctx, ids, document));
    assert(packages.len() == 6);
    assert(middle.len() == 5);
    assert(editor.len() == 3);
    assert(config.len() == ids.len() + 1);
    assert(plan == packages + middle + editor + config);
    assert forall|i: int| 0 <= i < plan.len() implies (#[trigger] plan[i]).step == (if i < 6 {
        Step::SystemPackages
    } else if i < 8 {
        Step::VersionManager
    } else if i < 9 {
        Step::NodeJs
    } else if i < 11 {
        Step::RustToolchain
    } else if i < 14 {
        Step::Editor
    } else {
        Step::EditorConfiguration
    }) && (plan[i].probe is Some <==> i == 7 || i == 10) by {
        if i < 6 {
            assert(plan[i] == packages[i]);
        } else if i < 11 {
            assert(plan[i] == middle[i - 6]);
        } else if i < 14 {
            assert(plan[i] == editor[i - 11]);
        } else {
            assert(plan[i] == config[i - 14]);
        }
    }
    assert(plan[6] == middle[0]);
    assert(plan[7] == middle[1]);
    assert(plan[9] == middle[3]);
    assert(plan[10] == middle[4]);
    assert forall|i: int| 0 <= i < ids.len() implies #[trigger] plan[14 + i] == install(
        Step::EditorConfiguration,
        extension_install(ctx, ids[i]),
    ) by {
        assert(plan[14 + i] == config[i]);
    }
    assert(plan[14 + ids.len() as int] == config[ids.len() as int]);
}

/// The system packages and the editor are installed with the privilege of
/// the process, whoever the run is for: their commands stand in every plan as
/// they stand in the plan of the invoking user. Every other command is laid
/// out for the user of the context.
pub proof fn law_root_steps_ignore_context(
    ctx: Context,
    other: Context,
    ids: Seq<Seq<char>>,
    document: Seq<u8>,
)
    ensures
        forall|i: int|
            0 <= i < 6 || 11 <= i < 14 ==> #[trigger] plan_of(ctx, ids, document)[i] == plan_of(
                other,
                ids,
                document,
            )[i],
        plan_of(ctx, ids, document)[6].command == scoped(ctx, NVM_INSTALL@),
        plan_of(ctx, ids, document)[7].command == probing(ctx, probe_script(ToolId::Nvm)),
        plan_of(ctx, ids, document)[8].command == scoped(ctx, NODE_INSTALL@),
        plan_of(ctx, ids, document)[9].command == scoped(ctx, RUST_INSTALL@),
        plan_of(ctx, ids, document)[10].command == probing(ctx, probe_script(ToolId::Rust)),
{
    let packages = installs(
        Step::SystemPackages,
        system_packages().map_values(|p: Seq<char>| crate::cli::executor::apt_install(p)),
    );
    let editor = installs(Step::Editor, editor_bootstrap());
    assert(packages.len() == 6);
    assert(editor.len() == 3);
    assert forall|i: int| 0 <= i < 6 || 11 <= i < 14 implies #[trigger] plan_of(
        ctx,
        ids,
        document,
    )[i] == plan_of(other, ids, document)[i] by {
        if i < 6 {
            assert(plan_of(ctx, ids, document)[i] == packages[i]);
            assert(plan_of(other, ids, document)[i] == packages[i]);
        } else {
            assert(plan_of(ctx, ids, document)[i] == editor[i - 11]);
            assert(plan_of(other, ids, document)[i] == editor[i - 11]);
        }
    }
}

} // verus!
