//! External commands and what becomes of them once they ran.

use crate::error::Failure;
use crate::error::ProcessError;
use std::path::PathBuf;
use std::time::Duration;
use vstd::prelude::*;
use vstd::string::*;

verus! {

/// `std::path::PathBuf`: a path is carried through as it is, and nothing is
/// read from it here.
#[verifier::external_type_specification]
#[verifier::external_body]
pub struct ExPathBuf(PathBuf);

/// An external command: what to run, with which arguments, in which
/// environment. The arguments are kept as separate strings and handed to the
/// operating system as such; nothing here joins them into a shell line.
#[derive(Debug)]
pub struct CommandBuilder {
    program: String,
    args: Vec<String>,
    env_vars: Option<Vec<(String, String)>>,
    working_dir: Option<PathBuf>,
    timeout: Option<Duration>,
}

/// The mathematical content of a [`CommandBuilder`].
pub struct CommandSpec {
    pub program: Seq<char>,
    pub args: Seq<Seq<char>>,
    pub env: Option<Map<Seq<char>, Seq<char>>>,
    pub working_dir: Option<PathBuf>,
    pub timeout: Option<Duration>,
}

/// The strings of `v`, each as a character sequence.
pub open spec fn texts(v: Seq<String>) -> Seq<Seq<char>> {
    v.map_values(|s: String| s@)
}

/// The mapping that a list of (name, value) entries stands for.
pub open spec fn env_map(entries: Seq<(String, String)>) -> Map<Seq<char>, Seq<char>>
    decreases entries.len(),
{
    if entries.len() == 0 {
        Map::empty()
    } else {
        env_map(entries.drop_last()).insert(entries.last().0@, entries.last().1@)
    }
}

/// No name occurs twice among `entries`.
pub open spec fn distinct_names(entries: Seq<(String, String)>) -> bool {
    forall|i: int, j: int|
        0 <= i < j < entries.len() ==> (#[trigger] entries[i]).0@ != (#[trigger] entries[j]).0@
}

/// Of entries with distinct names, the mapping holds exactly the names listed,
/// each with its own value.
pub proof fn lemma_env_map_entries(entries: Seq<(String, String)>)
    requires
        distinct_names(entries),
    ensures
        forall|k: Seq<char>|
            env_map(entries).contains_key(k) <==> exists|i: int|
                0 <= i < entries.len() && (#[trigger] entries[i]).0@ == k,
        forall|i: int|
            0 <= i < entries.len() ==> env_map(entries)[(#[trigger] entries[i]).0@]
                == entries[i].1@,
    decreases entries.len(),
{
    if entries.len() > 0 {
        let front = entries.drop_last();
        let last = entries.last();
        assert(distinct_names(front)) by {
            assert forall|i: int, j: int| 0 <= i < j < front.len() implies (#[trigger] front[i]).0@
                != (#[trigger] front[j]).0@ by {
                assert(front[i] == entries[i] && front[j] == entries[j]);
            }
        }
        lemma_env_map_entries(front);
        assert forall|k: Seq<char>|
            env_map(entries).contains_key(k) <==> exists|i: int|
                0 <= i < entries.len() && (#[trigger] entries[i]).0@ == k by {
            if env_map(entries).contains_key(k) {
                if k == last.0@ {
                    assert(entries[entries.len() - 1].0@ == k);
                } else {
                    assert(env_map(front).contains_key(k));
                    let i = choose|i: int| 0 <= i < front.len() && (#[trigger] front[i]).0@ == k;
                    assert(front[i] == entries[i]);
                }
            }
            if exists|i: int| 0 <= i < entries.len() && (#[trigger] entries[i]).0@ == k {
                let i = choose|i: int| 0 <= i < entries.len() && (#[trigger] entries[i]).0@ == k;
                if i < front.len() {
                    assert(front[i] == entries[i]);
                    assert(env_map(front).contains_key(k));
                }
            }
        }
        assert forall|i: int| 0 <= i < entries.len() implies env_map(entries)[(
            #[trigger] entries[i]).0@] == entries[i].1@ by {
            if i < front.len() {
                assert(front[i] == entries[i]);
                assert(entries[i].0@ != entries[entries.len() - 1].0@);
            }
        }
    }
}

/// What a finished process left behind: the bytes it wrote to standard output
/// and standard error, and its exit status (`None` where it ended without one,
/// as a process killed by a signal does).
#[derive(Debug, PartialEq, Eq)]
pub struct ExecutionResult {
    pub stdout: Vec<u8>,
    pub stderr: Vec<u8>,
    pub status: Option<i32>,
}

/// The mathematical content of an [`ExecutionResult`].
pub struct Captured {
    pub stdout: Seq<u8>,
    pub stderr: Seq<u8>,
    pub status: Option<i32>,
}

impl View for ExecutionResult {
    type V = Captured;

    open spec fn view(&self) -> Captured {
        Captured { stdout: self.stdout@, stderr: self.stderr@, status: self.status }
    }
}

/// What the launcher saw of one command.
#[derive(Debug)]
pub enum LaunchReport {
    /// The process ran and ended.
    Exited(ExecutionResult),
    /// The process could not be started.
    SpawnFailed(std::io::Error),
    /// The process was stopped because it ran past its time limit.
    TimedOut,
}

/// The mathematical content of a [`LaunchReport`].
pub enum Observation {
    Exited(Captured),
    SpawnFailed(std::io::Error),
    TimedOut,
}

impl View for LaunchReport {
    type V = Observation;

    open spec fn view(&self) -> Observation {
        match self {
            LaunchReport::Exited(out) => Observation::Exited(out@),
            LaunchReport::SpawnFailed(e) => Observation::SpawnFailed(*e),
            LaunchReport::TimedOut => Observation::TimedOut,
        }
    }
}

/// The text that `String::from_utf8_lossy` makes of `bytes`.
pub uninterp spec fn utf8_lossy(bytes: Seq<u8>) -> Seq<char>;

/// `String::from_utf8_lossy`: the text of `bytes`, with each ill-formed part
/// replaced by U+FFFD. Well-formed UTF-8 comes out as the text it encodes.
#[verifier::external_body]
fn lossy_text(bytes: &Vec<u8>) -> (text: String)
    ensures
        text@ == utf8_lossy(bytes@),
        vstd::utf8::valid_utf8(bytes@) ==> text@ == vstd::utf8::decode_utf8(bytes@),
{
    String::from_utf8_lossy(bytes).into_owned()
}

/// The exit code reported for a process that ended with `status`: the low 16
/// bits of its code, and 1 where it ended without one.
pub open spec fn exit_code_of(status: Option<i32>) -> u16 {
    match status {
        Some(code) => code as u16,
        None => 1,
    }
}

/// Whether an observation is that of a process that ran and exited with 0.
pub open spec fn succeeded(report: Observation) -> bool {
    report matches Observation::Exited(out) && out.status == Some(0i32)
}

/// What running `cmd` comes to, given what the launcher saw of it.
pub open spec fn outcome(cmd: CommandSpec, report: Observation) -> Result<Captured, Failure> {
    match report {
        Observation::Exited(out) => if out.status == Some(0i32) {
            Ok(out)
        } else {
            Err(
                Failure::Scripting {
                    message: utf8_lossy(out.stderr),
                    exit_code: exit_code_of(out.status),
                },
            )
        },
        Observation::SpawnFailed(e) => Err(Failure::Io(e)),
        Observation::TimedOut => Err(Failure::Timeout { program: cmd.program }),
    }
}

/// The failure of a process that ended with `status`, which is not a plain 0,
/// after writing `error_msg` to standard error.
pub fn scripting_error(error_msg: String, status: Option<i32>) -> (e: ProcessError)
    ensures
        e@ == (Failure::Scripting { message: error_msg@, exit_code: exit_code_of(status) }),
{
    let exit_code: u16 = match status {
        Some(code) => #[verifier::truncate]
        (code as u16),
        None => 1,
    };
    ProcessError::ScriptingError { error_msg, exit_code }
}

impl View for CommandBuilder {
    type V = CommandSpec;

    closed spec fn view(&self) -> CommandSpec {
        CommandSpec {
            program: self.program@,
            args: texts(self.args@),
            env: match self.env_vars {
                Some(entries) => Some(env_map(entries@)),
                None => None,
            },
            working_dir: self.working_dir,
            timeout: self.timeout,
        }
    }
}

impl CommandBuilder {
    #[verifier::type_invariant]
    spec fn distinct_env_names(self) -> bool {
        self.env_vars matches Some(entries) ==> distinct_names(entries@)
    }

    /// A command that runs `program` with no arguments and nothing else set.
    pub fn new(program: &str) -> (cmd: Self)
        ensures
            cmd@ == (CommandSpec {
                program: program@,
                args: Seq::empty(),
                env: None,
                working_dir: None,
                timeout: None,
            }),
    {
        let cmd = Self {
            program: program.to_string(),
            args: Vec::new(),
            env_vars: None,
            working_dir: None,
            timeout: None,
        };
        assert(texts(cmd.args@) =~= Seq::empty());
        cmd
    }

    /// Appends `arg` as one more argument, whatever characters it holds.
    pub fn arg(self, arg: &str) -> (cmd: Self)
        ensures
            cmd@ == (CommandSpec { args: self@.args.push(arg@), ..self@ }),
    {
        proof {
            use_type_invariant(&self);
        }
        let CommandBuilder { program, args, env_vars, working_dir, timeout } = self;
        let mut args = args;
        args.push(arg.to_string());
        assert(texts(args@) =~= texts(self.args@).push(arg@));
        CommandBuilder { program, args, env_vars, working_dir, timeout }
    }

    /// Appends each string of `args`, in order, as an argument of its own.
    pub fn args(self, args: Vec<String>) -> (cmd: Self)
        ensures
            cmd@ == (CommandSpec { args: self@.args + texts(args@), ..self@ }),
    {
        proof {
            use_type_invariant(&self);
        }
        let CommandBuilder { program, args: mut own, env_vars, working_dir, timeout } = self;
        let mut rest = args;
        own.append(&mut rest);
        assert(texts(own@) =~= texts(self.args@) + texts(args@));
        CommandBuilder { program, args: own, env_vars, working_dir, timeout }
    }

    /// Sets the environment variable `key` to `value` for the command,
    /// replacing the value an earlier call gave to the same name.
    pub fn env(self, key: &str, value: &str) -> (cmd: Self)
        ensures
            cmd@ == (CommandSpec {
                env: Some(
                    match self@.env {
                        Some(m) => m.insert(key@, value@),
                        None => map![key@ => value@],
                    },
                ),
                ..self@
            }),
    {
        proof {
            use_type_invariant(&self);
        }
        let CommandBuilder { program, args, env_vars, working_dir, timeout } = self;
        let mut entries: Vec<(String, String)> = match env_vars {
            Some(entries) => entries,
            None => Vec::new(),
        };
        let ghost before = entries@;
        let name = key.to_string();
        let mut at: usize = 0;
        while at < entries.len() && !(entries[at].0 == name)
            invariant
                at <= entries.len(),
                entries@ == before,
                name@ == key@,
                forall|j: int| 0 <= j < at ==> (#[trigger] entries[j]).0@ != key@,
            decreases entries.len() - at,
        {
            at += 1;
        }
        if at < entries.len() {
            entries.set(at, (name, value.to_string()));
        } else {
            entries.push((name, value.to_string()));
        }
        proof {
            let after = entries@;
            assert(distinct_names(after)) by {
                assert forall|i: int, j: int| 0 <= i < j < after.len() implies (
                #[trigger] after[i]).0@ != (#[trigger] after[j]).0@ by {
                    if i != at && i < before.len() {
                        assert(after[i] == before[i]);
                    }
                    if j != at && j < before.len() {
                        assert(after[j] == before[j]);
                    }
                }
            }
            lemma_env_map_entries(before);
            lemma_env_map_entries(after);
            let grown = env_map(before).insert(key@, value@);
            assert forall|k: Seq<char>| env_map(after).contains_key(k) <==> grown.contains_key(
                k,
            ) by {
                if env_map(after).contains_key(k) {
                    let i = choose|i: int| 0 <= i < after.len() && (#[trigger] after[i]).0@ == k;
                    if i != at {
                        assert(after[i] == before[i]);
                    }
                }
                if grown.contains_key(k) {
                    if k == key@ {
                        assert(after[at as int].0@ == k);
                    } else {
                        let i = choose|i: int|
                            0 <= i < before.len() && (#[trigger] before[i]).0@ == k;
                        assert(after[i] == before[i]);
                    }
                }
            }
            assert forall|k: Seq<char>| env_map(after).contains_key(k) implies env_map(after)[k]
                == grown[k] by {
                let i = choose|i: int| 0 <= i < after.len() && (#[trigger] after[i]).0@ == k;
                if i != at {
                    assert(after[i] == before[i]);
                }
            }
            assert(env_map(after) =~= grown);
            assert(env_map(Seq::<(String, String)>::empty()) =~= Map::empty());
            assert(Map::<Seq<char>, Seq<char>>::empty().insert(key@, value@) =~= map![key@ => value@]);
        }
        CommandBuilder { program, args, env_vars: Some(entries), working_dir, timeout }
    }

    /// Sets the directory the command starts in.
    pub fn current_dir(self, dir: PathBuf) -> (cmd: Self)
        ensures
            cmd@ == (CommandSpec { working_dir: Some(dir), ..self@ }),
    {
        proof {
            use_type_invariant(&self);
        }
        let CommandBuilder { program, args, env_vars, working_dir: _, timeout } = self;
        CommandBuilder { program, args, env_vars, working_dir: Some(dir), timeout }
    }

    /// Sets the time the command may run before it counts as failed.
    pub fn timeout(self, duration: Duration) -> (cmd: Self)
        ensures
            cmd@ == (CommandSpec { timeout: Some(duration), ..self@ }),
    {
        proof {
            use_type_invariant(&self);
        }
        let CommandBuilder { program, args, env_vars, working_dir, timeout: _ } = self;
        CommandBuilder { program, args, env_vars, working_dir, timeout: Some(duration) }
    }

    /// Settles one run of this command from what the launcher saw of it.
    ///
    /// A process that exited with status 0 yields its captured output,
    /// untouched. Any other exit is a [`ProcessError::ScriptingError`] with the
    /// text of its standard error and its exit code; a process that could not
    /// be started is an [`ProcessError::Io`]; one stopped at its time limit is
    /// a [`ProcessError::Timeout`].
    pub fn execute(&self, report: LaunchReport) -> (r: Result<ExecutionResult, ProcessError>)
        ensures
            match r {
                Ok(out) => outcome(self@, report@) == Ok::<Captured, Failure>(out@),
                Err(e) => outcome(self@, report@) == Err::<Captured, Failure>(e@),
            },
            r matches Ok(out) ==> report == LaunchReport::Exited(out),
    {
        match report {
            LaunchReport::Exited(out) => {
                match out.status {
                    Some(0) => Ok(out),
                    _ => {
                        let error_msg = lossy_text(&out.stderr);
                        Err(scripting_error(error_msg, out.status))
                    },
                }
            },
            LaunchReport::SpawnFailed(e) => Err(ProcessError::Io(e)),
            LaunchReport::TimedOut => Err(ProcessError::Timeout { program: self.program.clone() }),
        }
    }

    /// The command that installs the system package `package` without asking:
    /// `apt install -y <package>`.
    pub fn apt_install(package: &str) -> (cmd: Self)
        ensures
            cmd@ == (CommandSpec {
                program: "apt"@,
                args: seq!["install"@, "-y"@, package@],
                env: None,
                working_dir: None,
                timeout: None,
            }),
    {
        let args = vec!["install".to_string(), "-y".to_string(), package.to_string()];
        assert(texts(args@) =~= seq!["install"@, "-y"@, package@]);
        Self::new("apt").args(args)
    }

    /// The program to run.
    pub fn program(&self) -> (name: &str)
        ensures
            name@ == self@.program,
    {
        self.program.as_str()
    }

    /// The arguments, in the order they were given.
    pub fn arguments(&self) -> (list: &Vec<String>)
        ensures
            texts(list@) == self@.args,
    {
        &self.args
    }

    /// The environment overrides as (name, value) entries, `None` while no
    /// variable was ever set. No name occurs twice.
    pub fn env_vars(&self) -> (entries: Option<&Vec<(String, String)>>)
        ensures
            match entries {
                Some(list) => distinct_names(list@) && self@.env == Some(env_map(list@)),
                None => self@.env is None,
            },
    {
        proof {
            use_type_invariant(self);
        }
        match &self.env_vars {
            Some(list) => Some(list),
            None => None,
        }
    }

    /// The value the command sets the environment variable `key` to, if any.
    pub fn env_value(&self, key: &str) -> (value: Option<&String>)
        ensures
            match value {
                Some(v) => self@.env matches Some(m) && m.contains_key(key@) && m[key@] == v@,
                None => !(self@.env matches Some(m) && m.contains_key(key@)),
            },
    {
        proof {
            use_type_invariant(self);
        }
        match &self.env_vars {
            None => None,
            Some(entries) => {
                proof {
                    lemma_env_map_entries(entries@);
                }
                let name = key.to_string();
                let mut at: usize = 0;
                while at < entries.len()
                    invariant
                        at <= entries.len(),
                        name@ == key@,
                        distinct_names(entries@),
                        self.env_vars == Some(*entries),
                        forall|j: int| 0 <= j < at ==> (#[trigger] entries[j]).0@ != key@,
                    decreases entries.len() - at,
                {
                    if entries[at].0 == name {
                        proof {
                            lemma_env_map_entries(entries@);
                        }
                        return Some(&entries[at].1);
                    }
                    at += 1;
                }
                None
            },
        }
    }

    /// The directory the command starts in, if one was set.
    pub fn working_dir(&self) -> (dir: Option<&PathBuf>)
        ensures
            match dir {
                Some(d) => self@.working_dir == Some(*d),
                None => self@.working_dir is None,
            },
    {
        match &self.working_dir {
            Some(d) => Some(d),
            None => None,
        }
    }

    /// The time limit, if one was set.
    pub fn time_limit(&self) -> (limit: Option<Duration>)
        ensures
            limit == self@.timeout,
    {
        self.timeout
    }
}

} // verus!
