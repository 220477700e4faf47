//! A command line to spawn, and the decision of what a finished run
//! returns: its captured output, or a failure that tells what was run and
//! what came of it.
//!
//! Spawning and waiting are the caller's; this module is handed the exit
//! status and the captured streams as plain values.

use crate::text::{join, joined, texts, wraps};
use vstd::prelude::*;

verus! {

/// The number of lines in the window of a run that is shown live.
pub const LIVE_ROWS: usize = 10;

/// What a command is, mathematically.
pub struct CmdView {
    /// The program to run.
    pub program: Seq<char>,
    /// The arguments, in order.
    pub args: Seq<Seq<char>>,
    /// The variables to set for the child, as pairs of name and value, in
    /// the order in which they were given.
    pub env: Seq<(Seq<char>, Seq<char>)>,
    /// The directory to run in, where one was set.
    pub cwd: Option<Seq<char>>,
}

/// The character sequences of a list of pairs of strings.
pub open spec fn pairs(v: Seq<(String, String)>) -> Seq<(Seq<char>, Seq<char>)> {
    v.map_values(|p: (String, String)| (p.0@, p.1@))
}

impl CmdView {
    /// The command as a user would type it: the program, then each
    /// argument after a space.
    pub open spec fn shown(self) -> Seq<char> {
        if self.args.len() == 0 {
            self.program
        } else {
            self.program + seq![' '] + joined(self.args, seq![' '])
        }
    }

    /// The directory that the command runs in, as text: the one set, or
    /// `.` for the caller's own.
    pub open spec fn dir(self) -> Seq<char> {
        match self.cwd {
            Some(dir) => dir,
            None => seq!['.'],
        }
    }
}

/// A command to spawn.
#[derive(Debug, Clone, Default)]
pub struct Cmd {
    program: String,
    args: Vec<String>,
    env: Vec<(String, String)>,
    cwd: Option<String>,
}

impl View for Cmd {
    type V = CmdView;

    closed spec fn view(&self) -> CmdView {
        CmdView {
            program: self.program@,
            args: texts(self.args@),
            env: pairs(self.env@),
            cwd: match self.cwd {
                Some(dir) => Some(dir@),
                None => None,
            },
        }
    }
}

impl Cmd {
    /// The command that runs `program` without arguments.
    pub fn new(program: &str) -> (r: Self)
        ensures
            r@ == (CmdView {
                program: program@,
                args: Seq::empty(),
                env: Seq::empty(),
                cwd: None,
            }),
    {
        let r = Cmd {
            program: String::from_str(program),
            args: Vec::new(),
            env: Vec::new(),
            cwd: None,
        };
        proof {
            assert(texts(r.args@) =~= Seq::<Seq<char>>::empty());
            assert(pairs(r.env@) =~= Seq::<(Seq<char>, Seq<char>)>::empty());
        }
        r
    }

    /// Sets the variable `k` to `v` for the child.
    pub fn env(self, k: &str, v: &str) -> (r: Self)
        ensures
            r@ == (CmdView { env: self@.env.push((k@, v@)), ..self@ }),
    {
        let mut r = self;
        let ghost before = pairs(r.env@);
        let pair = (String::from_str(k), String::from_str(v));
        r.env.push(pair);
        proof {
            assert(pairs(r.env@) =~= before.push((k@, v@)));
        }
        r
    }

    /// Adds one argument.
    pub fn arg(self, arg: &str) -> (r: Self)
        ensures
            r@ == (CmdView { args: self@.args.push(arg@), ..self@ }),
    {
        let mut r = self;
        let ghost before = texts(r.args@);
        r.args.push(String::from_str(arg));
        proof {
            assert(texts(r.args@) =~= before.push(arg@));
        }
        r
    }

    /// Adds arguments, in order.
    pub fn args(self, args: &Vec<String>) -> (r: Self)
        ensures
            r@ == (CmdView { args: self@.args + texts(args@), ..self@ }),
    {
        let mut r = self;
        let ghost before = texts(r.args@);
        let ghost start = r@;
        let mut i: usize = 0;
        proof {
            assert(before + texts(args@).take(0) =~= before);
        }
        while i < args.len()
            invariant
                i <= args.len(),
                r@ == (CmdView { args: before + texts(args@).take(i as int), ..start }),
            decreases args.len() - i,
        {
            let ghost earlier = texts(r.args@);
            let next = args[i].clone();
            r.args.push(next);
            proof {
                assert(texts(r.args@) =~= earlier.push(next@));
                assert(earlier.push(next@) =~= before + texts(args@).take(i + 1));
            }
            i += 1;
        }
        proof {
            assert(texts(args@).take(args.len() as int) =~= texts(args@));
        }
        r
    }

    /// Sets the directory that the command runs in.
    pub fn cwd(self, dir: &str) -> (r: Self)
        ensures
            r@ == (CmdView { cwd: Some(dir@), ..self@ }),
    {
        let mut r = self;
        r.cwd = Some(String::from_str(dir));
        r
    }

    /// The directory that the command runs in, as text.
    pub fn get_cwd(&self) -> (r: String)
        ensures
            r@ == self@.dir(),
    {
        proof {
            reveal_strlit(".");
            assert("."@ =~= seq!['.']);
        }
        match &self.cwd {
            Some(dir) => dir.clone(),
            None => String::from_str("."),
        }
    }

    /// The program to run.
    pub fn program(&self) -> (r: &str)
        ensures
            r@ == self@.program,
    {
        self.program.as_str()
    }

    /// The arguments, in order.
    pub fn arguments(&self) -> (r: &Vec<String>)
        ensures
            texts(r@) == self@.args,
    {
        &self.args
    }

    /// The variables to set for the child, in the order given.
    pub fn variables(&self) -> (r: &Vec<(String, String)>)
        ensures
            pairs(r@) == self@.env,
    {
        &self.env
    }

    /// The directory that was set, if any.
    pub fn directory(&self) -> (r: Option<&str>)
        ensures
            match r {
                Some(dir) => self@.cwd == Some(dir@),
                None => self@.cwd is None,
            },
    {
        match &self.cwd {
            Some(dir) => Some(dir.as_str()),
            None => None,
        }
    }

    /// The command as a user would type it.
    pub fn to_string(&self) -> (r: String)
        ensures
            r@ == self@.shown(),
    {
        proof {
            reveal_strlit(" ");
            assert(" "@ =~= seq![' ']);
        }
        let mut out = self.program.clone();
        if self.args.len() > 0 {
            out.append(" ");
            out.append(join(&self.args, " ").as_str());
        }
        out
    }
}

/// How a child process ended.
#[derive(Debug, Clone)]
pub struct Exit {
    /// The exit code; `None` where the process was ended by a signal.
    pub code: Option<i32>,
    /// The status in words, as it is shown to the user.
    pub shown: String,
}

impl Exit {
    /// Whether the process ended with exit code zero.
    pub open spec fn succeeded(&self) -> bool {
        self.code == Some(0i32)
    }

    /// Whether the process ended with exit code zero.
    pub fn success(&self) -> (r: bool)
        ensures
            r == self.succeeded(),
    {
        match self.code {
            Some(code) => code == 0,
            None => false,
        }
    }
}

/// What a finished run hands back.
#[derive(Debug, Clone)]
pub struct CmdOutput {
    exit: Exit,
    stdout: String,
    stderr: String,
    output_override: Option<String>,
}

impl CmdOutput {
    /// The output of a run that captured the child's two streams.
    pub fn captured(exit: Exit, stdout: String, stderr: String) -> (r: Self)
        ensures
            r.exit() == exit,
            r.text_out() == stdout@,
            r.text_err() == stderr@,
    {
        CmdOutput { exit, stdout, stderr, output_override: None }
    }

    /// The output of a run that was shown live: `history` stands for both
    /// of the child's streams.
    pub fn live(exit: Exit, history: String) -> (r: Self)
        ensures
            r.exit() == exit,
            r.text_out() == history@,
            r.text_err() == history@,
    {
        CmdOutput {
            exit,
            stdout: String::new(),
            stderr: String::new(),
            output_override: Some(history),
        }
    }

    /// How the child ended.
    pub closed spec fn exit(&self) -> Exit {
        self.exit
    }

    /// What stands for the child's standard output.
    pub closed spec fn text_out(&self) -> Seq<char> {
        match self.output_override {
            Some(history) => history@,
            None => self.stdout@,
        }
    }

    /// What stands for the child's standard error.
    pub closed spec fn text_err(&self) -> Seq<char> {
        match self.output_override {
            Some(history) => history@,
            None => self.stderr@,
        }
    }

    /// How the child ended.
    pub fn status(&self) -> (r: &Exit)
        ensures
            *r == self.exit(),
    {
        &self.exit
    }

    /// The child's standard output; for a run shown live, the lines that
    /// the display took in.
    pub fn stdout(&self) -> (r: String)
        ensures
            r@ == self.text_out(),
    {
        match &self.output_override {
            Some(history) => history.clone(),
            None => self.stdout.clone(),
        }
    }

    /// The child's standard error; for a run shown live, the lines that
    /// the display took in.
    pub fn stderr(&self) -> (r: String)
        ensures
            r@ == self.text_err(),
    {
        match &self.output_override {
            Some(history) => history.clone(),
            None => self.stderr.clone(),
        }
    }
}

/// The failure of a command that could not be started.
pub open spec fn spawn_failure_spec(shown: Seq<char>, why: Seq<char>) -> Seq<char> {
    "failed to execute `"@ + shown + "`: "@ + why
}

/// The failure of a captured run that ended badly.
pub open spec fn run_failure_spec(
    shown: Seq<char>,
    status: Seq<char>,
    stdout: Seq<char>,
    stderr: Seq<char>,
) -> Seq<char> {
    "command `"@ + shown + "` failed (exit "@ + status + ")\nstdout: "@ + stdout + "\nstderr: "@
        + stderr
}

/// The failure of a live run that ended badly.
pub open spec fn live_failure_spec(
    shown: Seq<char>,
    status: Seq<char>,
    history: Seq<char>,
    env: Seq<char>,
) -> Seq<char> {
    "command `"@ + shown + "` failed (exit "@ + status + ")\nout: "@ + history + "\nenv: "@ + env
}

impl Cmd {
    /// The failure to report where the command could not be started for
    /// the reason `why`.
    pub fn spawn_failure(&self, why: &str) -> (r: String)
        ensures
            r@ == spawn_failure_spec(self@.shown(), why@),
    {
        let mut out = String::from_str("failed to execute `");
        out.append(self.to_string().as_str());
        out.append("`: ");
        out.append(why);
        out
    }

    /// What a captured run returns: the output where the child ended with
    /// exit code zero, else a failure that names the command, its status
    /// and both captured streams.
    pub fn run_result(&self, exit: Exit, stdout: String, stderr: String) -> (r: Result<
        CmdOutput,
        String,
    >)
        ensures
            match r {
                Ok(output) => {
                    &&& exit.succeeded()
                    &&& output.exit() == exit
                    &&& output.text_out() == stdout@
                    &&& output.text_err() == stderr@
                },
                Err(failure) => {
                    &&& !exit.succeeded()
                    &&& failure@ == run_failure_spec(
                        self@.shown(),
                        exit.shown@,
                        stdout@,
                        stderr@,
                    )
                },
            },
    {
        if exit.success() {
            Ok(CmdOutput::captured(exit, stdout, stderr))
        } else {
            let mut out = String::from_str("command `");
            out.append(self.to_string().as_str());
            out.append("` failed (exit ");
            out.append(exit.shown.as_str());
            out.append(")\nstdout: ");
            out.append(stdout.as_str());
            out.append("\nstderr: ");
            out.append(stderr.as_str());
            Err(out)
        }
    }

    /// What a live run returns: where the child ended with exit code zero
    /// an output in which `history`, the lines that the display took in,
    /// stands for both streams; else a failure that names the command,
    /// its status, the history and `env`, the variables set for the child.
    /// The failure holds the status and the whole history.
    pub fn run_live_result(&self, exit: Exit, history: String, env: &str) -> (r: Result<
        CmdOutput,
        String,
    >)
        ensures
            match r {
                Ok(output) => {
                    &&& exit.succeeded()
                    &&& output.exit() == exit
                    &&& output.text_out() == history@
                    &&& output.text_err() == history@
                },
                Err(failure) => {
                    &&& !exit.succeeded()
                    &&& failure@ == live_failure_spec(self@.shown(), exit.shown@, history@, env@)
                    &&& wraps(failure@, exit.shown@)
                    &&& wraps(failure@, history@)
                },
            },
    {
        if exit.success() {
            Ok(CmdOutput::live(exit, history))
        } else {
            proof {
                let shown = self@.shown();
                let whole = live_failure_spec(shown, exit.shown@, history@, env@);
                let head = "command `"@ + shown + "` failed (exit "@;
                let mid = ")\nout: "@;
                let tail = "\nenv: "@ + env@;
                assert(whole =~= head + exit.shown@ + (mid + history@ + tail));
                assert(whole =~= (head + exit.shown@ + mid) + history@ + tail);
            }
            let mut out = String::from_str("command `");
            out.append(self.to_string().as_str());
            out.append("` failed (exit ");
            out.append(exit.shown.as_str());
            out.append(")\nout: ");
            out.append(history.as_str());
            out.append("\nenv: ");
            out.append(env);
            Err(out)
        }
    }
}

/// The label under which the `i`-th of several commands is shown live:
/// the `i`-th of `names`, or the last where there are fewer.
pub fn label_for<'a>(names: &'a Vec<String>, i: usize) -> (r: &'a str)
    requires
        names.len() > 0,
    ensures
        i < names.len() ==> r@ == names@[i as int]@,
        i >= names.len() ==> r@ == names@[names.len() - 1]@,
{
    let at = if i < names.len() - 1 {
        i
    } else {
        names.len() - 1
    };
    names[at].as_str()
}

/// Each of `cmds`, set to run in `dir`.
pub fn with_cwd(cmds: Vec<Cmd>, dir: &str) -> (r: Vec<Cmd>)
    ensures
        r@.len() == cmds@.len(),
        forall|i: int|
            0 <= i < r@.len() ==> (#[trigger] r@[i])@ == (CmdView {
                cwd: Some(dir@),
                ..cmds@[i]@
            }),
{
    let mut out: Vec<Cmd> = Vec::new();
    let mut i: usize = 0;
    while i < cmds.len()
        invariant
            i <= cmds.len(),
            out@.len() == i,
            forall|j: int|
                0 <= j < i ==> (#[trigger] out@[j])@ == (CmdView { cwd: Some(dir@), ..cmds@[j]@ }),
        decreases cmds.len() - i,
    {
        let next = copy_of(&cmds[i]).cwd(dir);
        out.push(next);
        i += 1;
    }
    out
}

/// Each of `cmds`, with the variable `k` set to `v` for its child.
pub fn with_env(cmds: Vec<Cmd>, k: &str, v: &str) -> (r: Vec<Cmd>)
    ensures
        r@.len() == cmds@.len(),
        forall|i: int|
            0 <= i < r@.len() ==> (#[trigger] r@[i])@ == (CmdView {
                env: cmds@[i]@.env.push((k@, v@)),
                ..cmds@[i]@
            }),
{
    let mut out: Vec<Cmd> = Vec::new();
    let mut i: usize = 0;
    while i < cmds.len()
        invariant
            i <= cmds.len(),
            out@.len() == i,
            forall|j: int|
                0 <= j < i ==> (#[trigger] out@[j])@ == (CmdView {
                    env: cmds@[j]@.env.push((k@, v@)),
                    ..cmds@[j]@
                }),
        decreases cmds.len() - i,
    {
        let next = copy_of(&cmds[i]).env(k, v);
        out.push(next);
        i += 1;
    }
    out
}

/// A command equal to `cmd`.
fn copy_of(cmd: &Cmd) -> (r: Cmd)
    ensures
        r@ == cmd@,
{
    let mut r = Cmd::new(cmd.program.as_str()).args(&cmd.args);
    let mut i: usize = 0;
    let ghost start = r@;
    proof {
        assert(Seq::<Seq<char>>::empty() + texts(cmd.args@) =~= texts(cmd.args@));
        assert(pairs(cmd.env@).take(0) =~= Seq::<(Seq<char>, Seq<char>)>::empty());
    }
    while i < cmd.env.len()
        invariant
            i <= cmd.env.len(),
            r@ == (CmdView { env: pairs(cmd.env@).take(i as int), ..start }),
            start.program == cmd@.program,
            start.args == cmd@.args,
            start.cwd is None,
        decreases cmd.env.len() - i,
    {
        let pair = &cmd.env[i];
        r = r.env(pair.0.as_str(), pair.1.as_str());
        proof {
            assert(pairs(cmd.env@).take(i as int).push((pair.0@, pair.1@)) =~= pairs(
                cmd.env@,
            ).take(i + 1));
        }
        i += 1;
    }
    proof {
        assert(pairs(cmd.env@).take(cmd.env.len() as int) =~= pairs(cmd.env@));
    }
    match &cmd.cwd {
        Some(dir) => r.cwd(dir.as_str()),
        None => r,
    }
}

/// The standard outputs of `outputs`, one after the other.
pub fn stdout_of(outputs: &Vec<CmdOutput>) -> (r: String)
    ensures
        r@ == outputs@.map_values(|o: CmdOutput| o.text_out()).flatten(),
{
    let mut out = String::new();
    let mut i: usize = 0;
    let ghost all = outputs@.map_values(|o: CmdOutput| o.text_out());
    proof {
        assert(all.take(0) =~= Seq::<Seq<char>>::empty());
    }
    while i < outputs.len()
        invariant
            i <= outputs.len(),
            all == outputs@.map_values(|o: CmdOutput| o.text_out()),
            out@ == all.take(i as int).flatten(),
        decreases outputs.len() - i,
    {
        proof {
            assert(all.take(i + 1) =~= all.take(i as int).push(all[i as int]));
            all.take(i as int).lemma_flatten_push(all[i as int]);
        }
        out.append(outputs[i].stdout().as_str());
        i += 1;
    }
    proof {
        assert(all.take(outputs.len() as int) =~= all);
    }
    out
}

/// The standard errors of `outputs`, one after the other.
pub fn stderr_of(outputs: &Vec<CmdOutput>) -> (r: String)
    ensures
        r@ == outputs@.map_values(|o: CmdOutput| o.text_err()).flatten(),
{
    let mut out = String::new();
    let mut i: usize = 0;
    let ghost all = outputs@.map_values(|o: CmdOutput| o.text_err());
    proof {
        assert(all.take(0) =~= Seq::<Seq<char>>::empty());
    }
    while i < outputs.len()
        invariant
            i <= outputs.len(),
            all == outputs@.map_values(|o: CmdOutput| o.text_err()),
            out@ == all.take(i as int).flatten(),
        decreases outputs.len() - i,
    {
        proof {
            assert(all.take(i + 1) =~= all.take(i as int).push(all[i as int]));
            all.take(i as int).lemma_flatten_push(all[i as int]);
        }
        out.append(outputs[i].stderr().as_str());
        i += 1;
    }
    proof {
        assert(all.take(outputs.len() as int) =~= all);
    }
    out
}

} // verus!
