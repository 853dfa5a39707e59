//! The commands of the tool: showing a pipeline, checking it, and debugging a job
//! of it.

use crate::config::JobConfig;
use crate::config::StepConfig;
use crate::env;
use crate::env::parse_env;
use crate::env::Env;
use crate::env::GitKey;
use crate::text;
use crate::text::decimal_text;
use crate::text::same_text;
use std::path::PathBuf;
use vstd::prelude::*;

verus! {

/// A path, which is handed on and never looked into.
#[verifier::external_type_specification]
#[verifier::external_body]
pub struct ExPathBuf(std::path::PathBuf);

/// The forms in which a pipeline is shown.
#[derive(Clone, Copy, Debug, PartialEq, Eq, Structural)]
pub enum ShowFormat {
    ASCII,
    JSON,
    DOTGRAPH,
}

impl ShowFormat {
    /// The name of the form.
    pub open spec fn text(self) -> Seq<char> {
        match self {
            ShowFormat::ASCII => "ascii"@,
            ShowFormat::JSON => "json"@,
            ShowFormat::DOTGRAPH => "dotgraph"@,
        }
    }

    /// The name of the form.
    pub fn to_string(&self) -> (r: String)
        ensures
            r@ == self.text(),
    {
        match self {
            ShowFormat::ASCII => "ascii".to_owned(),
            ShowFormat::JSON => "json".to_owned(),
            ShowFormat::DOTGRAPH => "dotgraph".to_owned(),
        }
    }
}

/// What `show` is given.
pub struct ShowArgs {
    pub input: PathBuf,
    pub format: ShowFormat,
    pub env: Vec<(String, String)>,
}

/// What `check` is given.
pub struct CheckArgs {
    pub input: PathBuf,
    pub env: Vec<(String, String)>,
}

/// What `debug` is given.
pub struct DebugArgs {
    pub input: PathBuf,
    pub job: String,
    pub env: Vec<(String, String)>,
}

/// A command, with what it is given.
pub enum CliSubcommand {
    Show(ShowArgs),
    Check(CheckArgs),
    Debug(DebugArgs),
}

/// The command line.
pub struct CliCommand {
    pub subcommand: CliSubcommand,
}

/// What is done with the pipeline once it is read.
pub enum CliJob {
    Show { format: ShowFormat },
    Check,
    Debug { job: String },
}

/// A command under way.
pub struct CliRun {
    pub input: PathBuf,
    pub env: Env,
    pub job: CliJob,
}

/// What is to be done next.
#[derive(Clone, Copy, Debug, PartialEq, Eq, Structural)]
pub enum CliTask {
    /// Ask the repository for this variable.
    LookUp(GitKey),
    /// Read the pipeline and show it in this form.
    Show { format: ShowFormat },
    /// Read the pipeline and report how much there is in it.
    Check,
    /// Evaluate the pipeline's file and debug a job of it.
    Debug,
}

impl CliSubcommand {
    /// The variables that a command is given.
    pub open spec fn given(self) -> env::Pairs {
        match self {
            CliSubcommand::Show(args) => env::pairs(args.env@),
            CliSubcommand::Check(args) => env::pairs(args.env@),
            CliSubcommand::Debug(args) => env::pairs(args.env@),
        }
    }

    /// The file that a command is given.
    pub open spec fn input(self) -> PathBuf {
        match self {
            CliSubcommand::Show(args) => args.input,
            CliSubcommand::Check(args) => args.input,
            CliSubcommand::Debug(args) => args.input,
        }
    }

    /// What a command does with the pipeline.
    pub open spec fn job(self) -> CliJob {
        match self {
            CliSubcommand::Show(args) => CliJob::Show { format: args.format },
            CliSubcommand::Check(_) => CliJob::Check,
            CliSubcommand::Debug(args) => CliJob::Debug { job: args.job },
        }
    }
}

impl CliCommand {
    /// Starts a command: its variables are taken, and the rest is left to do. A
    /// variable that is given twice is an error.
    pub fn run(self) -> (r: Result<CliRun, String>)
        ensures
            match env::first_repeat(self.subcommand.given(), 0) {
                None => r matches Ok(run) && run.valid() && run.env@ == self.subcommand.given()
                    && run.input == self.subcommand.input() && run.job == self.subcommand.job(),
                Some(i) => r matches Err(reason) && reason@ == "Duplicate env key ["@
                    + self.subcommand.given()[i].0 + "]"@,
            },
    {
        match self.subcommand {
            CliSubcommand::Show(args) => {
                let ShowArgs { input, format, env } = args;
                match parse_env(env) {
                    Ok(env) => Ok(CliRun { input, env, job: CliJob::Show { format } }),
                    Err(reason) => Err(reason),
                }
            },
            CliSubcommand::Check(args) => {
                let CheckArgs { input, env } = args;
                match parse_env(env) {
                    Ok(env) => Ok(CliRun { input, env, job: CliJob::Check }),
                    Err(reason) => Err(reason),
                }
            },
            CliSubcommand::Debug(args) => {
                let DebugArgs { input, job, env } = args;
                match parse_env(env) {
                    Ok(env) => Ok(CliRun { input, env, job: CliJob::Debug { job } }),
                    Err(reason) => Err(reason),
                }
            },
        }
    }
}

impl CliRun {
    /// The variables are in order.
    pub open spec fn valid(self) -> bool {
        self.env.valid()
    }

    /// What is to be done next: the repository's variables come first.
    pub open spec fn task(self) -> CliTask {
        match env::missing_key(self.env@) {
            Some(key) => CliTask::LookUp(key),
            None => match self.job {
                CliJob::Show { format } => CliTask::Show { format },
                CliJob::Check => CliTask::Check,
                CliJob::Debug { .. } => CliTask::Debug,
            },
        }
    }

    /// What is to be done next.
    pub fn next(&self) -> (r: CliTask)
        ensures
            r == self.task(),
    {
        match self.env.missing() {
            Some(key) => CliTask::LookUp(key),
            None => match &self.job {
                CliJob::Show { format } => CliTask::Show { format: *format },
                CliJob::Check => CliTask::Check,
                CliJob::Debug { .. } => CliTask::Debug,
            },
        }
    }

    /// Takes what the repository says.
    pub fn supply(&mut self, key: GitKey, value: String)
        requires
            old(self).valid(),
            old(self).task() == CliTask::LookUp(key),
        ensures
            final(self).valid(),
            final(self).env@ == old(self).env@.push((key.text(), value@)),
            final(self).input == old(self).input,
            final(self).job == old(self).job,
    {
        self.env.supply(key, value);
    }
}

/// What `check` reports of a pipeline without errors.
pub fn run_check(pipelines: usize, jobs: usize) -> (r: String)
    ensures
        r@ == "No syntax errors or dependency cycles detected.\nFound "@ + text::decimal(
            pipelines as nat,
        ) + " pipelines total.\nFound "@ + text::decimal(jobs as nat) + " jobs total.\n"@,
{
    let mut out = "No syntax errors or dependency cycles detected.\nFound ".to_owned();
    out.append(decimal_text(pipelines).as_str());
    out.append(" pipelines total.\nFound ");
    out.append(decimal_text(jobs).as_str());
    out.append(" jobs total.\n");
    out
}

/// What `show` prints: the graph in the form that was asked for, and a line feed.
pub fn run_show(output: &str) -> (r: String)
    ensures
        r@ == output@ + "\n"@,
{
    let mut out = output.to_owned();
    out.append("\n");
    out
}

/// What is said when a pipeline's file cannot be evaluated.
pub fn evaluation_failed(input: &str, reason: &str) -> (r: String)
    ensures
        r@ == "failed to evaluate "@ + input@ + ":\n"@ + reason@,
{
    let mut out = "failed to evaluate ".to_owned();
    out.append(input);
    out.append(":\n");
    out.append(reason);
    out
}

/// Where the first job of that name, at or behind `i`, stands.
pub open spec fn job_named<I, S>(jobs: Seq<JobConfig<I, S>>, name: Seq<char>, i: int) -> Option<int>
    decreases jobs.len() - i,
{
    if !(0 <= i < jobs.len()) {
        None
    } else if jobs[i].name@ == name {
        Some(i)
    } else {
        job_named(jobs, name, i + 1)
    }
}

/// The list of the first `k` steps.
pub open spec fn step_list<S>(steps: Seq<StepConfig<S>>, k: int) -> Seq<char>
    decreases k,
{
    if k <= 0 {
        Seq::empty()
    } else {
        step_list(steps, k - 1) + "  - "@ + steps[k - 1].name@ + "\n"@
    }
}

/// What is printed of the job that will be debugged.
pub open spec fn job_summary<I, S>(job: JobConfig<I, S>) -> Seq<char> {
    "Found job: "@ + job.name@ + "\nJob steps:\n"@ + step_list(
        job.steps@,
        job.steps@.len() as int,
    )
}

/// What is printed of the job that will be debugged.
pub fn describe_job<I, S>(job: &JobConfig<I, S>) -> (r: String)
    ensures
        r@ == job_summary(*job),
{
    let mut out = "Found job: ".to_owned();
    out.append(job.name.as_str());
    out.append("\nJob steps:\n");
    let ghost head = out@;
    assert(out@ == head + step_list(job.steps@, 0));
    let mut i: usize = 0;
    while i < job.steps.len()
        invariant
            i <= job.steps@.len(),
            out@ == head + step_list(job.steps@, i as int),
        decreases job.steps@.len() - i,
    {
        out.append("  - ");
        out.append(job.steps[i].name.as_str());
        out.append("\n");
        i = i + 1;
        assert(out@ == head + (step_list(job.steps@, i - 1) + "  - "@ + job.steps@[i - 1].name@
            + "\n"@));
    }
    out
}

/// Finds the job to debug, and says what is printed of it. It is an error if there is
/// none of that name.
pub fn run_debug<I, S>(jobs: Vec<JobConfig<I, S>>, name: &str) -> (r: Result<
    (JobConfig<I, S>, String),
    String,
>)
    ensures
        match job_named(jobs@, name@, 0) {
            Some(i) => r matches Ok((job, printed)) && job == jobs@[i] && printed@ == job_summary(
                jobs@[i],
            ),
            None => r matches Err(reason) && reason@ == "job not found: "@ + name@,
        },
{
    let mut rest = jobs;
    let mut i: usize = 0;
    while i < rest.len()
        invariant
            i <= rest@.len(),
            rest@ == jobs@,
            job_named(jobs@, name@, 0) == job_named(jobs@, name@, i as int),
        decreases rest@.len() - i,
    {
        if same_text(rest[i].name.as_str(), name) {
            let job = rest.remove(i);
            let printed = describe_job(&job);
            return Ok((job, printed));
        }
        i = i + 1;
    }
    let mut reason = "job not found: ".to_owned();
    reason.append(name);
    Err(reason)
}

/// The job that is debugged has the name that was asked for, and it is the first
/// that has; the search fails only if no job has that name.
pub proof fn first_job_of_that_name<I, S>(jobs: Seq<JobConfig<I, S>>, name: Seq<char>, i: int)
    requires
        0 <= i <= jobs.len(),
    ensures
        job_named(jobs, name, i) matches Some(k) ==> i <= k < jobs.len() && jobs[k].name@ == name
            && forall|j: int| i <= j < k ==> (#[trigger] jobs[j]).name@ != name,
        job_named(jobs, name, i) is None ==> forall|j: int|
            i <= j < jobs.len() ==> (#[trigger] jobs[j]).name@ != name,
    decreases jobs.len() - i,
{
    if i < jobs.len() && jobs[i].name@ != name {
        first_job_of_that_name(jobs, name, i + 1);
    }
}

/// A command does what its own arguments say. Without repeated variables it reads the file
/// that it was given, with the variables that it was given. The branch is looked up if and
/// only if no `GIT_BRANCH` was given, and then the commit if and only if no `GIT_COMMIT` was.
/// After that `show` shows the pipeline in the format that it was given, `check` checks it,
/// and `debug` debugs the job that it was given.
pub proof fn command_does_what_it_was_told(
    command: CliSubcommand,
    run: CliRun,
    show: ShowArgs,
    check: CheckArgs,
    debug: DebugArgs,
)
    requires
        run.job == command.job(),
        run.input == command.input(),
    ensures
        command == CliSubcommand::Show(show) ==> run.input == show.input && command.given()
            == env::pairs(show.env@),
        command == CliSubcommand::Check(check) ==> run.input == check.input && command.given()
            == env::pairs(check.env@),
        command == CliSubcommand::Debug(debug) ==> run.input == debug.input && command.given()
            == env::pairs(debug.env@) && run.job == (CliJob::Debug { job: debug.job }),
        ({
            let branch = env::has_key(run.env@, "GIT_BRANCH"@);
            let commit = env::has_key(run.env@, "GIT_COMMIT"@);
            &&& !branch ==> run.task() == CliTask::LookUp(GitKey::Branch)
            &&& branch && !commit ==> run.task() == CliTask::LookUp(GitKey::Commit)
            &&& branch && commit ==> {
                &&& command == CliSubcommand::Show(show) ==> run.task() == (CliTask::Show {
                    format: show.format,
                })
                &&& command == CliSubcommand::Check(check) ==> run.task() == CliTask::Check
                &&& command == CliSubcommand::Debug(debug) ==> run.task() == CliTask::Debug
            }
        }),
{
}

/// The names of the formats.
pub proof fn formats_by_name()
    ensures
        ShowFormat::ASCII.text() == "ascii"@,
        ShowFormat::JSON.text() == "json"@,
        ShowFormat::DOTGRAPH.text() == "dotgraph"@,
{
}

/// What is printed of a job names it, and then lists every step, in order, by its name.
pub proof fn summary_lists_every_step<I, S>(job: JobConfig<I, S>)
    ensures
        job_summary(job) == "Found job: "@ + job.name@ + "\nJob steps:\n"@ + Seq::new(
            job.steps@.len(),
            |i: int| "  - "@ + job.steps@[i].name@ + "\n"@,
        ).flatten(),
{
    let lines = Seq::new(job.steps@.len(), |i: int| "  - "@ + job.steps@[i].name@ + "\n"@);
    step_list_is_flat(job.steps@, job.steps@.len() as int);
    assert(lines.take(lines.len() as int) == lines);
}

proof fn step_list_is_flat<S>(steps: Seq<StepConfig<S>>, k: int)
    requires
        0 <= k <= steps.len(),
    ensures
        step_list(steps, k) == Seq::new(
            steps.len(),
            |i: int| "  - "@ + steps[i].name@ + "\n"@,
        ).take(k).flatten(),
    decreases k,
{
    let lines = Seq::new(steps.len(), |i: int| "  - "@ + steps[i].name@ + "\n"@);
    if k > 0 {
        step_list_is_flat(steps, k - 1);
        text::flatten_one_more(lines, k - 1);
        assert(step_list(steps, k) == step_list(steps, k - 1) + lines[k - 1]);
    }
}

} // verus!
