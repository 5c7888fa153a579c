//! The assembler: the decisions that turn one package into its bundles.
//!
//! Building, looking at the file system and writing to it are left to the
//! caller. The assembler says which action comes next, and the caller
//! reports what came of it:
//!
//! ```text
//! begin -> Build -> CheckExists -> Read -> { CreateDirs, Place, Write* }* -> Finish
//! ```
//!
//! Every failure ends the run with `Fail`. A library that implements no
//! plugin interface is no failure: the run finishes with no bundle made.

use vstd::prelude::*;
use vstd::string::*;
use crate::bytes::ParseError;
use crate::config::{bundle_name, chosen_name, config_view, texts, BundlerConfig, ConfigView};
use crate::flags::{flags_of, parse_flags, BuildFlags, BuildFlagsView};
use crate::interface::{detect_interfaces, detected, PluginInterface};
use crate::layout::{artifact_location, expected_artifact};
use crate::plan::{plan, planned, AuxiliaryFileView, BundlePlan, BundlePlanView};
use crate::target::{
    compilation_target, opt_view, rejection, resolved_target, CompilationTarget, UnknownTarget,
    UnknownTargetView,
};

verus! {

/// Why a run ended without its bundles.
#[derive(Debug, PartialEq, Eq)]
pub enum BundleError {
    /// The flags end in `--target`, with no triple after it.
    MissingTarget,
    /// The build did not succeed.
    BuildFailed,
    /// There is no target to bundle for.
    UnknownTarget(UnknownTarget),
    /// The build left no library at the path where it was expected.
    NotFound { path: String },
    /// The library at `path` could not be classified.
    Unclassifiable { path: String, cause: ParseError },
    /// Reading, creating or writing `path` failed.
    Io { path: String },
    /// The event reported does not answer the action that was asked for.
    OutOfTurn,
}

/// A [`BundleError`] as plain values.
pub enum BundleErrorView {
    MissingTarget,
    BuildFailed,
    UnknownTarget(UnknownTargetView),
    NotFound { path: Seq<char> },
    Unclassifiable { path: Seq<char>, cause: ParseError },
    Io { path: Seq<char> },
    OutOfTurn,
}

impl View for BundleError {
    type V = BundleErrorView;

    open spec fn view(&self) -> BundleErrorView {
        match self {
            BundleError::MissingTarget => BundleErrorView::MissingTarget,
            BundleError::BuildFailed => BundleErrorView::BuildFailed,
            BundleError::UnknownTarget(e) => BundleErrorView::UnknownTarget(e@),
            BundleError::NotFound { path } => BundleErrorView::NotFound { path: path@ },
            BundleError::Unclassifiable { path, cause } => BundleErrorView::Unclassifiable {
                path: path@,
                cause: *cause,
            },
            BundleError::Io { path } => BundleErrorView::Io { path: path@ },
            BundleError::OutOfTurn => BundleErrorView::OutOfTurn,
        }
    }
}

/// One change to the file system that makes part of a bundle.
#[derive(Debug, PartialEq, Eq)]
pub enum Step {
    /// Create the directory `path` and its parents; one that exists is left
    /// as it is.
    CreateDirs { path: String },
    /// Place a copy of the file `from` at `to`.
    Place { from: String, to: String },
    /// Write `contents` to `path`, replacing whatever the file held.
    Write { path: String, contents: String },
}

/// A [`Step`] as plain values.
pub enum StepView {
    CreateDirs { path: Seq<char> },
    Place { from: Seq<char>, to: Seq<char> },
    Write { path: Seq<char>, contents: Seq<char> },
}

impl View for Step {
    type V = StepView;

    open spec fn view(&self) -> StepView {
        match self {
            Step::CreateDirs { path } => StepView::CreateDirs { path: path@ },
            Step::Place { from, to } => StepView::Place { from: from@, to: to@ },
            Step::Write { path, contents } => StepView::Write {
                path: path@,
                contents: contents@,
            },
        }
    }
}

/// The views of a list of steps.
pub open spec fn steps_view(steps: Seq<Step>) -> Seq<StepView> {
    steps.map_values(|s: Step| s@)
}

/// The path that a step creates or writes.
pub open spec fn step_path(step: StepView) -> Seq<char> {
    match step {
        StepView::CreateDirs { path } => path,
        StepView::Place { from, to } => to,
        StepView::Write { path, contents } => path,
    }
}

/// What the caller is asked to do next.
#[derive(Debug, PartialEq, Eq)]
pub enum Action {
    /// Build `package`, handing `args` on to the build, and report
    /// [`Event::Built`].
    Build { package: String, args: Vec<String> },
    /// Report with [`Event::Exists`] whether a file is at `path`.
    CheckExists { path: String },
    /// Read the file at `path` and report its bytes with
    /// [`Event::Contents`].
    Read { path: String },
    /// Make the change and report [`Event::Completed`].
    Perform(Step),
    /// The run succeeded; `bundles` are the roots of the bundles made.
    Finish { bundles: Vec<String> },
    /// The run failed.
    Fail { error: BundleError },
}

/// An [`Action`] as plain values.
pub enum ActionView {
    Build { package: Seq<char>, args: Seq<Seq<char>> },
    CheckExists { path: Seq<char> },
    Read { path: Seq<char> },
    Perform(StepView),
    Finish { bundles: Seq<Seq<char>> },
    Fail { error: BundleErrorView },
}

impl View for Action {
    type V = ActionView;

    open spec fn view(&self) -> ActionView {
        match self {
            Action::Build { package, args } => ActionView::Build {
                package: package@,
                args: texts(args@),
            },
            Action::CheckExists { path } => ActionView::CheckExists { path: path@ },
            Action::Read { path } => ActionView::Read { path: path@ },
            Action::Perform(step) => ActionView::Perform(step@),
            Action::Finish { bundles } => ActionView::Finish { bundles: texts(bundles@) },
            Action::Fail { error } => ActionView::Fail { error: error@ },
        }
    }
}

/// What came of the action that was asked for.
#[derive(Debug, PartialEq, Eq)]
pub enum Event {
    /// The build ended, successfully or not.
    Built(bool),
    /// Whether the file exists.
    Exists(bool),
    /// The bytes of the file.
    Contents(Vec<u8>),
    /// The change was made.
    Completed,
    /// The action could not be carried out.
    Failed,
}

/// An [`Event`] as plain values.
pub enum EventView {
    Built(bool),
    Exists(bool),
    Contents(Seq<u8>),
    Completed,
    Failed,
}

impl View for Event {
    type V = EventView;

    open spec fn view(&self) -> EventView {
        match self {
            Event::Built(ok) => EventView::Built(*ok),
            Event::Exists(found) => EventView::Exists(*found),
            Event::Contents(bytes) => EventView::Contents(bytes@),
            Event::Completed => EventView::Completed,
            Event::Failed => EventView::Failed,
        }
    }
}

/// What a run is about. It is fixed when the run begins.
#[derive(Debug, PartialEq, Eq)]
pub struct Job {
    /// The package that is bundled.
    pub package: String,
    /// The name of its bundles.
    pub bundle_name: String,
    /// What the build flags say.
    pub flags: BuildFlags,
    /// The operating system of the host, as `std::env::consts::OS` names it.
    pub host_os: String,
    /// The architecture of the host, as `std::env::consts::ARCH` names it.
    pub host_arch: String,
}

/// A [`Job`] as plain values.
pub struct JobView {
    pub package: Seq<char>,
    pub bundle_name: Seq<char>,
    pub flags: BuildFlagsView,
    pub host_os: Seq<char>,
    pub host_arch: Seq<char>,
}

impl View for Job {
    type V = JobView;

    open spec fn view(&self) -> JobView {
        JobView {
            package: self.package@,
            bundle_name: self.bundle_name@,
            flags: self.flags@,
            host_os: self.host_os@,
            host_arch: self.host_arch@,
        }
    }
}

/// How far a run has come: which event it waits for, and what it has
/// found out so far.
#[derive(Debug, PartialEq, Eq)]
pub enum Stage {
    /// The build was asked for.
    Building,
    /// The library is expected at `artifact`; whether it is there was
    /// asked.
    Locating { artifact: String, target: CompilationTarget },
    /// The library is at `artifact`; its bytes were asked for.
    Reading { artifact: String, target: CompilationTarget },
    /// The library was classified. Of the steps in `work`, the first `next`
    /// were asked for, the last of them just now.
    Assembling { work: Vec<Step>, next: usize, bundles: Vec<String> },
    /// The run has ended.
    Finished,
}

/// A [`Stage`] as plain values.
pub enum StageView {
    Building,
    Locating { artifact: Seq<char>, target: CompilationTarget },
    Reading { artifact: Seq<char>, target: CompilationTarget },
    Assembling { work: Seq<StepView>, next: int, bundles: Seq<Seq<char>> },
    Finished,
}

impl View for Stage {
    type V = StageView;

    open spec fn view(&self) -> StageView {
        match self {
            Stage::Building => StageView::Building,
            Stage::Locating { artifact, target } => StageView::Locating {
                artifact: artifact@,
                target: *target,
            },
            Stage::Reading { artifact, target } => StageView::Reading {
                artifact: artifact@,
                target: *target,
            },
            Stage::Assembling { work, next, bundles } => StageView::Assembling {
                work: steps_view(work@),
                next: *next as int,
                bundles: texts(bundles@),
            },
            Stage::Finished => StageView::Finished,
        }
    }
}

/// The steps that carry out one plan, in order: the directory of the
/// library with its parents, the library, then each descriptor file.
pub open spec fn steps_of(plan: BundlePlanView, artifact: Seq<char>) -> Seq<StepView> {
    seq![
        StepView::CreateDirs { path: plan.library_dir },
        StepView::Place { from: artifact, to: plan.library_path },
    ] + plan.auxiliary.map_values(
        |f: AuxiliaryFileView| StepView::Write { path: f.path, contents: f.contents },
    )
}

/// The steps that make the bundles of the first `n` interfaces of `found`,
/// one bundle after the other.
pub open spec fn work_for(
    found: Seq<PluginInterface>,
    n: int,
    name: Seq<char>,
    target: CompilationTarget,
    artifact: Seq<char>,
) -> Seq<StepView>
    decreases n,
{
    if n <= 0 {
        Seq::empty()
    } else {
        work_for(found, n - 1, name, target, artifact) + steps_of(
            planned(name, found[n - 1], target),
            artifact,
        )
    }
}

/// The roots of the bundles of the first `n` interfaces of `found`.
pub open spec fn roots_for(
    found: Seq<PluginInterface>,
    n: int,
    name: Seq<char>,
    target: CompilationTarget,
) -> Seq<Seq<char>>
    decreases n,
{
    if n <= 0 {
        Seq::empty()
    } else {
        roots_for(found, n - 1, name, target).push(planned(name, found[n - 1], target).bundle_root)
    }
}

/// The end of a run that failed.
pub open spec fn failed(error: BundleErrorView) -> (StageView, ActionView) {
    (StageView::Finished, ActionView::Fail { error })
}

/// What follows once the first `next` steps of `work` are done: the next
/// step, or the end of the run where none is left.
pub open spec fn advance(work: Seq<StepView>, next: int, bundles: Seq<Seq<char>>) -> (
    StageView,
    ActionView,
) {
    if 0 <= next < work.len() {
        (StageView::Assembling { work, next: next + 1, bundles }, ActionView::Perform(work[next]))
    } else {
        (StageView::Finished, ActionView::Finish { bundles })
    }
}

/// What follows a successful build: the target is resolved and the library
/// is looked for where the build leaves it.
pub open spec fn after_build(job: JobView) -> (StageView, ActionView) {
    match resolved_target(job.flags.cross_target, job.host_os, job.host_arch) {
        None => failed(BundleErrorView::UnknownTarget(rejection(job.flags.cross_target))),
        Some(target) => match artifact_location(
            job.package,
            target,
            job.flags.release,
            job.flags.cross_target,
        ) {
            None => failed(BundleErrorView::UnknownTarget(rejection(job.flags.cross_target))),
            Some(path) => (
                StageView::Locating { artifact: path, target },
                ActionView::CheckExists { path },
            ),
        },
    }
}

/// What follows the reading of the library: it is classified, and the
/// bundles of the interfaces found are planned and begun. With no
/// interface found the run finishes at once, with nothing made.
pub open spec fn after_read(
    job: JobView,
    artifact: Seq<char>,
    target: CompilationTarget,
    bytes: Seq<u8>,
) -> (StageView, ActionView) {
    match detected(bytes) {
        Err(cause) => failed(BundleErrorView::Unclassifiable { path: artifact, cause }),
        Ok(found) => advance(
            work_for(found, found.len() as int, job.bundle_name, target, artifact),
            0,
            roots_for(found, found.len() as int, job.bundle_name, target),
        ),
    }
}

/// The stage and the action that follow `stage` on `event`.
pub open spec fn next(job: JobView, stage: StageView, event: EventView) -> (StageView, ActionView) {
    match stage {
        StageView::Building => match event {
            EventView::Built(true) => after_build(job),
            EventView::Built(false) | EventView::Failed => failed(BundleErrorView::BuildFailed),
            _ => failed(BundleErrorView::OutOfTurn),
        },
        StageView::Locating { artifact, target } => match event {
            EventView::Exists(true) => (
                StageView::Reading { artifact, target },
                ActionView::Read { path: artifact },
            ),
            EventView::Exists(false) => failed(BundleErrorView::NotFound { path: artifact }),
            EventView::Failed => failed(BundleErrorView::Io { path: artifact }),
            _ => failed(BundleErrorView::OutOfTurn),
        },
        StageView::Reading { artifact, target } => match event {
            EventView::Contents(bytes) => after_read(job, artifact, target, bytes),
            EventView::Failed => failed(BundleErrorView::Io { path: artifact }),
            _ => failed(BundleErrorView::OutOfTurn),
        },
        StageView::Assembling { work, next, bundles } => match event {
            EventView::Completed => advance(work, next, bundles),
            EventView::Failed => if 0 < next <= work.len() {
                failed(BundleErrorView::Io { path: step_path(work[next - 1]) })
            } else {
                failed(BundleErrorView::OutOfTurn)
            },
            _ => failed(BundleErrorView::OutOfTurn),
        },
        StageView::Finished => failed(BundleErrorView::OutOfTurn),
    }
}

/// The job that a request makes, unless its flags end in a dangling
/// `--target`.
pub open spec fn job_of(
    package: Seq<char>,
    args: Seq<Seq<char>>,
    config: Option<ConfigView>,
    host_os: Seq<char>,
    host_arch: Seq<char>,
) -> Option<JobView> {
    match flags_of(args) {
        Some(flags) => Some(
            JobView {
                package,
                bundle_name: chosen_name(config, package),
                flags,
                host_os,
                host_arch,
            },
        ),
        None => None,
    }
}

/// Ends a run with `error`.
fn fail(error: BundleError) -> (r: (Stage, Action))
    ensures
        (r.0@, r.1@) == failed(error@),
{
    (Stage::Finished, Action::Fail { error })
}

/// The triple that the job cross-compiles for, if any.
fn cross_target_of(job: &Job) -> (r: Option<&str>)
    ensures
        opt_view(r) == job@.flags.cross_target,
{
    match &job.flags.cross_target {
        Some(t) => Some(t.as_str()),
        None => None,
    }
}

/// A copy of `step`.
fn copy_step(step: &Step) -> (r: Step)
    ensures
        r@ == step@,
{
    match step {
        Step::CreateDirs { path } => Step::CreateDirs { path: path.clone() },
        Step::Place { from, to } => Step::Place { from: from.clone(), to: to.clone() },
        Step::Write { path, contents } => Step::Write {
            path: path.clone(),
            contents: contents.clone(),
        },
    }
}

/// The path that `step` creates or writes.
fn path_of(step: &Step) -> (r: String)
    ensures
        r@ == step_path(step@),
{
    match step {
        Step::CreateDirs { path } => path.clone(),
        Step::Place { from, to } => to.clone(),
        Step::Write { path, contents } => path.clone(),
    }
}

/// Asks for the step after the first `next` of `work`, or finishes.
fn advance_work(work: Vec<Step>, next: usize, bundles: Vec<String>) -> (r: (Stage, Action))
    ensures
        (r.0@, r.1@) == advance(steps_view(work@), next as int, texts(bundles@)),
{
    if next < work.len() {
        let step = copy_step(&work[next]);
        (Stage::Assembling { work, next: next + 1, bundles }, Action::Perform(step))
    } else {
        (Stage::Finished, Action::Finish { bundles })
    }
}

/// Resolves the target and asks whether the library is where the build
/// leaves it.
fn locate_artifact(job: &Job) -> (r: (Stage, Action))
    ensures
        (r.0@, r.1@) == after_build(job@),
{
    let cross = cross_target_of(job);
    match compilation_target(cross, job.host_os.as_str(), job.host_arch.as_str()) {
        Err(e) => fail(BundleError::UnknownTarget(e)),
        Ok(target) => match expected_artifact(
            job.package.as_str(),
            target,
            job.flags.release,
            cross,
        ) {
            Err(e) => fail(BundleError::UnknownTarget(e)),
            Ok(artifact) => {
                let path = artifact.clone();
                (Stage::Locating { artifact, target }, Action::CheckExists { path })
            },
        },
    }
}

/// Appends the steps that carry out `plan` to `work`, and returns the root
/// of the bundle.
fn push_steps(work: &mut Vec<Step>, plan: BundlePlan, artifact: &str) -> (root: String)
    ensures
        steps_view(final(work)@) == steps_view(old(work)@) + steps_of(plan@, artifact@),
        root@ == plan@.bundle_root,
{
    let ghost before = steps_view(work@);
    let ghost planned = plan@;
    let BundlePlan { interface: _, bundle_root, library_dir, library_path, auxiliary } = plan;
    work.push(Step::CreateDirs { path: library_dir });
    work.push(Step::Place { from: String::from_str(artifact), to: library_path });
    let ghost base = work@.len();
    let mut j: usize = 0;
    while j < auxiliary.len()
        invariant
            0 <= j <= auxiliary@.len(),
            planned.auxiliary == crate::plan::files_view(auxiliary@),
            work@.len() == base + j,
            base == before.len() + 2,
            forall|k: int| 0 <= k < before.len() ==> (#[trigger] work@[k])@ == before[k],
            work@[base - 2]@ == (StepView::CreateDirs { path: planned.library_dir }),
            work@[base - 1]@ == (StepView::Place { from: artifact@, to: planned.library_path }),
            forall|k: int|
                0 <= k < j ==> (#[trigger] work@[base + k])@ == (StepView::Write {
                    path: auxiliary@[k].path@,
                    contents: auxiliary@[k].contents@,
                }),
        decreases auxiliary@.len() - j,
    {
        work.push(
            Step::Write {
                path: auxiliary[j].path.clone(),
                contents: auxiliary[j].contents.clone(),
            },
        );
        j += 1;
    }
    proof {
        let written = planned.auxiliary.map_values(
            |f: AuxiliaryFileView| StepView::Write { path: f.path, contents: f.contents },
        );
        let fixed = seq![
            StepView::CreateDirs { path: planned.library_dir },
            StepView::Place { from: artifact@, to: planned.library_path },
        ];
        let added = steps_of(planned, artifact@);
        assert(added == fixed + written);
        assert(added.len() == 2 + auxiliary@.len());
        assert forall|k: int| 0 <= k < work@.len() implies steps_view(work@)[k] == (before
            + added)[k] by {
            if k < before.len() {
            } else if k < base {
                assert(added[k - before.len()] == fixed[k - before.len()]);
            } else {
                assert(work@[base + (k - base)]@ == (StepView::Write {
                    path: auxiliary@[k - base].path@,
                    contents: auxiliary@[k - base].contents@,
                }));
                assert(planned.auxiliary[k - base] == auxiliary@[k - base]@);
                assert(added[k - before.len()] == written[k - base]);
            }
        }
        assert(steps_view(work@) =~= before + added);
    }
    bundle_root
}

/// Classifies the library and begins the bundles of the interfaces found.
fn classify(job: &Job, artifact: String, target: CompilationTarget, bytes: &[u8]) -> (r: (
    Stage,
    Action,
))
    ensures
        (r.0@, r.1@) == after_read(job@, artifact@, target, bytes@),
{
    match detect_interfaces(bytes) {
        Err(cause) => fail(BundleError::Unclassifiable { path: artifact, cause }),
        Ok(found) => {
            let mut work: Vec<Step> = Vec::new();
            let mut bundles: Vec<String> = Vec::new();
            let mut i: usize = 0;
            proof {
                assert(steps_view(work@) =~= Seq::<StepView>::empty());
                assert(texts(bundles@) =~= Seq::<Seq<char>>::empty());
            }
            while i < found.len()
                invariant
                    0 <= i <= found@.len(),
                    steps_view(work@) == work_for(
                        found@,
                        i as int,
                        job@.bundle_name,
                        target,
                        artifact@,
                    ),
                    texts(bundles@) == roots_for(found@, i as int, job@.bundle_name, target),
                decreases found@.len() - i,
            {
                let ghost roots = texts(bundles@);
                let planned = plan(job.bundle_name.as_str(), found[i], target);
                let root = push_steps(&mut work, planned, artifact.as_str());
                bundles.push(root);
                proof {
                    assert(texts(bundles@) =~= roots.push(root@));
                }
                i += 1;
            }
            advance_work(work, 0, bundles)
        },
    }
}

/// Begins the run that bundles `package`.
///
/// The flags are read out of `args`, which are handed on to the build
/// whole, and the name of the bundles is looked up in `config`. Where the
/// flags end in a dangling `--target` nothing is begun. Otherwise the run
/// is at [`Stage::Building`], and the action asks for the build.
pub fn begin(
    package: &str,
    args: Vec<String>,
    config: Option<&BundlerConfig>,
    host_os: &str,
    host_arch: &str,
) -> (r: Result<(Job, Stage, Action), BundleError>)
    ensures
        match job_of(package@, texts(args@), config_view(config), host_os@, host_arch@) {
            Some(job) => r matches Ok((j, stage, action)) && j@ == job && stage@
                == StageView::Building && action@ == (ActionView::Build {
                package: package@,
                args: texts(args@),
            }),
            None => r matches Err(e) && e@ == BundleErrorView::MissingTarget,
        },
{
    match parse_flags(&args) {
        Err(_) => Err(BundleError::MissingTarget),
        Ok(flags) => {
            let job = Job {
                package: String::from_str(package),
                bundle_name: bundle_name(config, package),
                flags,
                host_os: String::from_str(host_os),
                host_arch: String::from_str(host_arch),
            };
            Ok((job, Stage::Building, Action::Build { package: String::from_str(package), args }))
        },
    }
}

/// Takes the run of `job` one step on: from `stage`, on the `event` that
/// the last action led to, to the next stage and the next action.
///
/// The first failure ends the run; so does an event that does not answer
/// the action asked for. After [`Action::Finish`] or [`Action::Fail`] the
/// stage is [`Stage::Finished`].
pub fn step(job: &Job, stage: Stage, event: Event) -> (r: (Stage, Action))
    ensures
        (r.0@, r.1@) == next(job@, stage@, event@),
{
    match stage {
        Stage::Building => match event {
            Event::Built(true) => locate_artifact(job),
            Event::Built(false) => fail(BundleError::BuildFailed),
            Event::Failed => fail(BundleError::BuildFailed),
            _ => fail(BundleError::OutOfTurn),
        },
        Stage::Locating { artifact, target } => match event {
            Event::Exists(true) => {
                let path = artifact.clone();
                (Stage::Reading { artifact, target }, Action::Read { path })
            },
            Event::Exists(false) => fail(BundleError::NotFound { path: artifact }),
            Event::Failed => fail(BundleError::Io { path: artifact }),
            _ => fail(BundleError::OutOfTurn),
        },
        Stage::Reading { artifact, target } => match event {
            Event::Contents(bytes) => classify(job, artifact, target, bytes.as_slice()),
            Event::Failed => fail(BundleError::Io { path: artifact }),
            _ => fail(BundleError::OutOfTurn),
        },
        Stage::Assembling { work, next, bundles } => match event {
            Event::Completed => advance_work(work, next, bundles),
            Event::Failed => {
                if 0 < next && next <= work.len() {
                    fail(BundleError::Io { path: path_of(&work[next - 1]) })
                } else {
                    fail(BundleError::OutOfTurn)
                }
            },
            _ => fail(BundleError::OutOfTurn),
        },
        Stage::Finished => fail(BundleError::OutOfTurn),
    }
}

/// A library that implements no interface is no failure: the run finishes
/// at once, no step is asked for and no bundle is reported.
pub proof fn lemma_nothing_found_nothing_made(
    job: JobView,
    artifact: Seq<char>,
    target: CompilationTarget,
    bytes: Seq<u8>,
)
    requires
        detected(bytes) == Ok::<Seq<PluginInterface>, ParseError>(Seq::empty()),
    ensures
        next(job, StageView::Reading { artifact, target }, EventView::Contents(bytes)) == (
            StageView::Finished,
            ActionView::Finish { bundles: Seq::empty() },
        ),
{
}

/// A run ends where it finishes or fails, and stays ended: `Finish` and
/// `Fail` come with the stage `Finished`, and every event after that is
/// out of turn.
pub proof fn lemma_end_is_final(job: JobView, stage: StageView, event: EventView)
    ensures
        next(job, stage, event).1 is Finish || next(job, stage, event).1 is Fail <==> next(
            job,
            stage,
            event,
        ).0 == StageView::Finished,
        next(job, StageView::Finished, event) == failed(BundleErrorView::OutOfTurn),
{
}

/// A library that cannot be classified makes no bundle: the run fails with
/// the cause, and asks for no step.
pub proof fn lemma_unclassifiable_makes_nothing(
    job: JobView,
    artifact: Seq<char>,
    target: CompilationTarget,
    bytes: Seq<u8>,
)
    requires
        detected(bytes) is Err,
    ensures
        next(job, StageView::Reading { artifact, target }, EventView::Contents(bytes)) == failed(
            BundleErrorView::Unclassifiable { path: artifact, cause: detected(bytes)->Err_0 },
        ),
{
}

} // verus!
