//! The session: find the tools, enter the project, take a snapshot, choose
//! the target version, run the plan that reaches it, and take a snapshot
//! again. The caller performs each action that the session asks for and
//! hands back what came of it.
use vstd::prelude::*;
use vstd::string::*;
use crate::plan::{opt_copy, plan_for, reconcile_plan, steps_view, ShellCommand, Step};
use crate::platform::{locate_line, Platform};
use crate::probe::{located_in, opt_view, parse_located_path};
use crate::status::{refreshed_from, ProbeReport, Status};
use crate::text::{same_text, trim, trimmed};

verus! {

/// A program that the session cannot do without.
#[derive(Clone, Copy, Debug, PartialEq, Eq, Structural)]
pub enum Tool {
    /// The SDK launcher, `flutter`.
    Sdk,
    /// The version-control tool, `git`.
    Vcs,
}

/// How a session ended.
pub enum Outcome {
    /// No shell is known for the host system.
    UnsupportedPlatform,
    /// A tool is not on PATH.
    ToolMissing(Tool),
    /// The working directory could not be entered, for the given cause.
    DirectoryUnusable(String),
    /// Neither an override nor the manifest names a version.
    NoTargetVersion,
    /// The SDK already has the target version; nothing was run.
    AlreadySynced,
    /// The plan ran to its end and a fresh snapshot was taken.
    Reconciled,
    /// A required step failed, for the given cause.
    ChangeFailed(String),
}

/// Where a session stands.
pub enum Phase {
    Locating,
    EnteringDirectory,
    Probing,
    /// Running the step of the plan at this index.
    Mutating(usize),
    Verifying,
    Done(Outcome),
}

/// What came of the action that the session asked for.
pub enum Event {
    /// The outputs of locating the SDK launcher and the version-control
    /// tool; `None` where the command could not be run.
    ToolsLocated { sdk_output: Option<String>, vcs_output: Option<String> },
    /// The working directory was entered, or the cause it was not.
    DirectoryEntered { error: Option<String> },
    /// The outputs of the probes.
    Probed(ProbeReport),
    /// A command of the plan ran, or the cause it failed.
    CommandFinished { error: Option<String> },
}

/// What the session asks the caller to do next.
pub enum Action {
    /// Run both command lines, at once if it likes, and report their output.
    LocateTools { sdk_query: String, vcs_query: String },
    /// Make this directory the current one.
    EnterDirectory(String),
    /// Run both command lines and read the manifest file, at once if it
    /// likes, and report what came of them.
    Probe { version_query: String, locate_query: String, manifest_file: String },
    /// Run this command.
    Run(ShellCommand),
    /// Nothing more: the session has ended.
    Finish,
}

/// A session that brings the SDK to the version a project asks for.
pub struct Reconciler {
    pub platform: Platform,
    pub working_dir: Option<String>,
    pub desired_override: Option<String>,
    pub status: Status,
    pub target: Option<String>,
    pub plan: Vec<Step>,
    pub phase: Phase,
}

/// Whether a locate output names a path.
pub open spec fn found(out: Option<String>) -> bool {
    match out {
        Some(o) => located_in(o@).is_some(),
        None => false,
    }
}

/// The override, as given, where something is left of it once trimmed.
pub open spec fn given_override(v: Option<Seq<char>>) -> Option<Seq<char>> {
    match v {
        Some(t) => if trimmed(t).len() > 0 {
            Some(t)
        } else {
            None
        },
        None => None,
    }
}

/// The project's version, as read, where it is not empty.
pub open spec fn given_project(v: Option<Seq<char>>) -> Option<Seq<char>> {
    match v {
        Some(t) => if t.len() > 0 {
            Some(t)
        } else {
            None
        },
        None => None,
    }
}

/// The version to reach: the override where it is given, else the
/// project's.
pub open spec fn target_of(desired: Option<Seq<char>>, project: Option<Seq<char>>) -> Option<Seq<char>> {
    match given_override(desired) {
        Some(t) => Some(t),
        None => given_project(project),
    }
}

/// The session `v` with only its phase changed to `p`.
pub open spec fn moved(v: Reconciler, w: Reconciler, p: Phase) -> bool {
    w == Reconciler { phase: p, ..v }
}

/// The phase after a snapshot, in the probing phase, gave `w`'s status.
pub open spec fn decided(v: Reconciler, w: Reconciler) -> bool {
    match target_of(opt_view(v.desired_override), w.status@.project_version) {
        None => {
            &&& w.phase == Phase::Done(Outcome::NoTargetVersion)
            &&& w.target == v.target
            &&& w.plan == v.plan
        },
        Some(t) => if w.status@.sdk_version == Some(t) {
            &&& w.phase == Phase::Done(Outcome::AlreadySynced)
            &&& w.target == v.target
            &&& w.plan == v.plan
        } else {
            &&& w.phase == Phase::Mutating(0)
            &&& opt_view(w.target) == Some(t)
            &&& steps_view(w.plan@) == plan_for(v.platform, t, w.status@)
        },
    }
}

/// `w` is where the session `v` goes on the event `e`. An event that does
/// not answer the phase's action changes nothing; neither does any event
/// once the session is done.
pub open spec fn step_to(v: Reconciler, e: Event, w: Reconciler) -> bool {
    match (v.phase, e) {
        (Phase::Locating, Event::ToolsLocated { sdk_output, vcs_output }) => if !found(sdk_output) {
            moved(v, w, Phase::Done(Outcome::ToolMissing(Tool::Sdk)))
        } else if !found(vcs_output) {
            moved(v, w, Phase::Done(Outcome::ToolMissing(Tool::Vcs)))
        } else if v.working_dir.is_some() {
            moved(v, w, Phase::EnteringDirectory)
        } else {
            moved(v, w, Phase::Probing)
        },
        (Phase::EnteringDirectory, Event::DirectoryEntered { error }) => match error {
            Some(cause) => moved(v, w, Phase::Done(Outcome::DirectoryUnusable(cause))),
            None => moved(v, w, Phase::Probing),
        },
        (Phase::Probing, Event::Probed(report)) => {
            &&& w.platform == v.platform
            &&& w.working_dir == v.working_dir
            &&& w.desired_override == v.desired_override
            &&& refreshed_from(w.status@, v.platform, report)
            &&& w.status.wf(v.platform)
            &&& decided(v, w)
        },
        (Phase::Mutating(i), Event::CommandFinished { error }) => if error.is_some()
            && !v.plan@[i as int].best_effort {
            moved(v, w, Phase::Done(Outcome::ChangeFailed(error.unwrap())))
        } else if i + 1 < v.plan@.len() {
            moved(v, w, Phase::Mutating((i + 1) as usize))
        } else {
            moved(v, w, Phase::Verifying)
        },
        (Phase::Verifying, Event::Probed(report)) => {
            &&& w.platform == v.platform
            &&& w.working_dir == v.working_dir
            &&& w.desired_override == v.desired_override
            &&& w.target == v.target
            &&& w.plan == v.plan
            &&& refreshed_from(w.status@, v.platform, report)
            &&& w.status.wf(v.platform)
            &&& w.phase == Phase::Done(Outcome::Reconciled)
        },
        _ => w == v,
    }
}

/// The command line that reports the SDK's version.
pub open spec fn version_query() -> Seq<char> {
    "flutter --version"@
}

/// The manifest file, in the current directory.
pub open spec fn manifest_file() -> Seq<char> {
    "pubspec.yaml"@
}

/// `a` is the action that the session `v` asks for.
pub open spec fn pending(v: Reconciler, a: Action) -> bool {
    match v.phase {
        Phase::Locating => match a {
            Action::LocateTools { sdk_query, vcs_query } => {
                &&& locate_line(v.platform, "flutter"@) == Some(sdk_query@)
                &&& locate_line(v.platform, "git"@) == Some(vcs_query@)
            },
            _ => false,
        },
        Phase::EnteringDirectory => match a {
            Action::EnterDirectory(d) => v.working_dir == Some(d),
            _ => false,
        },
        Phase::Probing | Phase::Verifying => match a {
            Action::Probe { version_query: q, locate_query, manifest_file: m } => {
                &&& q@ == version_query()
                &&& locate_line(v.platform, "flutter"@) == Some(locate_query@)
                &&& m@ == manifest_file()
            },
            _ => false,
        },
        Phase::Mutating(i) => match a {
            Action::Run(c) => (Step { command: c, best_effort: v.plan@[i as int].best_effort })@
                == v.plan@[i as int]@,
            _ => false,
        },
        Phase::Done(_) => a is Finish,
    }
}

fn is_found(out: &Option<String>) -> (r: bool)
    ensures
        r == found(*out),
{
    match out {
        Some(o) => parse_located_path(o.as_str()).is_some(),
        None => false,
    }
}

/// The version to reach: the override, as given, where it is not blank,
/// else the project's version where it is not empty.
pub fn desired_target(desired: &Option<String>, project: &Option<String>) -> (r: Option<String>)
    ensures
        opt_view(r) == target_of(opt_view(*desired), opt_view(*project)),
{
    match desired {
        Some(t) => {
            if trim(t.as_str()).unicode_len() > 0 {
                return Some(t.clone());
            }
        },
        None => {},
    }
    match project {
        Some(t) => {
            if t.as_str().unicode_len() > 0 {
                Some(t.clone())
            } else {
                None
            }
        },
        None => None,
    }
}

impl Reconciler {
    /// What every session keeps: an index into the plan while running it,
    /// a directory to enter when entering one, a supported platform until
    /// done, and an SDK root that derives from the launcher's directory.
    pub open spec fn wf(&self) -> bool {
        &&& match self.phase {
            Phase::Mutating(i) => i < self.plan@.len(),
            Phase::EnteringDirectory => self.working_dir.is_some(),
            _ => true,
        }
        &&& (!(self.phase is Done) ==> self.platform.supported())
        &&& self.status.wf(self.platform)
    }

    /// A session on `platform`, to enter `working_dir` if given, and to
    /// reach `desired_override` if given and not blank.
    pub fn new(platform: Platform, working_dir: Option<String>, desired_override: Option<String>) -> (r: Reconciler)
        ensures
            r.wf(),
            r.platform == platform,
            r.working_dir == working_dir,
            r.desired_override == desired_override,
            r.phase == (if platform.supported() {
                Phase::Locating
            } else {
                Phase::Done(Outcome::UnsupportedPlatform)
            }),
            r.status@.sdk_version.is_none(),
            r.status@.sdk_bin_path.is_none(),
            r.status@.sdk_root_path.is_none(),
            r.status@.project_version.is_none(),
            r.plan@.len() == 0,
    {
        let phase = if platform.is_supported() {
            Phase::Locating
        } else {
            Phase::Done(Outcome::UnsupportedPlatform)
        };
        Reconciler {
            platform,
            working_dir,
            desired_override,
            status: Status::new(),
            target: None,
            plan: Vec::new(),
            phase,
        }
    }

    /// Whether the session has ended.
    pub fn is_done(&self) -> (r: bool)
        ensures
            r == (self.phase is Done),
    {
        matches!(self.phase, Phase::Done(_))
    }

    /// The action that the session asks for now.
    pub fn next_action(&self) -> (a: Action)
        requires
            self.wf(),
        ensures
            pending(*self, a),
    {
        match &self.phase {
            Phase::Locating => {
                let sdk = self.platform.locate_command("flutter");
                let vcs = self.platform.locate_command("git");
                match (sdk, vcs) {
                    (Some(sdk_query), Some(vcs_query)) => Action::LocateTools { sdk_query, vcs_query },
                    _ => Action::Finish,
                }
            },
            Phase::EnteringDirectory => match &self.working_dir {
                Some(d) => Action::EnterDirectory(d.clone()),
                None => Action::Finish,
            },
            Phase::Probing | Phase::Verifying => match self.platform.locate_command("flutter") {
                Some(locate_query) => Action::Probe {
                    version_query: String::from_str("flutter --version"),
                    locate_query,
                    manifest_file: String::from_str("pubspec.yaml"),
                },
                None => Action::Finish,
            },
            Phase::Mutating(i) => {
                let c = &self.plan[*i].command;
                Action::Run(ShellCommand { line: c.line.clone(), cwd: opt_copy(&c.cwd), echo: c.echo })
            },
            Phase::Done(_) => Action::Finish,
        }
    }
    /// Takes what came of the pending action and moves the session on.
    pub fn on_event(&mut self, event: Event)
        requires
            old(self).wf(),
        ensures
            final(self).wf(),
            step_to(*old(self), event, *final(self)),
    {
        match event {
            Event::ToolsLocated { sdk_output, vcs_output } => {
                if matches!(self.phase, Phase::Locating) {
                    if !is_found(&sdk_output) {
                        self.phase = Phase::Done(Outcome::ToolMissing(Tool::Sdk));
                    } else if !is_found(&vcs_output) {
                        self.phase = Phase::Done(Outcome::ToolMissing(Tool::Vcs));
                    } else if self.working_dir.is_some() {
                        self.phase = Phase::EnteringDirectory;
                    } else {
                        self.phase = Phase::Probing;
                    }
                }
            },
            Event::DirectoryEntered { error } => {
                if matches!(self.phase, Phase::EnteringDirectory) {
                    match error {
                        Some(cause) => {
                            self.phase = Phase::Done(Outcome::DirectoryUnusable(cause));
                        },
                        None => {
                            self.phase = Phase::Probing;
                        },
                    }
                }
            },
            Event::Probed(report) => {
                if matches!(self.phase, Phase::Probing) {
                    self.status.update(self.platform, &report);
                    self.decide();
                } else if matches!(self.phase, Phase::Verifying) {
                    self.status.update(self.platform, &report);
                    self.phase = Phase::Done(Outcome::Reconciled);
                }
            },
            Event::CommandFinished { error } => {
                match self.phase {
                    Phase::Mutating(i) => {
                        let best_effort = self.plan[i].best_effort;
                        match error {
                            Some(cause) if !best_effort => {
                                self.phase = Phase::Done(Outcome::ChangeFailed(cause));
                            },
                            _ => {
                                if i < self.plan.len() - 1 {
                                    self.phase = Phase::Mutating(i + 1);
                                } else {
                                    self.phase = Phase::Verifying;
                                }
                            },
                        }
                    },
                    _ => {},
                }
            },
        }
    }

    /// After the first snapshot: ends the session where there is no target
    /// or the SDK has it already, else makes the plan and starts it.
    fn decide(&mut self)
        requires
            old(self).platform.supported(),
            old(self).status.wf(old(self).platform),
        ensures
            final(self).platform == old(self).platform,
            final(self).working_dir == old(self).working_dir,
            final(self).desired_override == old(self).desired_override,
            final(self).status == old(self).status,
            decided(*old(self), *final(self)),
            final(self).wf(),
    {
        match desired_target(&self.desired_override, &self.status.project_version) {
            None => {
                self.phase = Phase::Done(Outcome::NoTargetVersion);
            },
            Some(t) => {
                let synced = match &self.status.sdk_version {
                    Some(v) => same_text(v.as_str(), t.as_str()),
                    None => false,
                };
                if synced {
                    self.phase = Phase::Done(Outcome::AlreadySynced);
                } else {
                    self.plan = reconcile_plan(self.platform, t.as_str(), &self.status);
                    proof {
                        assert(self.plan@.len() > 0) by {
                            assert(steps_view(self.plan@).len() == self.plan@.len());
                        }
                    }
                    self.target = Some(t);
                    self.phase = Phase::Mutating(0);
                }
            },
        }
    }
}

} // verus!
