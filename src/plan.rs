//! The commands that move an SDK checkout to a target version, and the
//! registry of fixes that single releases need after checkout.
use vstd::prelude::*;
use vstd::string::*;
use crate::platform::{gn_removal_line, Platform};
use crate::status::{Status, StatusView};
use crate::text::same_text;

verus! {

/// One command line to run through the shell.
pub struct ShellCommand {
    pub line: String,
    /// The directory to run it in; the current one where absent.
    pub cwd: Option<String>,
    /// Whether its output goes to the console as it comes.
    pub echo: bool,
}

/// One step of a plan. A failing step ends the plan, unless it is only
/// worth a try (`best_effort`).
pub struct Step {
    pub command: ShellCommand,
    pub best_effort: bool,
}

/// A step as text values.
pub struct StepView {
    pub line: Seq<char>,
    pub cwd: Option<Seq<char>>,
    pub echo: bool,
    pub best_effort: bool,
}

impl View for Step {
    type V = StepView;

    open spec fn view(&self) -> StepView {
        StepView {
            line: self.command.line@,
            cwd: match self.command.cwd {
                Some(d) => Some(d@),
                None => None,
            },
            echo: self.command.echo,
            best_effort: self.best_effort,
        }
    }
}

/// The steps of a plan, as values.
pub open spec fn steps_view(steps: Seq<Step>) -> Seq<StepView> {
    steps.map_values(|s: Step| s@)
}

/// The release channels that `flutter channel` switches to.
pub open spec fn is_channel(v: Seq<char>) -> bool {
    v == "stable"@ || v == "beta"@ || v == "main"@ || v == "master"@
}

/// The fix that a release needs after checkout, if it is registered: the
/// 3.29.0 release needs `engine/src/.gn` removed from the SDK root.
pub open spec fn registered_fix(p: Platform, version: Seq<char>) -> Option<Seq<char>> {
    if version == "3.29.0"@ {
        gn_removal_line(p)
    } else {
        None
    }
}

/// A step whose failure ends the plan.
pub open spec fn required(line: Seq<char>, cwd: Option<Seq<char>>) -> StepView {
    StepView { line, cwd, echo: true, best_effort: false }
}

/// The version-control steps that move the checkout to `target`: discard
/// local changes, fetch, check out, and discard what checkout left.
pub open spec fn checkout_steps(target: Seq<char>, dir: Option<Seq<char>>) -> Seq<StepView> {
    seq![
        required("git reset --hard"@, dir),
        required("git fetch"@, dir),
        required("git checkout "@ + target, dir),
        required("git reset --hard"@, dir),
    ]
}

/// The registered fix for `target`, run in the SDK root, worth a try only.
pub open spec fn fix_steps(p: Platform, target: Seq<char>, root: Option<Seq<char>>) -> Seq<StepView> {
    match registered_fix(p, target) {
        Some(line) => seq![StepView { line, cwd: root, echo: true, best_effort: true }],
        None => seq![],
    }
}

/// Diagnose, clean and upgrade dependencies, in the current directory.
pub open spec fn tidy_steps() -> Seq<StepView> {
    seq![
        required("flutter doctor"@, None),
        required("flutter clean"@, None),
        required("flutter pub upgrade"@, None),
    ]
}

/// The native dependency install, where the platform has one.
pub open spec fn pod_steps(p: Platform) -> Seq<StepView> {
    if p.installs_pods() {
        seq![required("pod install"@, Some("./ios"@))]
    } else {
        seq![]
    }
}

/// The steps that bring the SDK to `target`: one channel switch for a
/// channel name; else checkout in the launcher's directory, the registered
/// fix, the tidy steps and the native dependency install.
pub open spec fn plan_for(p: Platform, target: Seq<char>, s: StatusView) -> Seq<StepView> {
    if is_channel(target) {
        seq![required("flutter channel "@ + target, None)]
    } else {
        checkout_steps(target, s.sdk_bin_path) + fix_steps(p, target, s.sdk_root_path) + tidy_steps()
            + pod_steps(p)
    }
}

pub(crate) fn opt_copy(o: &Option<String>) -> (r: Option<String>)
    ensures
        r == *o,
{
    match o {
        Some(s) => Some(s.clone()),
        None => None,
    }
}

fn step(line: String, cwd: Option<String>, best_effort: bool) -> (r: Step)
    ensures
        r.command.line == line,
        r.command.cwd == cwd,
        r.command.echo,
        r.best_effort == best_effort,
{
    Step { command: ShellCommand { line, cwd, echo: true }, best_effort }
}

/// Whether `v` names a release channel.
pub fn channel_name(v: &str) -> (r: bool)
    ensures
        r == is_channel(v@),
{
    same_text(v, "stable") || same_text(v, "beta") || same_text(v, "main") || same_text(v, "master")
}

/// The fix registered for `version`, if any.
pub fn workaround_for(platform: Platform, version: &str) -> (r: Option<String>)
    ensures
        match r {
            Some(line) => registered_fix(platform, version@) == Some(line@),
            None => registered_fix(platform, version@).is_none(),
        },
{
    if same_text(version, "3.29.0") {
        platform.gn_removal_command()
    } else {
        None
    }
}

/// The steps that bring the SDK of `status` to `target`.
pub fn reconcile_plan(platform: Platform, target: &str, status: &Status) -> (r: Vec<Step>)
    ensures
        steps_view(r@) == plan_for(platform, target@, status@),
{
    let mut steps: Vec<Step> = Vec::new();
    if channel_name(target) {
        steps.push(step(String::from_str("flutter channel ").concat(target), None, false));
        assert(steps_view(steps@) =~= plan_for(platform, target@, status@));
        return steps;
    }
    let dir = &status.sdk_bin_path;
    steps.push(step(String::from_str("git reset --hard"), opt_copy(dir), false));
    steps.push(step(String::from_str("git fetch"), opt_copy(dir), false));
    steps.push(step(String::from_str("git checkout ").concat(target), opt_copy(dir), false));
    steps.push(step(String::from_str("git reset --hard"), opt_copy(dir), false));
    match workaround_for(platform, target) {
        Some(line) => {
            steps.push(step(line, opt_copy(&status.sdk_root_path), true));
        },
        None => {},
    }
    assert(steps_view(steps@) =~= checkout_steps(target@, status@.sdk_bin_path) + fix_steps(
        platform,
        target@,
        status@.sdk_root_path,
    ));
    steps.push(step(String::from_str("flutter doctor"), None, false));
    steps.push(step(String::from_str("flutter clean"), None, false));
    steps.push(step(String::from_str("flutter pub upgrade"), None, false));
    if platform.needs_pod_install() {
        steps.push(step(String::from_str("pod install"), Some(String::from_str("./ios")), false));
    }
    assert(steps_view(steps@) =~= plan_for(platform, target@, status@));
    steps
}

} // verus!
