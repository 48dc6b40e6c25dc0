//! What holds of every plan and every session.
use vstd::prelude::*;
use crate::engine::{found, pending, step_to, target_of, Action, Event, Outcome, Phase, Reconciler, Tool};
use crate::plan::{checkout_steps, fix_steps, is_channel, plan_for, pod_steps, registered_fix, tidy_steps};
use crate::platform::Platform;
use crate::probe::opt_view;
use crate::status::StatusView;

verus! {

/// Whether a command line runs the version-control tool.
pub open spec fn is_vcs_line(line: Seq<char>) -> bool {
    line.len() >= 4 && line.subrange(0, 4) == "git "@
}

/// `vs` are the sessions that the events `evs` lead through, one after
/// each event.
pub open spec fn is_trace(vs: Seq<Reconciler>, evs: Seq<Event>) -> bool {
    &&& vs.len() == evs.len() + 1
    &&& forall|i: int| 0 <= i < evs.len() ==> step_to(#[trigger] vs[i], evs[i], vs[i + 1])
}

/// Whether a session, in this state, has a command of the plan to run.
pub open spec fn runs_command(v: Reconciler) -> bool {
    v.phase is Mutating
}

/// A session asks for a command to be run only while it runs its plan, and
/// then for the command of the current step.
pub proof fn only_plan_steps_run(v: Reconciler, a: Action)
    requires
        pending(v, a),
        a is Run,
    ensures
        runs_command(v),
{
}

proof fn lemma_not_vcs(line: Seq<char>, c: char)
    requires
        line.len() > 0,
        line[0] == c,
        c != 'g',
    ensures
        !is_vcs_line(line),
{
    reveal_strlit("git ");
    if line.len() >= 4 {
        assert(line.subrange(0, 4)[0] == c);
    }
}

/// A channel name is reached by one `flutter channel` command and no
/// version-control command.
pub proof fn channel_is_one_switch(p: Platform, target: Seq<char>, s: StatusView)
    requires
        is_channel(target),
    ensures
        plan_for(p, target, s).len() == 1,
        plan_for(p, target, s)[0].line == "flutter channel "@ + target,
        forall|i: int| 0 <= i < plan_for(p, target, s).len() ==> !is_vcs_line(#[trigger] plan_for(p, target, s)[i].line),
{
    reveal_strlit("flutter channel ");
    lemma_not_vcs("flutter channel "@ + target, 'f');
}

/// Any other target is reached by reset, fetch, checkout of the target and
/// reset, in the launcher's directory and in that order, before any other
/// step; no later step runs the version-control tool.
pub proof fn pinned_checkout_comes_first(p: Platform, target: Seq<char>, s: StatusView)
    requires
        !is_channel(target),
    ensures
        plan_for(p, target, s).len() >= 7,
        plan_for(p, target, s)[0].line == "git reset --hard"@,
        plan_for(p, target, s)[1].line == "git fetch"@,
        plan_for(p, target, s)[2].line == "git checkout "@ + target,
        plan_for(p, target, s)[3].line == "git reset --hard"@,
        forall|i: int| 0 <= i < 4 ==> (#[trigger] plan_for(p, target, s)[i]).cwd == s.sdk_bin_path,
        forall|i: int| 4 <= i < plan_for(p, target, s).len() ==> !is_vcs_line(#[trigger] plan_for(p, target, s)[i].line),
{
    let plan = plan_for(p, target, s);
    let head = checkout_steps(target, s.sdk_bin_path);
    let tail = fix_steps(p, target, s.sdk_root_path) + tidy_steps() + pod_steps(p);
    assert(plan =~= head + tail);
    reveal_strlit("flutter doctor");
    reveal_strlit("flutter clean");
    reveal_strlit("flutter pub upgrade");
    reveal_strlit("pod install");
    reveal_strlit("del .\\engine\\src\\.gn");
    reveal_strlit("rm -rf ./engine/src/.gn");
    assert forall|i: int| 4 <= i < plan.len() implies !is_vcs_line(#[trigger] plan[i].line) by {
        let line = plan[i].line;
        assert(plan[i] == tail[i - 4]);
        assert(line.len() > 0 && line[0] != 'g');
        lemma_not_vcs(line, line[0]);
    }
}

/// The fix step is in a plan exactly when the target is a pinned version
/// with a registered fix, and only that version has one; it is never in a
/// channel switch.
pub proof fn fix_only_for_registered(p: Platform, target: Seq<char>, s: StatusView)
    ensures
        (exists|i: int| 0 <= i < plan_for(p, target, s).len() && (#[trigger] plan_for(p, target, s)[i]).best_effort)
            <==> (!is_channel(target) && registered_fix(p, target).is_some()),
        registered_fix(p, target).is_some() <==> (target == "3.29.0"@ && p.supported()),
        is_channel(target) ==> registered_fix(p, target).is_none(),
{
    reveal_strlit("3.29.0");
    reveal_strlit("stable");
    reveal_strlit("beta");
    reveal_strlit("main");
    reveal_strlit("master");
    let plan = plan_for(p, target, s);
    if is_channel(target) {
        assert(target != "3.29.0"@) by {
            assert(target.len() != 6 || target[0] != '3');
        }
    } else {
        let head = checkout_steps(target, s.sdk_bin_path);
        let fix = fix_steps(p, target, s.sdk_root_path);
        let rest = tidy_steps() + pod_steps(p);
        assert(plan =~= head + fix + rest);
        if registered_fix(p, target).is_some() {
            assert(plan[4] == fix[0]);
        } else {
            assert forall|i: int| 0 <= i < plan.len() implies !(#[trigger] plan[i]).best_effort by {
                if i >= 4 {
                    assert(plan[i] == rest[i - 4]);
                }
            }
        }
    }
}

proof fn lemma_done_stays(vs: Seq<Reconciler>, evs: Seq<Event>, k: int)
    requires
        is_trace(vs, evs),
        0 <= k < vs.len(),
        vs[k].phase is Done,
    ensures
        forall|i: int| k <= i < vs.len() ==> #[trigger] vs[i] == vs[k],
    decreases vs.len() - k,
{
    if k + 1 < vs.len() {
        assert(step_to(vs[k], evs[k], vs[k + 1]));
        lemma_done_stays(vs, evs, k + 1);
    }
}

/// Where the SDK launcher or the version-control tool is not found, the
/// session ends at once, naming the missing tool, and runs no command.
pub proof fn missing_tool_runs_nothing(vs: Seq<Reconciler>, evs: Seq<Event>)
    requires
        is_trace(vs, evs),
        evs.len() >= 1,
        vs[0].phase is Locating,
        evs[0] is ToolsLocated,
        !found(evs[0]->sdk_output) || !found(evs[0]->vcs_output),
    ensures
        forall|i: int| 1 <= i < vs.len() ==> (#[trigger] vs[i]).phase == Phase::Done(
            Outcome::ToolMissing(if !found(evs[0]->sdk_output) { Tool::Sdk } else { Tool::Vcs }),
        ),
        forall|i: int| 0 <= i < vs.len() ==> !runs_command(#[trigger] vs[i]),
{
    assert(step_to(vs[0], evs[0], vs[1]));
    lemma_done_stays(vs, evs, 1);
}

/// Where the first snapshot shows the SDK at the target version, the
/// session ends as already in step and runs no command.
pub proof fn synced_sdk_runs_nothing(vs: Seq<Reconciler>, evs: Seq<Event>)
    requires
        is_trace(vs, evs),
        evs.len() >= 1,
        vs[0].phase is Probing,
        evs[0] is Probed,
        target_of(opt_view(vs[0].desired_override), vs[1].status@.project_version).is_some(),
        vs[1].status@.sdk_version == target_of(opt_view(vs[0].desired_override), vs[1].status@.project_version),
    ensures
        forall|i: int| 1 <= i < vs.len() ==> (#[trigger] vs[i]).phase == Phase::Done(Outcome::AlreadySynced),
        forall|i: int| 0 <= i < vs.len() ==> !runs_command(#[trigger] vs[i]),
{
    assert(step_to(vs[0], evs[0], vs[1]));
    lemma_done_stays(vs, evs, 1);
}

} // verus!
