use vstd::prelude::*;

use crate::config::handlers::{
    conf_file, conf_steps, container_dir, profile_dir, profile_steps, remove_steps, restart_step,
    set_steps, state_dir, state_dir_steps, unit_name,
};
use crate::request::job::{
    acceptable, is_absent, lemma_acceptable_outcomes_succeed, lemma_fail_fast,
    lemma_success_means_every_required_step_done, run_all, start_state, step_view, steps_view,
    Failure, OnFailure, OpView, Outcome, ResultView, Step, StepView,
};
use crate::request::models::RequestId;
use crate::utils::command::{failure_text, CommandOutputError};
use crate::utils::env::Locations;

verus! {

proof fn lemma_step_views(steps: Seq<Step>, views: Seq<StepView>)
    requires
        steps_view(steps) == views,
    ensures
        steps.len() == views.len(),
        forall|k: int|
            0 <= k < steps.len() ==> #[trigger] steps[k].on_failure == views[k].on_failure
                && steps[k].context@ == views[k].context,
{
    assert forall|k: int| 0 <= k < steps.len() implies #[trigger] steps[k].on_failure
        == views[k].on_failure && steps[k].context@ == views[k].context by {
        assert(steps_view(steps)[k] == step_view(steps[k]));
    }
}

proof fn lemma_set_steps_required(
    l: Locations,
    id: Seq<char>,
    flake: Seq<char>,
    network: Option<Seq<char>>,
    gpus: Option<Seq<u64>>,
    update_inputs: Option<Seq<Seq<char>>>,
    rid: RequestId,
)
    ensures
        forall|k: int|
            0 <= k < set_steps(l, id, flake, network, gpus, update_inputs, rid).len()
                ==> #[trigger] set_steps(l, id, flake, network, gpus, update_inputs, rid)[k].on_failure
                == OnFailure::Abort,
{
    let c = conf_steps(l, id, network, gpus, rid);
    let s = state_dir_steps(l, id);
    let p = profile_steps(l, id, rid);
    assert(forall|k: int| 0 <= k < c.len() ==> #[trigger] c[k].on_failure == OnFailure::Abort);
    assert(forall|k: int| 0 <= k < s.len() ==> #[trigger] s[k].on_failure == OnFailure::Abort);
    assert(forall|k: int| 0 <= k < p.len() ==> #[trigger] p[k].on_failure == OnFailure::Abort);
}

/// What the steps of a job leave on the host: the paths that exist and the
/// service units that run.
pub struct HostView {
    pub present: Set<Seq<char>>,
    pub active: Set<Seq<char>>,
}

/// The host after an operation is carried out: what is made or written
/// exists, what is deleted does not, and a unit that is restarted runs.
pub open spec fn apply_op(h: HostView, op: OpView) -> HostView {
    match op {
        OpView::CreateDir { path } => HostView { present: h.present.insert(path), ..h },
        OpView::WriteFile { path, .. } => HostView { present: h.present.insert(path), ..h },
        OpView::WriteHostPlatform { path } => HostView { present: h.present.insert(path), ..h },
        OpView::CopyDir { to, .. } => HostView { present: h.present.insert(to), ..h },
        OpView::RemoveDir { path } => HostView { present: h.present.remove(path), ..h },
        OpView::RemoveFile { path } => HostView { present: h.present.remove(path), ..h },
        OpView::Run { words, .. } => if words.len() == 3 && words[1] == "reload-or-restart"@ {
            HostView { active: h.active.insert(words[2]), ..h }
        } else if words.len() == 3 && words[1] == "stop"@ {
            HostView { active: h.active.remove(words[2]), ..h }
        } else {
            h
        },
    }
}

/// The host after the steps are carried out one after the other.
pub open spec fn host_after(h: HostView, steps: Seq<StepView>) -> HostView
    decreases steps.len(),
{
    if steps.len() == 0 {
        h
    } else {
        apply_op(host_after(h, steps.drop_last()), steps.last().op)
    }
}

/// Whether an operation deletes something or stops a unit.
pub open spec fn takes_away(op: OpView) -> bool {
    match op {
        OpView::RemoveDir { .. } => true,
        OpView::RemoveFile { .. } => true,
        OpView::Run { words, .. } => words.len() == 3 && words[1] == "stop"@,
        _ => false,
    }
}

proof fn lemma_host_keeps(h: HostView, steps: Seq<StepView>, k: int)
    requires
        0 <= k < steps.len(),
        forall|j: int| 0 <= j < steps.len() ==> !takes_away(#[trigger] steps[j].op),
    ensures
        (steps[k].op matches OpView::CreateDir { path } ==> host_after(h, steps).present.contains(
            path,
        )),
        (steps[k].op matches OpView::WriteFile { path, .. } ==> host_after(
            h,
            steps,
        ).present.contains(path)),
        (steps[k].op matches OpView::Run { words, .. } ==> (words.len() == 3 && words[1]
            == "reload-or-restart"@ ==> host_after(h, steps).active.contains(words[2]))),
    decreases steps.len(),
{
    let rest = steps.drop_last();
    assert(!takes_away(steps.last().op));
    if k < steps.len() - 1 {
        assert(rest[k] == steps[k]);
        assert forall|j: int| 0 <= j < rest.len() implies !takes_away(#[trigger] rest[j].op) by {
            assert(rest[j] == steps[j]);
        }
        lemma_host_keeps(h, rest, k);
    }
}

/// Once a container set reports success, every one of its steps was carried
/// out: the service settings and drop-in files were written, the state
/// directory and the profile were made, and the container was restarted.
/// On a host where steps do what they say, the profile, the state
/// directory and the service settings file then exist and the container's
/// unit runs.
pub proof fn lemma_set_success_means_all_done(
    l: Locations,
    id: Seq<char>,
    flake: Seq<char>,
    network: Option<Seq<char>>,
    gpus: Option<Seq<u64>>,
    update_inputs: Option<Seq<Seq<char>>>,
    rid: RequestId,
    steps: Seq<Step>,
    os: Seq<Outcome>,
)
    requires
        steps_view(steps) == set_steps(l, id, flake, network, gpus, update_inputs, rid),
    ensures
        ({
            let end = run_all(steps, false, start_state(steps, false), os);
            end.result matches Some(ResultView::Success { .. }) ==> end.pos == steps.len()
                && forall|k: int| 0 <= k < steps.len() ==> #[trigger] end.passed[k] is Done
        }),
        forall|h: HostView|
            {
                let after = #[trigger] host_after(
                    h,
                    set_steps(l, id, flake, network, gpus, update_inputs, rid),
                );
                &&& after.present.contains(profile_dir(l, id))
                &&& after.present.contains(state_dir(l, id))
                &&& after.present.contains(conf_file(l, id))
                &&& after.active.contains(unit_name(id))
            },
{
    let views0 = set_steps(l, id, flake, network, gpus, update_inputs, rid);
    let u: int = if update_inputs is Some {
        1
    } else {
        0
    };
    let c = conf_steps(l, id, network, gpus, rid);
    let st = state_dir_steps(l, id);
    let p = profile_steps(l, id, rid);
    assert(views0.len() == 16 + u);
    assert(views0[2 + u] == c[0]);
    assert(views0[6 + u] == st[0]);
    assert(views0[13 + u] == p[0]);
    assert(views0[15 + u] == restart_step(l, id, rid));
    reveal_strlit("stop");
    reveal_strlit("reload-or-restart");
    assert("stop"@ != "reload-or-restart"@) by {
        assert("stop"@.len() != "reload-or-restart"@.len());
    }
    assert(forall|i: int| 0 <= i < c.len() ==> !takes_away(#[trigger] c[i].op));
    assert(forall|i: int| 0 <= i < st.len() ==> !takes_away(#[trigger] st[i].op));
    assert(forall|i: int| 0 <= i < p.len() ==> !takes_away(#[trigger] p[i].op));
    assert(!takes_away(restart_step(l, id, rid).op));
    let head = views0.take(2 + u);
    assert(forall|i: int| 0 <= i < head.len() ==> !takes_away(#[trigger] head[i].op));
    assert(views0 =~= head + c + st + p + seq![restart_step(l, id, rid)]);
    assert forall|j: int| 0 <= j < views0.len() implies !takes_away(#[trigger] views0[j].op) by {
        if j < 2 + u {
            assert(views0[j] == head[j]);
        } else if j < 6 + u {
            assert(views0[j] == c[j - 2 - u]);
        } else if j < 13 + u {
            assert(views0[j] == st[j - 6 - u]);
        } else if j < 15 + u {
            assert(views0[j] == p[j - 13 - u]);
        }
    }
    assert forall|h: HostView| {
        let after = #[trigger] host_after(h, views0);
        &&& after.present.contains(profile_dir(l, id))
        &&& after.present.contains(state_dir(l, id))
        &&& after.present.contains(conf_file(l, id))
        &&& after.active.contains(unit_name(id))
    } by {
        lemma_host_keeps(h, views0, 2 + u);
        lemma_host_keeps(h, views0, 6 + u);
        lemma_host_keeps(h, views0, 13 + u);
        lemma_host_keeps(h, views0, 15 + u);
    }
    let views = set_steps(l, id, flake, network, gpus, update_inputs, rid);
    lemma_step_views(steps, views);
    lemma_set_steps_required(l, id, flake, network, gpus, update_inputs, rid);
    lemma_success_means_every_required_step_done(steps, false, os);
    let end = run_all(steps, false, start_state(steps, false), os);
    assert forall|k: int| 0 <= k < steps.len() implies (end.result matches Some(
        ResultView::Success { .. },
    ) ==> #[trigger] end.passed[k] is Done) by {
        assert(steps[k].on_failure == views[k].on_failure);
    }
}

/// A container set whose build fails, after the steps before it went
/// through, ends with an error that carries the build tool's standard
/// error, and the restart after the build is never run.
pub proof fn lemma_set_build_failure(
    l: Locations,
    id: Seq<char>,
    flake: Seq<char>,
    network: Option<Seq<char>>,
    gpus: Option<Seq<u64>>,
    rid: RequestId,
    steps: Seq<Step>,
    os: Seq<Outcome>,
    stderr: Vec<u8>,
)
    requires
        steps_view(steps) == set_steps(l, id, flake, network, gpus, None, rid),
        os.len() > 14,
        forall|k: int| 0 <= k < 14 ==> #[trigger] os[k] is Done,
        os[14] == (Outcome::Failed {
            failure: Failure::Command { e: CommandOutputError::OutputError { output: stderr } },
        }),
    ensures
        ({
            let end = run_all(steps, false, start_state(steps, false), os);
            &&& end.pos == 14
            &&& end.passed.len() == 14
            &&& end.result == Some(
                ResultView::Error {
                    error: "Error building configuration "@ + container_dir(l, id) + ": "@
                        + failure_text(CommandOutputError::OutputError { output: stderr }),
                },
            )
        }),
{
    let views = set_steps(l, id, flake, network, gpus, None, rid);
    lemma_step_views(steps, views);
    lemma_set_steps_required(l, id, flake, network, gpus, None, rid);
    assert(views[14] == profile_steps(l, id, rid)[1]);
    assert forall|j: int| 0 <= j < 14 implies acceptable(steps[j].on_failure, #[trigger] os[j]) by {
        assert(os[j] is Done);
    }
    lemma_fail_fast(
        steps,
        false,
        os,
        14,
        Failure::Command { e: CommandOutputError::OutputError { output: stderr } },
    );
}

/// A container set whose flake input update fails ends there: the service
/// settings file is not written and the state directory is not made.
pub proof fn lemma_set_update_failure(
    l: Locations,
    id: Seq<char>,
    flake: Seq<char>,
    network: Option<Seq<char>>,
    gpus: Option<Seq<u64>>,
    inputs: Seq<Seq<char>>,
    rid: RequestId,
    steps: Seq<Step>,
    os: Seq<Outcome>,
    f: Failure,
)
    requires
        steps_view(steps) == set_steps(l, id, flake, network, gpus, Some(inputs), rid),
        os.len() > 2,
        os[0] is Done,
        os[1] is Done,
        os[2] == (Outcome::Failed { failure: f }),
    ensures
        ({
            let end = run_all(steps, false, start_state(steps, false), os);
            &&& end.pos == 2
            &&& end.passed.len() == 2
            &&& end.result is Some
            &&& end.result->Some_0 is Error
        }),
{
    let views = set_steps(l, id, flake, network, gpus, Some(inputs), rid);
    lemma_step_views(steps, views);
    lemma_set_steps_required(l, id, flake, network, gpus, Some(inputs), rid);
    assert forall|j: int| 0 <= j < 2 implies acceptable(steps[j].on_failure, #[trigger] os[j]) by {
        assert(os[j] is Done);
    }
    lemma_fail_fast(steps, false, os, 2, f);
}

/// Removing a container whose profile is already gone succeeds when the
/// other steps go through.
pub proof fn lemma_remove_without_profile(
    l: Locations,
    id: Seq<char>,
    rid: RequestId,
    steps: Seq<Step>,
    os: Seq<Outcome>,
    f: Failure,
)
    requires
        steps_view(steps) == remove_steps(l, id, rid),
        os.len() == 8,
        is_absent(f),
        os[1] == (Outcome::Failed { failure: f }),
        forall|k: int| 0 <= k < 8 && k != 1 ==> #[trigger] os[k] is Done,
    ensures
        run_all(steps, false, start_state(steps, false), os).result == Some(
            ResultView::Success { body: None },
        ),
{
    let views = remove_steps(l, id, rid);
    lemma_step_views(steps, views);
    assert forall|k: int| 0 <= k < steps.len() implies acceptable(
        steps[k].on_failure,
        #[trigger] os[k],
    ) by {
        if k != 1 {
            assert(os[k] is Done);
        }
    }
    lemma_acceptable_outcomes_succeed(steps, false, os);
}

/// Removing a container that was never created succeeds: stopping it and
/// clearing the attribute may fail, every deletion finds its target gone,
/// and the init system reloads.
pub proof fn lemma_remove_absent_container(
    l: Locations,
    id: Seq<char>,
    rid: RequestId,
    steps: Seq<Step>,
    os: Seq<Outcome>,
)
    requires
        steps_view(steps) == remove_steps(l, id, rid),
        os.len() == 8,
        os[6] is Done,
        forall|k: int|
            (k == 1 || k == 3 || k == 4 || k == 5 || k == 7) ==> (#[trigger] os[k] is Done || (
            os[k] matches Outcome::Failed { failure } && is_absent(failure))),
    ensures
        run_all(steps, false, start_state(steps, false), os).result == Some(
            ResultView::Success { body: None },
        ),
{
    let views = remove_steps(l, id, rid);
    lemma_step_views(steps, views);
    assert forall|k: int| 0 <= k < steps.len() implies acceptable(
        steps[k].on_failure,
        #[trigger] os[k],
    ) by {
        assert(steps[k].on_failure == views[k].on_failure);
        if k == 1 || k == 3 || k == 4 || k == 5 || k == 7 {
            assert(os[k] is Done || (os[k] matches Outcome::Failed { failure } && is_absent(
                failure,
            )));
        }
    }
    lemma_acceptable_outcomes_succeed(steps, false, os);
}

} // verus!
