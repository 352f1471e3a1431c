//! Searches through existing pipeline models, used to recognise which presets
//! an existing CI configuration corresponds to.
use crate::models::{
    CircleCIConfig, CircleCIConfigView, CircleCIRun, CircleCIRunView, CircleCIStep,
    CircleCIStepView, GitHubWorkflow, GitHubWorkflowView, GitLabCI, GitLabCIView, JenkinsConfig,
    JenkinsConfigView,
};
use crate::text::{contains, string_contains};
use vstd::prelude::*;

verus! {

pub open spec fn opt_contains(o: Option<Seq<char>>, p: Seq<char>) -> bool {
    match o {
        Some(s) => contains(s, p),
        None => false,
    }
}

/// Some step of some job uses an action whose reference contains `p`.
pub open spec fn any_uses(w: GitHubWorkflowView, p: Seq<char>) -> bool {
    exists|i: int, k: int|
        0 <= i < w.jobs.len() && 0 <= k < w.jobs[i].1.steps.len() && opt_contains(
            #[trigger] w.jobs[i].1.steps[k].uses,
            p,
        )
}

/// Some step of some job runs a command that contains `p`.
pub open spec fn any_run(w: GitHubWorkflowView, p: Seq<char>) -> bool {
    exists|i: int, k: int|
        0 <= i < w.jobs.len() && 0 <= k < w.jobs[i].1.steps.len() && opt_contains(
            #[trigger] w.jobs[i].1.steps[k].run,
            p,
        )
}

/// Searches the steps of a workflow: in the `uses` field when `in_uses`, else in `run`.
fn gh_search(w: &GitHubWorkflow, p: &str, in_uses: bool) -> (b: bool)
    ensures
        b == (if in_uses {
            any_uses(w@, p@)
        } else {
            any_run(w@, p@)
        }),
{
    let mut i: usize = 0;
    while i < w.jobs.len()
        invariant
            0 <= i <= w.jobs@.len(),
            forall|a: int, k: int|
                0 <= a < i && 0 <= k < w@.jobs[a].1.steps.len() ==> !opt_contains(
                    if in_uses {
                        #[trigger] w@.jobs[a].1.steps[k].uses
                    } else {
                        w@.jobs[a].1.steps[k].run
                    },
                    p@,
                ),
        decreases w.jobs@.len() - i,
    {
        let steps = &w.jobs[i].1.steps;
        assert(w@.jobs[i as int].1.steps.len() == steps@.len());
        let mut k: usize = 0;
        while k < steps.len()
            invariant
                0 <= i < w.jobs@.len(),
                steps == &w.jobs@[i as int].1.steps,
                0 <= k <= steps@.len(),
                forall|a: int, q: int|
                    0 <= a < i && 0 <= q < w@.jobs[a].1.steps.len() ==> !opt_contains(
                        if in_uses {
                            #[trigger] w@.jobs[a].1.steps[q].uses
                        } else {
                            w@.jobs[a].1.steps[q].run
                        },
                        p@,
                    ),
                forall|q: int|
                    0 <= q < k ==> !opt_contains(
                        if in_uses {
                            #[trigger] w@.jobs[i as int].1.steps[q].uses
                        } else {
                            w@.jobs[i as int].1.steps[q].run
                        },
                        p@,
                    ),
            decreases steps@.len() - k,
        {
            let field = if in_uses {
                &steps[k].uses
            } else {
                &steps[k].run
            };
            let found = match field {
                Some(s) => string_contains(s.as_str(), p),
                None => false,
            };
            if found {
                assert(opt_contains(
                    if in_uses {
                        w@.jobs[i as int].1.steps[k as int].uses
                    } else {
                        w@.jobs[i as int].1.steps[k as int].run
                    },
                    p@,
                ));
                return true;
            }
            k = k + 1;
        }
        i = i + 1;
    }
    assert forall|a: int, k: int|
        0 <= a < w@.jobs.len() && 0 <= k < w@.jobs[a].1.steps.len() implies !opt_contains(
        if in_uses {
            w@.jobs[a].1.steps[k].uses
        } else {
            w@.jobs[a].1.steps[k].run
        },
        p@,
    ) by {
        assert(w@.jobs[a].1.steps[k].uses == w@.jobs[a].1.steps[k].uses);
    }
    false
}

/// Whether some step uses an action whose reference contains `p`.
pub fn workflow_uses(w: &GitHubWorkflow, p: &str) -> (b: bool)
    ensures
        b == any_uses(w@, p@),
{
    gh_search(w, p, true)
}

/// Whether some step runs a command that contains `p`.
pub fn workflow_runs(w: &GitHubWorkflow, p: &str) -> (b: bool)
    ensures
        b == any_run(w@, p@),
{
    gh_search(w, p, false)
}

/// Some script line of some GitLab job contains `p`.
pub open spec fn any_script(c: GitLabCIView, p: Seq<char>) -> bool {
    exists|i: int, k: int|
        0 <= i < c.jobs.len() && 0 <= k < c.jobs[i].1.script.len() && contains(
            #[trigger] c.jobs[i].1.script[k],
            p,
        )
}

/// Whether some script line of some GitLab job contains `p`.
pub fn gitlab_scripts_contain(c: &GitLabCI, p: &str) -> (b: bool)
    ensures
        b == any_script(c@, p@),
{
    let mut i: usize = 0;
    while i < c.jobs.len()
        invariant
            0 <= i <= c.jobs@.len(),
            forall|a: int, k: int|
                0 <= a < i && 0 <= k < c@.jobs[a].1.script.len() ==> !contains(
                    #[trigger] c@.jobs[a].1.script[k],
                    p@,
                ),
        decreases c.jobs@.len() - i,
    {
        let script = &c.jobs[i].1.script;
        let mut k: usize = 0;
        while k < script.len()
            invariant
                0 <= i < c.jobs@.len(),
                script == &c.jobs@[i as int].1.script,
                0 <= k <= script@.len(),
                forall|a: int, q: int|
                    0 <= a < i && 0 <= q < c@.jobs[a].1.script.len() ==> !contains(
                        #[trigger] c@.jobs[a].1.script[q],
                        p@,
                    ),
                forall|q: int| 0 <= q < k ==> !contains(#[trigger] c@.jobs[i as int].1.script[q], p@),
            decreases script@.len() - k,
        {
            if string_contains(script[k].as_str(), p) {
                assert(contains(c@.jobs[i as int].1.script[k as int], p@));
                return true;
            }
            k = k + 1;
        }
        i = i + 1;
    }
    false
}

/// The command of a CircleCI step that runs one.
pub open spec fn step_command(s: CircleCIStepView) -> Option<Seq<char>> {
    match s {
        CircleCIStepView::Command(CircleCIRunView::Simple(c)) => Some(c),
        CircleCIStepView::Command(CircleCIRunView::Detailed { command, .. }) => Some(command),
        _ => None,
    }
}

/// Some command step of some CircleCI job contains `p`.
pub open spec fn any_command(c: CircleCIConfigView, p: Seq<char>) -> bool {
    exists|i: int, k: int|
        0 <= i < c.jobs.len() && 0 <= k < c.jobs[i].1.steps.len() && opt_contains(
            step_command(#[trigger] c.jobs[i].1.steps[k]),
            p,
        )
}

/// Whether some command step of some CircleCI job contains `p`.
pub fn circleci_commands_contain(c: &CircleCIConfig, p: &str) -> (b: bool)
    ensures
        b == any_command(c@, p@),
{
    let mut i: usize = 0;
    while i < c.jobs.len()
        invariant
            0 <= i <= c.jobs@.len(),
            forall|a: int, k: int|
                0 <= a < i && 0 <= k < c@.jobs[a].1.steps.len() ==> !opt_contains(
                    step_command(#[trigger] c@.jobs[a].1.steps[k]),
                    p@,
                ),
        decreases c.jobs@.len() - i,
    {
        let steps = &c.jobs[i].1.steps;
        let mut k: usize = 0;
        while k < steps.len()
            invariant
                0 <= i < c.jobs@.len(),
                steps == &c.jobs@[i as int].1.steps,
                0 <= k <= steps@.len(),
                forall|a: int, q: int|
                    0 <= a < i && 0 <= q < c@.jobs[a].1.steps.len() ==> !opt_contains(
                        step_command(#[trigger] c@.jobs[a].1.steps[q]),
                        p@,
                    ),
                forall|q: int|
                    0 <= q < k ==> !opt_contains(
                        step_command(#[trigger] c@.jobs[i as int].1.steps[q]),
                        p@,
                    ),
            decreases steps@.len() - k,
        {
            let found = match &steps[k] {
                CircleCIStep::Command { run } => match run {
                    CircleCIRun::Simple(cmd) => string_contains(cmd.as_str(), p),
                    CircleCIRun::Detailed { command, .. } => string_contains(command.as_str(), p),
                },
                _ => false,
            };
            if found {
                assert(opt_contains(step_command(c@.jobs[i as int].1.steps[k as int]), p@));
                return true;
            }
            k = k + 1;
        }
        i = i + 1;
    }
    false
}

/// Some step of some Jenkins stage contains `p`.
pub open spec fn any_stage_step(c: JenkinsConfigView, p: Seq<char>) -> bool {
    exists|i: int, k: int|
        0 <= i < c.stages.len() && 0 <= k < c.stages[i].1.len() && contains(
            #[trigger] c.stages[i].1[k],
            p,
        )
}

/// Whether some step of some Jenkins stage contains `p`.
pub fn jenkins_steps_contain(c: &JenkinsConfig, p: &str) -> (b: bool)
    ensures
        b == any_stage_step(c@, p@),
{
    let mut i: usize = 0;
    while i < c.stages.len()
        invariant
            0 <= i <= c.stages@.len(),
            forall|a: int, k: int|
                0 <= a < i && 0 <= k < c@.stages[a].1.len() ==> !contains(
                    #[trigger] c@.stages[a].1[k],
                    p@,
                ),
        decreases c.stages@.len() - i,
    {
        let steps = &c.stages[i].steps;
        let mut k: usize = 0;
        while k < steps.len()
            invariant
                0 <= i < c.stages@.len(),
                steps == &c.stages@[i as int].steps,
                0 <= k <= steps@.len(),
                forall|a: int, q: int|
                    0 <= a < i && 0 <= q < c@.stages[a].1.len() ==> !contains(
                        #[trigger] c@.stages[a].1[q],
                        p@,
                    ),
                forall|q: int| 0 <= q < k ==> !contains(#[trigger] c@.stages[i as int].1[q], p@),
            decreases steps@.len() - k,
        {
            if string_contains(steps[k].as_str(), p) {
                assert(contains(c@.stages[i as int].1[k as int], p@));
                return true;
            }
            k = k + 1;
        }
        i = i + 1;
    }
    false
}

} // verus!
