//! The documents of the pipeline models stated over their views, with the
//! lemmas that each model's document depends on its view alone.
use crate::models::{
    circle_job_tree, circle_step_tree, circle_workflow_tree, circleci_tree, concat_all, env_line,
    gitlab_job_tree, gitlab_tree, jenkins_text, job_tree, opt_pairs_v, opt_strs_v, opt_v, pairs_v,
    run_tree, stage_text, step_line, step_tree, strs_v, trigger_config_tree, triggers_tree,
    workflow_job_name, workflow_tree, CircleCIConfig, CircleCIConfigView, CircleCIJob,
    CircleCIJobView, CircleCIRun, CircleCIRunView, CircleCIStep, CircleCIStepView,
    CircleCIWorkflowJob, GitHubJob, GitHubJobView, GitHubStep, GitHubStepView, GitHubTriggerConfig,
    GitHubTriggerConfigView, GitHubTriggers, GitHubTriggersView, GitHubWorkflow,
    GitHubWorkflowView, GitLabCI, GitLabCIView, GitLabCacheView, GitLabJob, GitLabJobView,
    JenkinsConfig, JenkinsConfigView, JenkinsStage, Pairs,
};
use crate::yaml::{entry_if, opt_str_list, opt_str_map, str_list, str_map, YamlTree};
use vstd::prelude::*;

verus! {

pub open spec fn text_list(v: Seq<Seq<char>>) -> YamlTree {
    YamlTree::List(v.map_values(|s: Seq<char>| YamlTree::Str(s)))
}

pub open spec fn text_map(v: Pairs) -> YamlTree {
    YamlTree::Mapping(v.map_values(|p: (Seq<char>, Seq<char>)| (p.0, YamlTree::Str(p.1))))
}

pub open spec fn opt_text(o: Option<Seq<char>>) -> Option<YamlTree> {
    match o {
        Some(s) => Some(YamlTree::Str(s)),
        None => None,
    }
}

pub open spec fn opt_text_list(o: Option<Seq<Seq<char>>>) -> Option<YamlTree> {
    match o {
        Some(v) => Some(text_list(v)),
        None => None,
    }
}

pub open spec fn opt_text_map(o: Option<Pairs>) -> Option<YamlTree> {
    match o {
        Some(v) => Some(text_map(v)),
        None => None,
    }
}

proof fn lemma_str_list(v: Seq<String>)
    ensures
        str_list(v) == text_list(strs_v(v)),
{
    assert(v.map_values(|s: String| YamlTree::Str(s@)) =~= strs_v(v).map_values(
        |s: Seq<char>| YamlTree::Str(s),
    ));
}

proof fn lemma_opt_str_list(o: Option<Vec<String>>)
    ensures
        opt_str_list(o) == opt_text_list(opt_strs_v(o)),
{
    if let Some(v) = o {
        lemma_str_list(v@);
    }
}

proof fn lemma_opt_str_map(o: Option<Vec<(String, String)>>)
    ensures
        opt_str_map(o) == opt_text_map(opt_pairs_v(o)),
{
    if let Some(v) = o {
        assert(str_map(v@)->Mapping_0 =~= text_map(pairs_v(v@))->Mapping_0);
    }
}

// ---------------------------------------------------------------- GitHub

pub open spec fn step_doc(s: GitHubStepView) -> YamlTree {
    YamlTree::Mapping(
        entry_if("name"@, opt_text(s.name)) + entry_if("uses"@, opt_text(s.uses)) + entry_if(
            "run"@,
            opt_text(s.run),
        ) + entry_if("with"@, opt_text_map(s.with)) + entry_if("env"@, opt_text_map(s.env)),
    )
}

pub open spec fn job_doc(j: GitHubJobView) -> YamlTree {
    YamlTree::Mapping(
        seq![
            ("runs-on"@, YamlTree::Str(j.runs_on)),
            ("steps"@, YamlTree::List(j.steps.map_values(|s: GitHubStepView| step_doc(s)))),
        ] + entry_if("needs"@, opt_text_list(j.needs)) + entry_if(
            "timeout-minutes"@,
            match j.timeout_minutes {
                Some(t) => Some(YamlTree::Int(t as nat)),
                None => None,
            },
        ) + entry_if(
            "continue-on-error"@,
            match j.continue_on_error {
                Some(b) => Some(YamlTree::Bool(b)),
                None => None,
            },
        ),
    )
}

pub open spec fn trigger_config_doc(c: GitHubTriggerConfigView) -> YamlTree {
    YamlTree::Mapping(
        entry_if("branches"@, opt_text_list(c.branches)) + entry_if("tags"@, opt_text_list(c.tags)),
    )
}

pub open spec fn triggers_doc(t: GitHubTriggersView) -> YamlTree {
    match t {
        GitHubTriggersView::Events(v) => text_list(v),
        GitHubTriggersView::Detailed(v) => YamlTree::Mapping(
            v.map_values(
                |p: (Seq<char>, GitHubTriggerConfigView)| (p.0, trigger_config_doc(p.1)),
            ),
        ),
    }
}

/// The YAML document of a GitHub (or Gitea) workflow.
pub open spec fn workflow_doc(w: GitHubWorkflowView) -> YamlTree {
    YamlTree::Mapping(
        seq![("name"@, YamlTree::Str(w.name)), ("on"@, triggers_doc(w.on))] + entry_if(
            "env"@,
            opt_text_map(w.env),
        ) + seq![
            (
                "jobs"@,
                YamlTree::Mapping(
                    w.jobs.map_values(|p: (Seq<char>, GitHubJobView)| (p.0, job_doc(p.1))),
                ),
            ),
        ],
    )
}

proof fn lemma_step_doc(s: GitHubStep)
    ensures
        step_tree(s) == step_doc(s@),
{
    lemma_opt_str_map(s.with);
    lemma_opt_str_map(s.env);
}

proof fn lemma_job_doc(j: GitHubJob)
    ensures
        job_tree(j) == job_doc(j@),
{
    lemma_opt_str_list(j.needs);
    assert forall|k: int| 0 <= k < j.steps@.len() implies step_tree(#[trigger] j.steps@[k])
        == step_doc(j.steps@[k]@) by {
        lemma_step_doc(j.steps@[k]);
    }
    assert(j.steps@.map_values(|s: GitHubStep| step_tree(s)) =~= j@.steps.map_values(
        |s: GitHubStepView| step_doc(s),
    ));
}

proof fn lemma_triggers_doc(t: GitHubTriggers)
    ensures
        triggers_tree(t) == triggers_doc(t@),
{
    match t {
        GitHubTriggers::Events(v) => {
            lemma_str_list(v@);
        },
        GitHubTriggers::Detailed(v) => {
            assert forall|k: int| 0 <= k < v@.len() implies trigger_config_tree(#[trigger] v@[k].1)
                == trigger_config_doc(v@[k].1@) by {
                lemma_opt_str_list(v@[k].1.branches);
                lemma_opt_str_list(v@[k].1.tags);
            }
            assert(triggers_tree(t)->Mapping_0 =~= triggers_doc(t@)->Mapping_0);
        },
    }
}

/// A workflow's document is that of its view.
pub proof fn lemma_workflow_doc(w: GitHubWorkflow)
    ensures
        workflow_tree(w) == workflow_doc(w@),
{
    lemma_triggers_doc(w.on);
    lemma_opt_str_map(w.env);
    assert forall|k: int| 0 <= k < w.jobs@.len() implies job_tree(#[trigger] w.jobs@[k].1)
        == job_doc(w.jobs@[k].1@) by {
        lemma_job_doc(w.jobs@[k].1);
    }
    assert(w.jobs@.map_values(|p: (String, GitHubJob)| (p.0@, job_tree(p.1))) =~= w@.jobs.map_values(
        |p: (Seq<char>, GitHubJobView)| (p.0, job_doc(p.1)),
    ));
    assert(workflow_tree(w)->Mapping_0 =~= workflow_doc(w@)->Mapping_0);
}

// ---------------------------------------------------------------- GitLab

pub open spec fn cache_doc(c: Option<GitLabCacheView>) -> Option<YamlTree> {
    match c {
        Some(c) => Some(
            YamlTree::Mapping(seq![("key"@, YamlTree::Str(c.key)), ("paths"@, text_list(c.paths))]),
        ),
        None => None,
    }
}

pub open spec fn gitlab_job_doc(j: GitLabJobView) -> YamlTree {
    YamlTree::Mapping(
        seq![("stage"@, YamlTree::Str(j.stage))] + entry_if("image"@, opt_text(j.image)) + seq![
            ("script"@, text_list(j.script)),
        ] + entry_if("before_script"@, opt_text_list(j.before_script)) + entry_if(
            "after_script"@,
            opt_text_list(j.after_script),
        ) + entry_if("needs"@, opt_text_list(j.needs)) + entry_if("cache"@, cache_doc(j.cache))
            + entry_if(
            "artifacts"@,
            match j.artifacts {
                Some(a) => Some(
                    YamlTree::Mapping(
                        seq![("paths"@, text_list(a.paths))] + entry_if("name"@, opt_text(a.name)),
                    ),
                ),
                None => None,
            },
        ) + entry_if(
            "only"@,
            match j.only {
                Some(refs) => Some(YamlTree::Mapping(entry_if("refs"@, opt_text_list(refs)))),
                None => None,
            },
        ) + entry_if("timeout"@, opt_text(j.timeout)),
    )
}

/// The YAML document of a GitLab configuration; jobs are top-level keys.
pub open spec fn gitlab_doc(c: GitLabCIView) -> YamlTree {
    YamlTree::Mapping(
        entry_if("stages"@, opt_text_list(c.stages)) + entry_if(
            "variables"@,
            opt_text_map(c.variables),
        ) + entry_if("cache"@, cache_doc(c.cache)) + c.jobs.map_values(
            |p: (Seq<char>, GitLabJobView)| (p.0, gitlab_job_doc(p.1)),
        ),
    )
}

proof fn lemma_gitlab_job_doc(j: GitLabJob)
    ensures
        gitlab_job_tree(j) == gitlab_job_doc(j@),
{
    lemma_str_list(j.script@);
    lemma_opt_str_list(j.before_script);
    lemma_opt_str_list(j.after_script);
    lemma_opt_str_list(j.needs);
    if let Some(c) = j.cache {
        lemma_str_list(c.paths@);
    }
    if let Some(a) = j.artifacts {
        lemma_str_list(a.paths@);
    }
    if let Some(o) = j.only {
        lemma_opt_str_list(o.refs);
    }
    assert(gitlab_job_tree(j)->Mapping_0 =~= gitlab_job_doc(j@)->Mapping_0);
}

/// A GitLab configuration's document is that of its view.
pub proof fn lemma_gitlab_doc(c: GitLabCI)
    ensures
        gitlab_tree(c) == gitlab_doc(c@),
{
    lemma_opt_str_list(c.stages);
    lemma_opt_str_map(c.variables);
    if let Some(k) = c.cache {
        lemma_str_list(k.paths@);
    }
    assert forall|k: int| 0 <= k < c.jobs@.len() implies gitlab_job_tree(#[trigger] c.jobs@[k].1)
        == gitlab_job_doc(c.jobs@[k].1@) by {
        lemma_gitlab_job_doc(c.jobs@[k].1);
    }
    assert(c.jobs@.map_values(|p: (String, GitLabJob)| (p.0@, gitlab_job_tree(p.1))) =~= c@.jobs.map_values(
        |p: (Seq<char>, GitLabJobView)| (p.0, gitlab_job_doc(p.1)),
    ));
    assert(gitlab_tree(c)->Mapping_0 =~= gitlab_doc(c@)->Mapping_0);
}

// ---------------------------------------------------------------- CircleCI

pub open spec fn run_doc(r: CircleCIRunView) -> YamlTree {
    match r {
        CircleCIRunView::Simple(s) => YamlTree::Str(s),
        CircleCIRunView::Detailed { name, command } => YamlTree::Mapping(
            seq![("name"@, YamlTree::Str(name)), ("command"@, YamlTree::Str(command))],
        ),
    }
}

pub open spec fn circle_step_doc(s: CircleCIStepView) -> YamlTree {
    match s {
        CircleCIStepView::Simple(x) => YamlTree::Str(x),
        CircleCIStepView::Command(run) => YamlTree::Mapping(seq![("run"@, run_doc(run))]),
        CircleCIStepView::Cache(keys) => YamlTree::Mapping(
            seq![("restore_cache"@, YamlTree::Mapping(seq![("keys"@, text_list(keys))]))],
        ),
        CircleCIStepView::SaveCache { key, paths } => YamlTree::Mapping(
            seq![
                (
                    "save_cache"@,
                    YamlTree::Mapping(seq![("key"@, YamlTree::Str(key)), ("paths"@, text_list(paths))]),
                ),
            ],
        ),
    }
}

pub open spec fn circle_job_doc(j: CircleCIJobView) -> YamlTree {
    YamlTree::Mapping(
        seq![
            (
                "docker"@,
                YamlTree::List(
                    j.docker.map_values(
                        |i: Seq<char>| YamlTree::Mapping(seq![("image"@, YamlTree::Str(i))]),
                    ),
                ),
            ),
            ("steps"@, YamlTree::List(j.steps.map_values(|s: CircleCIStepView| circle_step_doc(s)))),
        ] + entry_if("environment"@, opt_text_map(j.environment)),
    )
}

/// The YAML document of a CircleCI configuration.
pub open spec fn circleci_doc(c: CircleCIConfigView) -> YamlTree {
    YamlTree::Mapping(
        seq![("version"@, YamlTree::Str(c.version))] + entry_if("orbs"@, opt_text_map(c.orbs))
            + seq![
            (
                "jobs"@,
                YamlTree::Mapping(
                    c.jobs.map_values(|p: (Seq<char>, CircleCIJobView)| (p.0, circle_job_doc(p.1))),
                ),
            ),
            (
                "workflows"@,
                YamlTree::Mapping(
                    c.workflows.map_values(
                        |p: (Seq<char>, Seq<Seq<char>>)|
                            (p.0, YamlTree::Mapping(seq![("jobs"@, text_list(p.1))])),
                    ),
                ),
            ),
        ],
    )
}

proof fn lemma_circle_step_doc(s: CircleCIStep)
    ensures
        circle_step_tree(s) == circle_step_doc(s@),
{
    match s {
        CircleCIStep::Cache { restore_cache } => {
            lemma_str_list(restore_cache.keys@);
        },
        CircleCIStep::SaveCache { save_cache } => {
            lemma_str_list(save_cache.paths@);
        },
        CircleCIStep::Command { run } => {
            assert(run_tree(run) == run_doc(run@));
        },
        _ => {},
    }
}

proof fn lemma_circle_job_doc(j: CircleCIJob)
    ensures
        circle_job_tree(j) == circle_job_doc(j@),
{
    lemma_opt_str_map(j.environment);
    assert forall|k: int| 0 <= k < j.steps@.len() implies circle_step_tree(#[trigger] j.steps@[k])
        == circle_step_doc(j.steps@[k]@) by {
        lemma_circle_step_doc(j.steps@[k]);
    }
    assert(circle_job_tree(j)->Mapping_0[0].1->List_0 =~= circle_job_doc(j@)->Mapping_0[0].1->List_0);
    assert(circle_job_tree(j)->Mapping_0[1].1->List_0 =~= circle_job_doc(j@)->Mapping_0[1].1->List_0);
    assert(circle_job_tree(j)->Mapping_0 =~= circle_job_doc(j@)->Mapping_0);
}

/// A CircleCI configuration's document is that of its view.
pub proof fn lemma_circleci_doc(c: CircleCIConfig)
    ensures
        circleci_tree(c) == circleci_doc(c@),
{
    lemma_opt_str_map(c.orbs);
    assert forall|k: int| 0 <= k < c.jobs@.len() implies circle_job_tree(#[trigger] c.jobs@[k].1)
        == circle_job_doc(c.jobs@[k].1@) by {
        lemma_circle_job_doc(c.jobs@[k].1);
    }
    assert forall|k: int| 0 <= k < c.workflows@.len() implies circle_workflow_tree(
        #[trigger] c.workflows@[k].1,
    ) == YamlTree::Mapping(seq![("jobs"@, text_list(c@.workflows[k].1))]) by {
        let w = c.workflows@[k].1;
        assert(circle_workflow_tree(w)->Mapping_0[0].1->List_0 =~= text_list(
            w.jobs@.map_values(|j: CircleCIWorkflowJob| workflow_job_name(j)),
        )->List_0);
        assert(circle_workflow_tree(w)->Mapping_0 =~= seq![("jobs"@, text_list(c@.workflows[k].1))]);
    }
    assert(circleci_tree(c)->Mapping_0.last().1->Mapping_0 =~= circleci_doc(c@)->Mapping_0.last().1->Mapping_0);
    assert(circleci_tree(c)->Mapping_0[circleci_tree(c)->Mapping_0.len() - 2].1->Mapping_0
        =~= circleci_doc(c@)->Mapping_0[circleci_doc(c@)->Mapping_0.len() - 2].1->Mapping_0);
    assert(circleci_tree(c)->Mapping_0 =~= circleci_doc(c@)->Mapping_0);
}

// ---------------------------------------------------------------- Jenkins

pub open spec fn env_text(p: (Seq<char>, Seq<char>)) -> Seq<char> {
    "        "@ + p.0 + " = '"@ + p.1 + "'\n"@
}

pub open spec fn step_text(s: Seq<char>) -> Seq<char> {
    "                "@ + s + "\n"@
}

pub open spec fn stage_doc(st: (Seq<char>, Seq<Seq<char>>)) -> Seq<char> {
    "        stage('"@ + st.0 + "') {\n"@ + "            steps {\n"@ + concat_all(
        st.1.map_values(|s: Seq<char>| step_text(s)),
    ) + "            }\n"@ + "        }\n"@
}

/// The Groovy text of a declarative pipeline.
pub open spec fn jenkins_doc(c: JenkinsConfigView) -> Seq<char> {
    let env = if c.environment.len() == 0 {
        Seq::empty()
    } else {
        "    environment {\n"@ + concat_all(c.environment.map_values(|p: (Seq<char>, Seq<char>)| env_text(p)))
            + "    }\n\n"@
    };
    "pipeline {\n"@ + "    agent {\n"@ + "        label '"@ + c.agent + "'\n"@ + "    }\n\n"@ + env
        + "    stages {\n"@ + concat_all(c.stages.map_values(|st: (Seq<char>, Seq<Seq<char>>)| stage_doc(st)))
        + "    }\n"@ + "}\n"@
}

/// A pipeline's text is that of its view.
pub proof fn lemma_jenkins_doc(c: JenkinsConfig)
    ensures
        jenkins_text(c) == jenkins_doc(c@),
{
    assert(c.environment@.map_values(|p: (String, String)| env_line(p)) =~= c@.environment.map_values(
        |p: (Seq<char>, Seq<char>)| env_text(p),
    ));
    assert forall|k: int| 0 <= k < c.stages@.len() implies stage_text(#[trigger] c.stages@[k])
        == stage_doc(c@.stages[k]) by {
        let st = c.stages@[k];
        assert(st.steps@.map_values(|s: String| step_line(s)) =~= strs_v(st.steps@).map_values(
            |s: Seq<char>| step_text(s),
        ));
    }
    assert(c.stages@.map_values(|st: JenkinsStage| stage_text(st)) =~= c@.stages.map_values(
        |st: (Seq<char>, Seq<Seq<char>>)| stage_doc(st),
    ));
}

} // verus!
