//! The pipeline models of the supported CI platforms and their YAML documents.
use crate::yaml::{
    entry_if, entry_views, list_node, mapping_node, node_views, opt_str, opt_str_list,
    opt_str_map, push_entry, push_opt_str, push_opt_str_list, push_opt_str_map, str_list,
    str_list_node, str_node, YamlNode, YamlTree,
};
use vstd::prelude::*;

verus! {

// ---------------------------------------------------------------- GitHub

/// A step of a GitHub Actions job.
pub struct GitHubStep {
    pub name: Option<String>,
    pub uses: Option<String>,
    pub run: Option<String>,
    pub with: Option<Vec<(String, String)>>,
    pub env: Option<Vec<(String, String)>>,
}

/// A GitHub Actions job.
pub struct GitHubJob {
    pub runs_on: String,
    pub steps: Vec<GitHubStep>,
    pub needs: Option<Vec<String>>,
    pub timeout_minutes: Option<u64>,
    pub continue_on_error: Option<bool>,
}

/// The filters of a workflow trigger.
pub struct GitHubTriggerConfig {
    pub branches: Option<Vec<String>>,
    pub tags: Option<Vec<String>>,
}

/// The events that start a workflow.
pub enum GitHubTriggers {
    /// A list of event names.
    Events(Vec<String>),
    /// Event names with their filters.
    Detailed(Vec<(String, GitHubTriggerConfig)>),
}

/// A GitHub Actions (or Gitea Actions) workflow.
pub struct GitHubWorkflow {
    pub name: String,
    pub on: GitHubTriggers,
    pub env: Option<Vec<(String, String)>>,
    /// The jobs by id, in the order they are written.
    pub jobs: Vec<(String, GitHubJob)>,
}

pub open spec fn step_tree(s: GitHubStep) -> YamlTree {
    YamlTree::Mapping(
        entry_if("name"@, opt_str(s.name)) + entry_if("uses"@, opt_str(s.uses)) + entry_if(
            "run"@,
            opt_str(s.run),
        ) + entry_if("with"@, opt_str_map(s.with)) + entry_if("env"@, opt_str_map(s.env)),
    )
}

pub open spec fn job_tree(j: GitHubJob) -> YamlTree {
    YamlTree::Mapping(
        seq![
            ("runs-on"@, YamlTree::Str(j.runs_on@)),
            ("steps"@, YamlTree::List(j.steps@.map_values(|s: GitHubStep| step_tree(s)))),
        ] + entry_if("needs"@, opt_str_list(j.needs)) + entry_if(
            "timeout-minutes"@,
            match j.timeout_minutes {
                Some(t) => Some(YamlTree::Int(t as nat)),
                None => None,
            },
        ) + entry_if(
            "continue-on-error"@,
            match j.continue_on_error {
                Some(b) => Some(YamlTree::Bool(b)),
                None => None,
            },
        ),
    )
}

pub open spec fn trigger_config_tree(c: GitHubTriggerConfig) -> YamlTree {
    YamlTree::Mapping(
        entry_if("branches"@, opt_str_list(c.branches)) + entry_if("tags"@, opt_str_list(c.tags)),
    )
}

pub open spec fn triggers_tree(t: GitHubTriggers) -> YamlTree {
    match t {
        GitHubTriggers::Events(v) => str_list(v@),
        GitHubTriggers::Detailed(v) => YamlTree::Mapping(
            v@.map_values(|p: (String, GitHubTriggerConfig)| (p.0@, trigger_config_tree(p.1))),
        ),
    }
}

/// The YAML document of a workflow.
pub open spec fn workflow_tree(w: GitHubWorkflow) -> YamlTree {
    YamlTree::Mapping(
        seq![("name"@, YamlTree::Str(w.name@)), ("on"@, triggers_tree(w.on))] + entry_if(
            "env"@,
            opt_str_map(w.env),
        ) + seq![
            (
                "jobs"@,
                YamlTree::Mapping(
                    w.jobs@.map_values(|p: (String, GitHubJob)| (p.0@, job_tree(p.1))),
                ),
            ),
        ],
    )
}

pub fn step_node(s: &GitHubStep) -> (n: YamlNode)
    ensures
        n@ == step_tree(*s),
{
    let mut m: Vec<(String, YamlNode)> = Vec::new();
    push_opt_str(&mut m, "name", &s.name);
    push_opt_str(&mut m, "uses", &s.uses);
    push_opt_str(&mut m, "run", &s.run);
    push_opt_str_map(&mut m, "with", &s.with);
    push_opt_str_map(&mut m, "env", &s.env);
    assert(entry_views(m@) =~= step_tree(*s)->Mapping_0);
    mapping_node(m)
}

pub fn job_node(j: &GitHubJob) -> (n: YamlNode)
    ensures
        n@ == job_tree(*j),
{
    let mut m: Vec<(String, YamlNode)> = Vec::new();
    push_entry(&mut m, "runs-on", YamlNode::Str(j.runs_on.clone()));
    let mut steps: Vec<YamlNode> = Vec::new();
    let mut i: usize = 0;
    while i < j.steps.len()
        invariant
            0 <= i <= j.steps@.len(),
            node_views(steps@) =~= j.steps@.take(i as int).map_values(
                |s: GitHubStep| step_tree(s),
            ),
        decreases j.steps@.len() - i,
    {
        let ghost before = steps@;
        steps.push(step_node(&j.steps[i]));
        assert(node_views(steps@) =~= node_views(before).push(step_tree(j.steps@[i as int])));
        assert(j.steps@.take(i + 1).map_values(|s: GitHubStep| step_tree(s)) =~= j.steps@.take(
            i as int,
        ).map_values(|s: GitHubStep| step_tree(s)).push(step_tree(j.steps@[i as int])));
        i = i + 1;
    }
    assert(j.steps@.take(j.steps@.len() as int) =~= j.steps@);
    push_entry(&mut m, "steps", list_node(steps));
    push_opt_str_list(&mut m, "needs", &j.needs);
    let ghost before_timeout = entry_views(m@);
    match j.timeout_minutes {
        Some(t) => {
            push_entry(&mut m, "timeout-minutes", YamlNode::Int(t));
        },
        None => {},
    }
    match j.continue_on_error {
        Some(b) => {
            push_entry(&mut m, "continue-on-error", YamlNode::Bool(b));
        },
        None => {},
    }
    assert(entry_views(m@) =~= job_tree(*j)->Mapping_0);
    mapping_node(m)
}

pub fn trigger_config_node(c: &GitHubTriggerConfig) -> (n: YamlNode)
    ensures
        n@ == trigger_config_tree(*c),
{
    let mut m: Vec<(String, YamlNode)> = Vec::new();
    push_opt_str_list(&mut m, "branches", &c.branches);
    push_opt_str_list(&mut m, "tags", &c.tags);
    assert(entry_views(m@) =~= trigger_config_tree(*c)->Mapping_0);
    mapping_node(m)
}

pub fn triggers_node(t: &GitHubTriggers) -> (n: YamlNode)
    ensures
        n@ == triggers_tree(*t),
{
    match t {
        GitHubTriggers::Events(v) => str_list_node(v),
        GitHubTriggers::Detailed(v) => {
            let mut m: Vec<(String, YamlNode)> = Vec::new();
            let mut i: usize = 0;
            while i < v.len()
                invariant
                    0 <= i <= v@.len(),
                    entry_views(m@) =~= v@.take(i as int).map_values(
                        |p: (String, GitHubTriggerConfig)| (p.0@, trigger_config_tree(p.1)),
                    ),
                decreases v@.len() - i,
            {
                let ghost before = entry_views(m@);
                push_entry(&mut m, v[i].0.as_str(), trigger_config_node(&v[i].1));
                assert(v@.take(i + 1).map_values(
                    |p: (String, GitHubTriggerConfig)| (p.0@, trigger_config_tree(p.1)),
                ) =~= v@.take(i as int).map_values(
                    |p: (String, GitHubTriggerConfig)| (p.0@, trigger_config_tree(p.1)),
                ).push((v@[i as int].0@, trigger_config_tree(v@[i as int].1))));
                i = i + 1;
            }
            assert(v@.take(v@.len() as int) =~= v@);
            mapping_node(m)
        },
    }
}

/// The YAML document of a workflow.
pub fn workflow_node(w: &GitHubWorkflow) -> (n: YamlNode)
    ensures
        n@ == workflow_tree(*w),
{
    let mut m: Vec<(String, YamlNode)> = Vec::new();
    push_entry(&mut m, "name", YamlNode::Str(w.name.clone()));
    push_entry(&mut m, "on", triggers_node(&w.on));
    push_opt_str_map(&mut m, "env", &w.env);
    let mut jobs: Vec<(String, YamlNode)> = Vec::new();
    let mut i: usize = 0;
    while i < w.jobs.len()
        invariant
            0 <= i <= w.jobs@.len(),
            entry_views(jobs@) =~= w.jobs@.take(i as int).map_values(
                |p: (String, GitHubJob)| (p.0@, job_tree(p.1)),
            ),
        decreases w.jobs@.len() - i,
    {
        push_entry(&mut jobs, w.jobs[i].0.as_str(), job_node(&w.jobs[i].1));
        assert(w.jobs@.take(i + 1).map_values(|p: (String, GitHubJob)| (p.0@, job_tree(p.1)))
            =~= w.jobs@.take(i as int).map_values(
            |p: (String, GitHubJob)| (p.0@, job_tree(p.1)),
        ).push((w.jobs@[i as int].0@, job_tree(w.jobs@[i as int].1))));
        i = i + 1;
    }
    assert(w.jobs@.take(w.jobs@.len() as int) =~= w.jobs@);
    push_entry(&mut m, "jobs", mapping_node(jobs));
    assert(entry_views(m@) =~= workflow_tree(*w)->Mapping_0);
    mapping_node(m)
}

// ---------------------------------------------------------------- GitLab

/// A GitLab cache declaration.
pub struct GitLabCache {
    pub key: String,
    pub paths: Vec<String>,
}

/// Files a GitLab job keeps.
pub struct GitLabArtifacts {
    pub paths: Vec<String>,
    pub name: Option<String>,
}

/// The refs a GitLab job runs for.
pub struct GitLabOnly {
    pub refs: Option<Vec<String>>,
}

/// A GitLab CI job.
pub struct GitLabJob {
    pub stage: String,
    pub image: Option<String>,
    pub script: Vec<String>,
    pub before_script: Option<Vec<String>>,
    pub after_script: Option<Vec<String>>,
    pub needs: Option<Vec<String>>,
    pub cache: Option<GitLabCache>,
    pub artifacts: Option<GitLabArtifacts>,
    pub only: Option<GitLabOnly>,
    pub timeout: Option<String>,
}

/// A `.gitlab-ci.yml` configuration.
pub struct GitLabCI {
    pub stages: Option<Vec<String>>,
    pub variables: Option<Vec<(String, String)>>,
    pub cache: Option<GitLabCache>,
    /// The jobs by name, in the order they are written.
    pub jobs: Vec<(String, GitLabJob)>,
}

pub open spec fn cache_tree(c: GitLabCache) -> YamlTree {
    YamlTree::Mapping(seq![("key"@, YamlTree::Str(c.key@)), ("paths"@, str_list(c.paths@))])
}

pub open spec fn opt_cache_tree(c: Option<GitLabCache>) -> Option<YamlTree> {
    match c {
        Some(c) => Some(cache_tree(c)),
        None => None,
    }
}

pub open spec fn gitlab_job_tree(j: GitLabJob) -> YamlTree {
    YamlTree::Mapping(
        seq![("stage"@, YamlTree::Str(j.stage@))] + entry_if("image"@, opt_str(j.image)) + seq![
            ("script"@, str_list(j.script@)),
        ] + entry_if("before_script"@, opt_str_list(j.before_script)) + entry_if(
            "after_script"@,
            opt_str_list(j.after_script),
        ) + entry_if("needs"@, opt_str_list(j.needs)) + entry_if("cache"@, opt_cache_tree(j.cache))
            + entry_if(
            "artifacts"@,
            match j.artifacts {
                Some(a) => Some(
                    YamlTree::Mapping(
                        seq![("paths"@, str_list(a.paths@))] + entry_if("name"@, opt_str(a.name)),
                    ),
                ),
                None => None,
            },
        ) + entry_if(
            "only"@,
            match j.only {
                Some(o) => Some(YamlTree::Mapping(entry_if("refs"@, opt_str_list(o.refs)))),
                None => None,
            },
        ) + entry_if("timeout"@, opt_str(j.timeout)),
    )
}

/// The YAML document of a GitLab configuration; jobs are top-level keys.
pub open spec fn gitlab_tree(c: GitLabCI) -> YamlTree {
    YamlTree::Mapping(
        entry_if("stages"@, opt_str_list(c.stages)) + entry_if(
            "variables"@,
            opt_str_map(c.variables),
        ) + entry_if("cache"@, opt_cache_tree(c.cache)) + c.jobs@.map_values(
            |p: (String, GitLabJob)| (p.0@, gitlab_job_tree(p.1)),
        ),
    )
}

pub fn cache_node(c: &GitLabCache) -> (n: YamlNode)
    ensures
        n@ == cache_tree(*c),
{
    let mut m: Vec<(String, YamlNode)> = Vec::new();
    push_entry(&mut m, "key", YamlNode::Str(c.key.clone()));
    push_entry(&mut m, "paths", str_list_node(&c.paths));
    assert(entry_views(m@) =~= cache_tree(*c)->Mapping_0);
    mapping_node(m)
}

fn push_opt_cache(m: &mut Vec<(String, YamlNode)>, key: &str, c: &Option<GitLabCache>)
    ensures
        entry_views(final(m)@) == entry_views(old(m)@) + entry_if(key@, opt_cache_tree(*c)),
{
    match c {
        Some(c) => {
            push_entry(m, key, cache_node(c));
        },
        None => {},
    }
    assert(entry_views(m@) =~= entry_views(old(m)@) + entry_if(key@, opt_cache_tree(*c)));
}

pub fn gitlab_job_node(j: &GitLabJob) -> (n: YamlNode)
    ensures
        n@ == gitlab_job_tree(*j),
{
    let mut m: Vec<(String, YamlNode)> = Vec::new();
    push_entry(&mut m, "stage", YamlNode::Str(j.stage.clone()));
    push_opt_str(&mut m, "image", &j.image);
    push_entry(&mut m, "script", str_list_node(&j.script));
    push_opt_str_list(&mut m, "before_script", &j.before_script);
    push_opt_str_list(&mut m, "after_script", &j.after_script);
    push_opt_str_list(&mut m, "needs", &j.needs);
    push_opt_cache(&mut m, "cache", &j.cache);
    match &j.artifacts {
        Some(a) => {
            let mut am: Vec<(String, YamlNode)> = Vec::new();
            push_entry(&mut am, "paths", str_list_node(&a.paths));
            push_opt_str(&mut am, "name", &a.name);
            assert(entry_views(am@) =~= seq![("paths"@, str_list(a.paths@))] + entry_if(
                "name"@,
                opt_str(a.name),
            ));
            push_entry(&mut m, "artifacts", mapping_node(am));
        },
        None => {},
    }
    match &j.only {
        Some(o) => {
            let mut om: Vec<(String, YamlNode)> = Vec::new();
            push_opt_str_list(&mut om, "refs", &o.refs);
            assert(entry_views(om@) =~= entry_if("refs"@, opt_str_list(o.refs)));
            push_entry(&mut m, "only", mapping_node(om));
        },
        None => {},
    }
    push_opt_str(&mut m, "timeout", &j.timeout);
    assert(entry_views(m@) =~= gitlab_job_tree(*j)->Mapping_0);
    mapping_node(m)
}

/// The YAML document of a GitLab configuration.
pub fn gitlab_node(c: &GitLabCI) -> (n: YamlNode)
    ensures
        n@ == gitlab_tree(*c),
{
    let mut m: Vec<(String, YamlNode)> = Vec::new();
    push_opt_str_list(&mut m, "stages", &c.stages);
    push_opt_str_map(&mut m, "variables", &c.variables);
    push_opt_cache(&mut m, "cache", &c.cache);
    let ghost head = entry_views(m@);
    let mut i: usize = 0;
    while i < c.jobs.len()
        invariant
            0 <= i <= c.jobs@.len(),
            entry_views(m@) =~= head + c.jobs@.take(i as int).map_values(
                |p: (String, GitLabJob)| (p.0@, gitlab_job_tree(p.1)),
            ),
        decreases c.jobs@.len() - i,
    {
        push_entry(&mut m, c.jobs[i].0.as_str(), gitlab_job_node(&c.jobs[i].1));
        assert(c.jobs@.take(i + 1).map_values(
            |p: (String, GitLabJob)| (p.0@, gitlab_job_tree(p.1)),
        ) =~= c.jobs@.take(i as int).map_values(
            |p: (String, GitLabJob)| (p.0@, gitlab_job_tree(p.1)),
        ).push((c.jobs@[i as int].0@, gitlab_job_tree(c.jobs@[i as int].1))));
        i = i + 1;
    }
    assert(c.jobs@.take(c.jobs@.len() as int) =~= c.jobs@);
    assert(entry_views(m@) =~= gitlab_tree(*c)->Mapping_0);
    mapping_node(m)
}

// ---------------------------------------------------------------- CircleCI

/// How a CircleCI step runs a command.
pub enum CircleCIRun {
    Simple(String),
    Detailed { name: String, command: String },
}

/// Cache keys to restore.
pub struct CircleCICache {
    pub keys: Vec<String>,
}

/// A cache to save.
pub struct CircleCICacheSave {
    pub key: String,
    pub paths: Vec<String>,
}

/// A CircleCI step.
pub enum CircleCIStep {
    /// A built-in step such as `checkout`.
    Simple(String),
    Command { run: CircleCIRun },
    Cache { restore_cache: CircleCICache },
    SaveCache { save_cache: CircleCICacheSave },
}

/// A Docker executor image.
pub struct CircleCIDocker {
    pub image: String,
}

/// A CircleCI job.
pub struct CircleCIJob {
    pub docker: Vec<CircleCIDocker>,
    pub steps: Vec<CircleCIStep>,
    pub environment: Option<Vec<(String, String)>>,
}

/// A job reference in a workflow.
pub enum CircleCIWorkflowJob {
    Simple(String),
}

/// A CircleCI workflow.
pub struct CircleCIWorkflow {
    pub jobs: Vec<CircleCIWorkflowJob>,
}

/// A `.circleci/config.yml` configuration.
pub struct CircleCIConfig {
    pub version: String,
    pub orbs: Option<Vec<(String, String)>>,
    pub jobs: Vec<(String, CircleCIJob)>,
    pub workflows: Vec<(String, CircleCIWorkflow)>,
}

pub open spec fn run_tree(r: CircleCIRun) -> YamlTree {
    match r {
        CircleCIRun::Simple(s) => YamlTree::Str(s@),
        CircleCIRun::Detailed { name, command } => YamlTree::Mapping(
            seq![("name"@, YamlTree::Str(name@)), ("command"@, YamlTree::Str(command@))],
        ),
    }
}

pub open spec fn circle_step_tree(s: CircleCIStep) -> YamlTree {
    match s {
        CircleCIStep::Simple(x) => YamlTree::Str(x@),
        CircleCIStep::Command { run } => YamlTree::Mapping(seq![("run"@, run_tree(run))]),
        CircleCIStep::Cache { restore_cache } => YamlTree::Mapping(
            seq![
                (
                    "restore_cache"@,
                    YamlTree::Mapping(seq![("keys"@, str_list(restore_cache.keys@))]),
                ),
            ],
        ),
        CircleCIStep::SaveCache { save_cache } => YamlTree::Mapping(
            seq![
                (
                    "save_cache"@,
                    YamlTree::Mapping(
                        seq![
                            ("key"@, YamlTree::Str(save_cache.key@)),
                            ("paths"@, str_list(save_cache.paths@)),
                        ],
                    ),
                ),
            ],
        ),
    }
}

pub open spec fn circle_job_tree(j: CircleCIJob) -> YamlTree {
    YamlTree::Mapping(
        seq![
            (
                "docker"@,
                YamlTree::List(
                    j.docker@.map_values(
                        |d: CircleCIDocker|
                            YamlTree::Mapping(seq![("image"@, YamlTree::Str(d.image@))]),
                    ),
                ),
            ),
            ("steps"@, YamlTree::List(j.steps@.map_values(|s: CircleCIStep| circle_step_tree(s)))),
        ] + entry_if("environment"@, opt_str_map(j.environment)),
    )
}

pub open spec fn workflow_job_name(j: CircleCIWorkflowJob) -> Seq<char> {
    match j {
        CircleCIWorkflowJob::Simple(s) => s@,
    }
}

pub open spec fn circle_workflow_tree(w: CircleCIWorkflow) -> YamlTree {
    YamlTree::Mapping(
        seq![
            (
                "jobs"@,
                YamlTree::List(
                    w.jobs@.map_values(
                        |j: CircleCIWorkflowJob| YamlTree::Str(workflow_job_name(j)),
                    ),
                ),
            ),
        ],
    )
}

/// The YAML document of a CircleCI configuration.
pub open spec fn circleci_tree(c: CircleCIConfig) -> YamlTree {
    YamlTree::Mapping(
        seq![("version"@, YamlTree::Str(c.version@))] + entry_if("orbs"@, opt_str_map(c.orbs))
            + seq![
            (
                "jobs"@,
                YamlTree::Mapping(
                    c.jobs@.map_values(|p: (String, CircleCIJob)| (p.0@, circle_job_tree(p.1))),
                ),
            ),
            (
                "workflows"@,
                YamlTree::Mapping(
                    c.workflows@.map_values(
                        |p: (String, CircleCIWorkflow)| (p.0@, circle_workflow_tree(p.1)),
                    ),
                ),
            ),
        ],
    )
}

fn run_node(r: &CircleCIRun) -> (n: YamlNode)
    ensures
        n@ == run_tree(*r),
{
    match r {
        CircleCIRun::Simple(s) => YamlNode::Str(s.clone()),
        CircleCIRun::Detailed { name, command } => {
            let mut m: Vec<(String, YamlNode)> = Vec::new();
            push_entry(&mut m, "name", YamlNode::Str(name.clone()));
            push_entry(&mut m, "command", YamlNode::Str(command.clone()));
            assert(entry_views(m@) =~= run_tree(*r)->Mapping_0);
            mapping_node(m)
        },
    }
}

fn single_entry(key: &str, value: YamlNode) -> (n: YamlNode)
    ensures
        n@ == YamlTree::Mapping(seq![(key@, value@)]),
{
    let mut m: Vec<(String, YamlNode)> = Vec::new();
    push_entry(&mut m, key, value);
    assert(entry_views(m@) =~= seq![(key@, value@)]);
    mapping_node(m)
}

fn circle_step_node(s: &CircleCIStep) -> (n: YamlNode)
    ensures
        n@ == circle_step_tree(*s),
{
    match s {
        CircleCIStep::Simple(x) => YamlNode::Str(x.clone()),
        CircleCIStep::Command { run } => single_entry("run", run_node(run)),
        CircleCIStep::Cache { restore_cache } => single_entry(
            "restore_cache",
            single_entry("keys", str_list_node(&restore_cache.keys)),
        ),
        CircleCIStep::SaveCache { save_cache } => {
            let mut m: Vec<(String, YamlNode)> = Vec::new();
            push_entry(&mut m, "key", YamlNode::Str(save_cache.key.clone()));
            push_entry(&mut m, "paths", str_list_node(&save_cache.paths));
            assert(entry_views(m@) =~= seq![
                ("key"@, YamlTree::Str(save_cache.key@)),
                ("paths"@, str_list(save_cache.paths@)),
            ]);
            let inner = mapping_node(m);
            single_entry("save_cache", inner)
        },
    }
}

fn circle_job_node(j: &CircleCIJob) -> (n: YamlNode)
    ensures
        n@ == circle_job_tree(*j),
{
    let mut docker: Vec<YamlNode> = Vec::new();
    let mut i: usize = 0;
    while i < j.docker.len()
        invariant
            0 <= i <= j.docker@.len(),
            node_views(docker@) =~= j.docker@.take(i as int).map_values(
                |d: CircleCIDocker| YamlTree::Mapping(seq![("image"@, YamlTree::Str(d.image@))]),
            ),
        decreases j.docker@.len() - i,
    {
        let ghost before = docker@;
        docker.push(single_entry("image", YamlNode::Str(j.docker[i].image.clone())));
        assert(node_views(docker@) =~= node_views(before).push(
            YamlTree::Mapping(seq![("image"@, YamlTree::Str(j.docker@[i as int].image@))]),
        ));
        assert(j.docker@.take(i + 1).map_values(
            |d: CircleCIDocker| YamlTree::Mapping(seq![("image"@, YamlTree::Str(d.image@))]),
        ) =~= j.docker@.take(i as int).map_values(
            |d: CircleCIDocker| YamlTree::Mapping(seq![("image"@, YamlTree::Str(d.image@))]),
        ).push(YamlTree::Mapping(seq![("image"@, YamlTree::Str(j.docker@[i as int].image@))])));
        i = i + 1;
    }
    assert(j.docker@.take(j.docker@.len() as int) =~= j.docker@);
    let mut steps: Vec<YamlNode> = Vec::new();
    let mut k: usize = 0;
    while k < j.steps.len()
        invariant
            0 <= k <= j.steps@.len(),
            node_views(steps@) =~= j.steps@.take(k as int).map_values(
                |s: CircleCIStep| circle_step_tree(s),
            ),
        decreases j.steps@.len() - k,
    {
        let ghost before = steps@;
        steps.push(circle_step_node(&j.steps[k]));
        assert(node_views(steps@) =~= node_views(before).push(
            circle_step_tree(j.steps@[k as int]),
        ));
        assert(j.steps@.take(k + 1).map_values(|s: CircleCIStep| circle_step_tree(s))
            =~= j.steps@.take(k as int).map_values(|s: CircleCIStep| circle_step_tree(s)).push(
            circle_step_tree(j.steps@[k as int]),
        ));
        k = k + 1;
    }
    assert(j.steps@.take(j.steps@.len() as int) =~= j.steps@);
    let mut m: Vec<(String, YamlNode)> = Vec::new();
    push_entry(&mut m, "docker", list_node(docker));
    push_entry(&mut m, "steps", list_node(steps));
    push_opt_str_map(&mut m, "environment", &j.environment);
    assert(entry_views(m@) =~= circle_job_tree(*j)->Mapping_0);
    mapping_node(m)
}

fn circle_workflow_node(w: &CircleCIWorkflow) -> (n: YamlNode)
    ensures
        n@ == circle_workflow_tree(*w),
{
    let mut jobs: Vec<YamlNode> = Vec::new();
    let mut i: usize = 0;
    while i < w.jobs.len()
        invariant
            0 <= i <= w.jobs@.len(),
            node_views(jobs@) =~= w.jobs@.take(i as int).map_values(
                |j: CircleCIWorkflowJob| YamlTree::Str(workflow_job_name(j)),
            ),
        decreases w.jobs@.len() - i,
    {
        let ghost before = jobs@;
        let name = match &w.jobs[i] {
            CircleCIWorkflowJob::Simple(s) => s.clone(),
        };
        jobs.push(YamlNode::Str(name));
        assert(node_views(jobs@) =~= node_views(before).push(
            YamlTree::Str(workflow_job_name(w.jobs@[i as int])),
        ));
        assert(w.jobs@.take(i + 1).map_values(
            |j: CircleCIWorkflowJob| YamlTree::Str(workflow_job_name(j)),
        ) =~= w.jobs@.take(i as int).map_values(
            |j: CircleCIWorkflowJob| YamlTree::Str(workflow_job_name(j)),
        ).push(YamlTree::Str(workflow_job_name(w.jobs@[i as int]))));
        i = i + 1;
    }
    assert(w.jobs@.take(w.jobs@.len() as int) =~= w.jobs@);
    single_entry("jobs", list_node(jobs))
}

/// The YAML document of a CircleCI configuration.
pub fn circleci_node(c: &CircleCIConfig) -> (n: YamlNode)
    ensures
        n@ == circleci_tree(*c),
{
    let mut jobs: Vec<(String, YamlNode)> = Vec::new();
    let mut i: usize = 0;
    while i < c.jobs.len()
        invariant
            0 <= i <= c.jobs@.len(),
            entry_views(jobs@) =~= c.jobs@.take(i as int).map_values(
                |p: (String, CircleCIJob)| (p.0@, circle_job_tree(p.1)),
            ),
        decreases c.jobs@.len() - i,
    {
        push_entry(&mut jobs, c.jobs[i].0.as_str(), circle_job_node(&c.jobs[i].1));
        assert(c.jobs@.take(i + 1).map_values(
            |p: (String, CircleCIJob)| (p.0@, circle_job_tree(p.1)),
        ) =~= c.jobs@.take(i as int).map_values(
            |p: (String, CircleCIJob)| (p.0@, circle_job_tree(p.1)),
        ).push((c.jobs@[i as int].0@, circle_job_tree(c.jobs@[i as int].1))));
        i = i + 1;
    }
    assert(c.jobs@.take(c.jobs@.len() as int) =~= c.jobs@);
    let mut workflows: Vec<(String, YamlNode)> = Vec::new();
    let mut k: usize = 0;
    while k < c.workflows.len()
        invariant
            0 <= k <= c.workflows@.len(),
            entry_views(workflows@) =~= c.workflows@.take(k as int).map_values(
                |p: (String, CircleCIWorkflow)| (p.0@, circle_workflow_tree(p.1)),
            ),
        decreases c.workflows@.len() - k,
    {
        push_entry(
            &mut workflows,
            c.workflows[k].0.as_str(),
            circle_workflow_node(&c.workflows[k].1),
        );
        assert(c.workflows@.take(k + 1).map_values(
            |p: (String, CircleCIWorkflow)| (p.0@, circle_workflow_tree(p.1)),
        ) =~= c.workflows@.take(k as int).map_values(
            |p: (String, CircleCIWorkflow)| (p.0@, circle_workflow_tree(p.1)),
        ).push((c.workflows@[k as int].0@, circle_workflow_tree(c.workflows@[k as int].1))));
        k = k + 1;
    }
    assert(c.workflows@.take(c.workflows@.len() as int) =~= c.workflows@);
    let mut m: Vec<(String, YamlNode)> = Vec::new();
    push_entry(&mut m, "version", YamlNode::Str(c.version.clone()));
    push_opt_str_map(&mut m, "orbs", &c.orbs);
    push_entry(&mut m, "jobs", mapping_node(jobs));
    push_entry(&mut m, "workflows", mapping_node(workflows));
    assert(entry_views(m@) =~= circleci_tree(*c)->Mapping_0);
    mapping_node(m)
}

// ---------------------------------------------------------------- Jenkins

/// A stage of a Jenkins pipeline.
pub struct JenkinsStage {
    pub name: String,
    pub steps: Vec<String>,
}

/// A declarative Jenkins pipeline.
pub struct JenkinsConfig {
    pub agent: String,
    pub environment: Vec<(String, String)>,
    pub stages: Vec<JenkinsStage>,
}

/// Concatenation of a list of texts, first to last.
pub open spec fn concat_all(parts: Seq<Seq<char>>) -> Seq<char>
    decreases parts.len(),
{
    if parts.len() == 0 {
        Seq::empty()
    } else {
        concat_all(parts.drop_last()) + parts.last()
    }
}

pub open spec fn env_line(p: (String, String)) -> Seq<char> {
    "        "@ + p.0@ + " = '"@ + p.1@ + "'\n"@
}

pub open spec fn step_line(s: String) -> Seq<char> {
    "                "@ + s@ + "\n"@
}

pub open spec fn stage_text(st: JenkinsStage) -> Seq<char> {
    "        stage('"@ + st.name@ + "') {\n"@ + "            steps {\n"@ + concat_all(
        st.steps@.map_values(|s: String| step_line(s)),
    ) + "            }\n"@ + "        }\n"@
}

/// The Groovy text of a declarative pipeline.
pub open spec fn jenkins_text(c: JenkinsConfig) -> Seq<char> {
    let env = if c.environment@.len() == 0 {
        Seq::empty()
    } else {
        "    environment {\n"@ + concat_all(c.environment@.map_values(|p: (String, String)| env_line(p)))
            + "    }\n\n"@
    };
    "pipeline {\n"@ + "    agent {\n"@ + "        label '"@ + c.agent@ + "'\n"@ + "    }\n\n"@ + env
        + "    stages {\n"@ + concat_all(c.stages@.map_values(|st: JenkinsStage| stage_text(st)))
        + "    }\n"@ + "}\n"@
}

proof fn lemma_concat_push<A>(v: Seq<A>, i: int, f: spec_fn(A) -> Seq<char>)
    requires
        0 <= i < v.len(),
    ensures
        concat_all(v.take(i + 1).map_values(f)) == concat_all(v.take(i).map_values(f)) + f(v[i]),
{
    let a = v.take(i + 1).map_values(f);
    assert(a.drop_last() =~= v.take(i).map_values(f));
}

/// Convert a JenkinsConfig to Groovy pipeline string.
///
/// Jenkins uses a Groovy-based DSL for its declarative pipelines, so the text is
/// formatted directly instead of serialized as YAML.
pub fn jenkins_to_string(config: &JenkinsConfig) -> (r: String)
    ensures
        r@ == jenkins_text(*config),
{
    let mut result = String::new();
    result.append("pipeline {\n");
    result.append("    agent {\n");
    result.append("        label '");
    result.append(config.agent.as_str());
    result.append("'\n");
    result.append("    }\n\n");
    let ghost head = result@;
    if config.environment.len() != 0 {
        result.append("    environment {\n");
        let ghost env_head = result@;
        let mut i: usize = 0;
        while i < config.environment.len()
            invariant
                0 <= i <= config.environment@.len(),
                result@ == env_head + concat_all(
                    config.environment@.take(i as int).map_values(|p: (String, String)| env_line(p)),
                ),
            decreases config.environment@.len() - i,
        {
            proof {
                lemma_concat_push(config.environment@, i as int, |p: (String, String)| env_line(p));
            }
            result.append("        ");
            result.append(config.environment[i].0.as_str());
            result.append(" = '");
            result.append(config.environment[i].1.as_str());
            result.append("'\n");
            i = i + 1;
        }
        assert(config.environment@.take(config.environment@.len() as int) =~= config.environment@);
        result.append("    }\n\n");
    }
    assert(result@ =~= head + if config.environment@.len() == 0 {
        Seq::empty()
    } else {
        "    environment {\n"@ + concat_all(
            config.environment@.map_values(|p: (String, String)| env_line(p)),
        ) + "    }\n\n"@
    });
    result.append("    stages {\n");
    let ghost stages_head = result@;
    let mut k: usize = 0;
    while k < config.stages.len()
        invariant
            0 <= k <= config.stages@.len(),
            result@ == stages_head + concat_all(
                config.stages@.take(k as int).map_values(|st: JenkinsStage| stage_text(st)),
            ),
        decreases config.stages@.len() - k,
    {
        proof {
            lemma_concat_push(config.stages@, k as int, |st: JenkinsStage| stage_text(st));
        }
        let ghost before = result@;
        let stage = &config.stages[k];
        result.append("        stage('");
        result.append(stage.name.as_str());
        result.append("') {\n");
        result.append("            steps {\n");
        let ghost steps_head = result@;
        let mut s: usize = 0;
        while s < stage.steps.len()
            invariant
                0 <= s <= stage.steps@.len(),
                result@ == steps_head + concat_all(
                    stage.steps@.take(s as int).map_values(|x: String| step_line(x)),
                ),
            decreases stage.steps@.len() - s,
        {
            proof {
                lemma_concat_push(stage.steps@, s as int, |x: String| step_line(x));
            }
            result.append("                ");
            result.append(stage.steps[s].as_str());
            result.append("\n");
            s = s + 1;
        }
        assert(stage.steps@.take(stage.steps@.len() as int) =~= stage.steps@);
        result.append("            }\n");
        result.append("        }\n");
        assert(result@ =~= before + stage_text(*stage));
        k = k + 1;
    }
    assert(config.stages@.take(config.stages@.len() as int) =~= config.stages@);
    result.append("    }\n");
    result.append("}\n");
    assert(result@ =~= jenkins_text(*config));
    result
}

// ---------------------------------------------------------------- views

pub type Pairs = Seq<(Seq<char>, Seq<char>)>;

pub open spec fn pairs_v(v: Seq<(String, String)>) -> Pairs {
    v.map_values(|p: (String, String)| (p.0@, p.1@))
}

pub open spec fn opt_pairs_v(o: Option<Vec<(String, String)>>) -> Option<Pairs> {
    match o {
        Some(v) => Some(pairs_v(v@)),
        None => None,
    }
}

pub open spec fn strs_v(v: Seq<String>) -> Seq<Seq<char>> {
    v.map_values(|s: String| s@)
}

pub open spec fn opt_strs_v(o: Option<Vec<String>>) -> Option<Seq<Seq<char>>> {
    match o {
        Some(v) => Some(strs_v(v@)),
        None => None,
    }
}

pub open spec fn opt_v(o: Option<String>) -> Option<Seq<char>> {
    match o {
        Some(s) => Some(s@),
        None => None,
    }
}

pub struct GitHubStepView {
    pub name: Option<Seq<char>>,
    pub uses: Option<Seq<char>>,
    pub run: Option<Seq<char>>,
    pub with: Option<Pairs>,
    pub env: Option<Pairs>,
}

impl View for GitHubStep {
    type V = GitHubStepView;

    open spec fn view(&self) -> GitHubStepView {
        GitHubStepView {
            name: opt_v(self.name),
            uses: opt_v(self.uses),
            run: opt_v(self.run),
            with: opt_pairs_v(self.with),
            env: opt_pairs_v(self.env),
        }
    }
}

pub struct GitHubJobView {
    pub runs_on: Seq<char>,
    pub steps: Seq<GitHubStepView>,
    pub needs: Option<Seq<Seq<char>>>,
    pub timeout_minutes: Option<u64>,
    pub continue_on_error: Option<bool>,
}

impl View for GitHubJob {
    type V = GitHubJobView;

    open spec fn view(&self) -> GitHubJobView {
        GitHubJobView {
            runs_on: self.runs_on@,
            steps: self.steps@.map_values(|s: GitHubStep| s@),
            needs: opt_strs_v(self.needs),
            timeout_minutes: self.timeout_minutes,
            continue_on_error: self.continue_on_error,
        }
    }
}

pub struct GitHubTriggerConfigView {
    pub branches: Option<Seq<Seq<char>>>,
    pub tags: Option<Seq<Seq<char>>>,
}

impl View for GitHubTriggerConfig {
    type V = GitHubTriggerConfigView;

    open spec fn view(&self) -> GitHubTriggerConfigView {
        GitHubTriggerConfigView { branches: opt_strs_v(self.branches), tags: opt_strs_v(self.tags) }
    }
}

pub enum GitHubTriggersView {
    Events(Seq<Seq<char>>),
    Detailed(Seq<(Seq<char>, GitHubTriggerConfigView)>),
}

impl View for GitHubTriggers {
    type V = GitHubTriggersView;

    open spec fn view(&self) -> GitHubTriggersView {
        match self {
            GitHubTriggers::Events(v) => GitHubTriggersView::Events(strs_v(v@)),
            GitHubTriggers::Detailed(v) => GitHubTriggersView::Detailed(
                v@.map_values(|p: (String, GitHubTriggerConfig)| (p.0@, p.1@)),
            ),
        }
    }
}

pub struct GitHubWorkflowView {
    pub name: Seq<char>,
    pub on: GitHubTriggersView,
    pub env: Option<Pairs>,
    pub jobs: Seq<(Seq<char>, GitHubJobView)>,
}

impl View for GitHubWorkflow {
    type V = GitHubWorkflowView;

    open spec fn view(&self) -> GitHubWorkflowView {
        GitHubWorkflowView {
            name: self.name@,
            on: self.on@,
            env: opt_pairs_v(self.env),
            jobs: self.jobs@.map_values(|p: (String, GitHubJob)| (p.0@, p.1@)),
        }
    }
}

pub struct GitLabCacheView {
    pub key: Seq<char>,
    pub paths: Seq<Seq<char>>,
}

impl View for GitLabCache {
    type V = GitLabCacheView;

    open spec fn view(&self) -> GitLabCacheView {
        GitLabCacheView { key: self.key@, paths: strs_v(self.paths@) }
    }
}

pub struct GitLabArtifactsView {
    pub paths: Seq<Seq<char>>,
    pub name: Option<Seq<char>>,
}

impl View for GitLabArtifacts {
    type V = GitLabArtifactsView;

    open spec fn view(&self) -> GitLabArtifactsView {
        GitLabArtifactsView { paths: strs_v(self.paths@), name: opt_v(self.name) }
    }
}

pub struct GitLabJobView {
    pub stage: Seq<char>,
    pub image: Option<Seq<char>>,
    pub script: Seq<Seq<char>>,
    pub before_script: Option<Seq<Seq<char>>>,
    pub after_script: Option<Seq<Seq<char>>>,
    pub needs: Option<Seq<Seq<char>>>,
    pub cache: Option<GitLabCacheView>,
    pub artifacts: Option<GitLabArtifactsView>,
    /// The `only.refs` of the job, when it has an `only` section.
    pub only: Option<Option<Seq<Seq<char>>>>,
    pub timeout: Option<Seq<char>>,
}

impl View for GitLabJob {
    type V = GitLabJobView;

    open spec fn view(&self) -> GitLabJobView {
        GitLabJobView {
            stage: self.stage@,
            image: opt_v(self.image),
            script: strs_v(self.script@),
            before_script: opt_strs_v(self.before_script),
            after_script: opt_strs_v(self.after_script),
            needs: opt_strs_v(self.needs),
            cache: match self.cache {
                Some(c) => Some(c@),
                None => None,
            },
            artifacts: match self.artifacts {
                Some(a) => Some(a@),
                None => None,
            },
            only: match self.only {
                Some(o) => Some(opt_strs_v(o.refs)),
                None => None,
            },
            timeout: opt_v(self.timeout),
        }
    }
}

pub struct GitLabCIView {
    pub stages: Option<Seq<Seq<char>>>,
    pub variables: Option<Pairs>,
    pub cache: Option<GitLabCacheView>,
    pub jobs: Seq<(Seq<char>, GitLabJobView)>,
}

impl View for GitLabCI {
    type V = GitLabCIView;

    open spec fn view(&self) -> GitLabCIView {
        GitLabCIView {
            stages: opt_strs_v(self.stages),
            variables: opt_pairs_v(self.variables),
            cache: match self.cache {
                Some(c) => Some(c@),
                None => None,
            },
            jobs: self.jobs@.map_values(|p: (String, GitLabJob)| (p.0@, p.1@)),
        }
    }
}

pub enum CircleCIRunView {
    Simple(Seq<char>),
    Detailed { name: Seq<char>, command: Seq<char> },
}

impl View for CircleCIRun {
    type V = CircleCIRunView;

    open spec fn view(&self) -> CircleCIRunView {
        match self {
            CircleCIRun::Simple(s) => CircleCIRunView::Simple(s@),
            CircleCIRun::Detailed { name, command } => CircleCIRunView::Detailed {
                name: name@,
                command: command@,
            },
        }
    }
}

pub enum CircleCIStepView {
    Simple(Seq<char>),
    Command(CircleCIRunView),
    Cache(Seq<Seq<char>>),
    SaveCache { key: Seq<char>, paths: Seq<Seq<char>> },
}

impl View for CircleCIStep {
    type V = CircleCIStepView;

    open spec fn view(&self) -> CircleCIStepView {
        match self {
            CircleCIStep::Simple(s) => CircleCIStepView::Simple(s@),
            CircleCIStep::Command { run } => CircleCIStepView::Command(run@),
            CircleCIStep::Cache { restore_cache } => CircleCIStepView::Cache(
                strs_v(restore_cache.keys@),
            ),
            CircleCIStep::SaveCache { save_cache } => CircleCIStepView::SaveCache {
                key: save_cache.key@,
                paths: strs_v(save_cache.paths@),
            },
        }
    }
}

pub struct CircleCIJobView {
    pub docker: Seq<Seq<char>>,
    pub steps: Seq<CircleCIStepView>,
    pub environment: Option<Pairs>,
}

impl View for CircleCIJob {
    type V = CircleCIJobView;

    open spec fn view(&self) -> CircleCIJobView {
        CircleCIJobView {
            docker: self.docker@.map_values(|d: CircleCIDocker| d.image@),
            steps: self.steps@.map_values(|s: CircleCIStep| s@),
            environment: opt_pairs_v(self.environment),
        }
    }
}

pub struct CircleCIConfigView {
    pub version: Seq<char>,
    pub orbs: Option<Pairs>,
    pub jobs: Seq<(Seq<char>, CircleCIJobView)>,
    /// Each workflow with the names of its jobs.
    pub workflows: Seq<(Seq<char>, Seq<Seq<char>>)>,
}

impl View for CircleCIConfig {
    type V = CircleCIConfigView;

    open spec fn view(&self) -> CircleCIConfigView {
        CircleCIConfigView {
            version: self.version@,
            orbs: opt_pairs_v(self.orbs),
            jobs: self.jobs@.map_values(|p: (String, CircleCIJob)| (p.0@, p.1@)),
            workflows: self.workflows@.map_values(
                |p: (String, CircleCIWorkflow)|
                    (p.0@, p.1.jobs@.map_values(|j: CircleCIWorkflowJob| workflow_job_name(j))),
            ),
        }
    }
}

pub struct JenkinsConfigView {
    pub agent: Seq<char>,
    pub environment: Pairs,
    /// Each stage with its steps.
    pub stages: Seq<(Seq<char>, Seq<Seq<char>>)>,
}

impl View for JenkinsConfig {
    type V = JenkinsConfigView;

    open spec fn view(&self) -> JenkinsConfigView {
        JenkinsConfigView {
            agent: self.agent@,
            environment: pairs_v(self.environment@),
            stages: self.stages@.map_values(|st: JenkinsStage| (st.name@, strs_v(st.steps@))),
        }
    }
}

} // verus!
