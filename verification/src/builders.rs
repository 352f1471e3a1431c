//! Small constructors for pipeline models, each with the view it produces.
use crate::config::{FeatureMeta, OptionMeta, OptionValue, OptionView};
use crate::models::{
    opt_pairs_v, opt_v, pairs_v, strs_v, workflow_job_name, CircleCIConfig, CircleCIConfigView,
    CircleCIDocker, CircleCIJob, CircleCIJobView, CircleCIRun, CircleCIRunView, CircleCIStep,
    CircleCIStepView, CircleCIWorkflow, CircleCIWorkflowJob, GitHubJob, GitHubJobView, GitHubStep,
    GitHubStepView, GitHubTriggerConfig, GitHubTriggerConfigView, GitHubTriggers,
    GitHubTriggersView, GitLabArtifactsView, GitLabCache, GitLabCacheView, GitLabJob,
    GitLabJobView, JenkinsConfig, JenkinsConfigView, JenkinsStage, Pairs,
};
use vstd::prelude::*;

verus! {

pub open spec fn sopt(o: Option<&str>) -> Option<Seq<char>> {
    match o {
        Some(s) => Some(s@),
        None => None,
    }
}

/// The view of a step.
pub open spec fn sv(
    name: Seq<char>,
    uses: Option<Seq<char>>,
    run: Option<Seq<char>>,
    with: Option<Pairs>,
) -> GitHubStepView {
    GitHubStepView { name: Some(name), uses, run, with, env: None }
}

/// A `key: value` pair of strings.
pub fn kv(k: &str, v: &str) -> (p: (String, String))
    ensures
        p.0@ == k@,
        p.1@ == v@,
{
    (k.to_owned(), v.to_owned())
}

/// A one-entry map of strings.
pub fn map1(k: &str, v: &str) -> (m: Vec<(String, String)>)
    ensures
        pairs_v(m@) == seq![(k@, v@)],
{
    let mut m = Vec::new();
    m.push(kv(k, v));
    assert(pairs_v(m@) =~= seq![(k@, v@)]);
    m
}

/// A two-entry map of strings.
pub fn map2(k1: &str, v1: &str, k2: &str, v2: &str) -> (m: Vec<(String, String)>)
    ensures
        pairs_v(m@) == seq![(k1@, v1@), (k2@, v2@)],
{
    let mut m = Vec::new();
    m.push(kv(k1, v1));
    m.push(kv(k2, v2));
    assert(pairs_v(m@) =~= seq![(k1@, v1@), (k2@, v2@)]);
    m
}

/// A three-entry map of strings.
pub fn map3(k1: &str, v1: &str, k2: &str, v2: &str, k3: &str, v3: &str) -> (m: Vec<
    (String, String),
>)
    ensures
        pairs_v(m@) == seq![(k1@, v1@), (k2@, v2@), (k3@, v3@)],
{
    let mut m = Vec::new();
    m.push(kv(k1, v1));
    m.push(kv(k2, v2));
    m.push(kv(k3, v3));
    assert(pairs_v(m@) =~= seq![(k1@, v1@), (k2@, v2@), (k3@, v3@)]);
    m
}

fn opt_string(o: Option<&str>) -> (r: Option<String>)
    ensures
        opt_v(r) == sopt(o),
{
    match o {
        Some(s) => Some(s.to_owned()),
        None => None,
    }
}

/// A GitHub step.
pub fn step(name: &str, uses: Option<&str>, run: Option<&str>, with: Option<Vec<(String, String)>>) -> (s: GitHubStep)
    ensures
        s@ == sv(name@, sopt(uses), sopt(run), opt_pairs_v(with)),
{
    GitHubStep {
        name: Some(name.to_owned()),
        uses: opt_string(uses),
        run: opt_string(run),
        with,
        env: None,
    }
}

/// A step that runs a command.
pub fn run_step(name: &str, run: &str) -> (s: GitHubStep)
    ensures
        s@ == sv(name@, None, Some(run@), None),
{
    step(name, None, Some(run), None)
}

/// A step that uses an action.
pub fn uses_step(name: &str, uses: &str, with: Option<Vec<(String, String)>>) -> (s: GitHubStep)
    ensures
        s@ == sv(name@, Some(uses@), None, opt_pairs_v(with)),
{
    step(name, Some(uses), None, with)
}

pub open spec fn checkout_v() -> GitHubStepView {
    sv("Checkout code"@, Some("actions/checkout@v4"@), None, None)
}

/// The checkout step every job starts with.
pub fn checkout() -> (s: GitHubStep)
    ensures
        s@ == checkout_v(),
{
    uses_step("Checkout code", "actions/checkout@v4", None)
}

pub open spec fn steps_v(v: Seq<GitHubStep>) -> Seq<GitHubStepView> {
    v.map_values(|s: GitHubStep| s@)
}

pub open spec fn job_v(steps: Seq<GitHubStepView>, timeout: u64) -> GitHubJobView {
    GitHubJobView {
        runs_on: "ubuntu-latest"@,
        steps,
        needs: None,
        timeout_minutes: Some(timeout),
        continue_on_error: None,
    }
}

/// A job on `ubuntu-latest` with a timeout.
pub fn job(steps: Vec<GitHubStep>, timeout: u64) -> (j: GitHubJob)
    ensures
        j@ == job_v(steps_v(steps@), timeout),
{
    GitHubJob {
        runs_on: "ubuntu-latest".to_owned(),
        steps,
        needs: None,
        timeout_minutes: Some(timeout),
        continue_on_error: None,
    }
}

pub open spec fn jobs_v(v: Seq<(String, GitHubJob)>) -> Seq<(Seq<char>, GitHubJobView)> {
    v.map_values(|p: (String, GitHubJob)| (p.0@, p.1@))
}

/// Appends a job.
pub fn push_job(jobs: &mut Vec<(String, GitHubJob)>, id: &str, j: GitHubJob)
    ensures
        jobs_v(final(jobs)@) == jobs_v(old(jobs)@).push((id@, j@)),
{
    let ghost jv = j@;
    jobs.push((id.to_owned(), j));
    assert(jobs_v(jobs@) =~= jobs_v(old(jobs)@).push((id@, jv)));
}

pub open spec fn branches_v() -> Seq<Seq<char>> {
    seq!["main"@, "master"@]
}

/// `main` and `master`.
pub fn main_branches() -> (v: Vec<String>)
    ensures
        strs_v(v@) == branches_v(),
{
    let mut v = Vec::new();
    v.push("main".to_owned());
    v.push("master".to_owned());
    assert(strs_v(v@) =~= branches_v());
    v
}

pub open spec fn trigger_v(branches: Option<Seq<Seq<char>>>, tags: Option<Seq<Seq<char>>>) -> GitHubTriggerConfigView {
    GitHubTriggerConfigView { branches, tags }
}

/// Triggers on pushes and pull requests, written in the order of the event
/// names.
pub fn triggers(push: GitHubTriggerConfig, pull_request: GitHubTriggerConfig) -> (t: GitHubTriggers)
    ensures
        t@ == GitHubTriggersView::Detailed(seq![("pull_request"@, pull_request@), ("push"@, push@)]),
{
    let ghost pv = push@;
    let ghost qv = pull_request@;
    let mut v = Vec::new();
    v.push(("pull_request".to_owned(), pull_request));
    v.push(("push".to_owned(), push));
    assert(v@.map_values(|p: (String, GitHubTriggerConfig)| (p.0@, p.1@)) =~= seq![
        ("pull_request"@, qv),
        ("push"@, pv),
    ]);
    GitHubTriggers::Detailed(v)
}

pub open spec fn branch_triggers_v() -> GitHubTriggersView {
    GitHubTriggersView::Detailed(
        seq![
            ("pull_request"@, trigger_v(Some(branches_v()), None)),
            ("push"@, trigger_v(Some(branches_v()), None)),
        ],
    )
}

/// Triggers on pushes and pull requests to `main` and `master`.
pub fn branch_triggers() -> (t: GitHubTriggers)
    ensures
        t@ == branch_triggers_v(),
{
    triggers(
        GitHubTriggerConfig { branches: Some(main_branches()), tags: None },
        GitHubTriggerConfig { branches: Some(main_branches()), tags: None },
    )
}

/// A list of string literals.
pub fn strs1(a: &str) -> (v: Vec<String>)
    ensures
        strs_v(v@) == seq![a@],
{
    let mut v = Vec::new();
    v.push(a.to_owned());
    assert(strs_v(v@) =~= seq![a@]);
    v
}

/// A list of string literals.
pub fn strs2(a: &str, b: &str) -> (v: Vec<String>)
    ensures
        strs_v(v@) == seq![a@, b@],
        v@.len() == 2,
{
    let mut v = Vec::new();
    v.push(a.to_owned());
    v.push(b.to_owned());
    assert(strs_v(v@) =~= seq![a@, b@]);
    v
}

/// A list of string literals.
pub fn strs3(a: &str, b: &str, c: &str) -> (v: Vec<String>)
    ensures
        strs_v(v@) == seq![a@, b@, c@],
{
    let mut v = Vec::new();
    v.push(a.to_owned());
    v.push(b.to_owned());
    v.push(c.to_owned());
    assert(strs_v(v@) =~= seq![a@, b@, c@]);
    v
}

/// Appends a string.
pub fn push_str(v: &mut Vec<String>, s: String)
    ensures
        strs_v(final(v)@) == strs_v(old(v)@).push(s@),
{
    let ghost sv = s@;
    v.push(s);
    assert(strs_v(v@) =~= strs_v(old(v)@).push(sv));
}

/// Inserts a string at a position.
pub fn insert_str(v: &mut Vec<String>, i: usize, s: String)
    requires
        i <= old(v)@.len(),
    ensures
        strs_v(final(v)@) == strs_v(old(v)@).insert(i as int, s@),
        final(v)@.len() == old(v)@.len() + 1,
{
    let ghost sv = s@;
    v.insert(i, s);
    assert(strs_v(v@) =~= strs_v(old(v)@).insert(i as int, sv));
}

// ---------------------------------------------------------------- GitLab

pub open spec fn refs_v() -> Seq<Seq<char>> {
    seq!["main"@, "master"@, "merge_requests"@]
}

pub open spec fn glj_v(stage: Seq<char>, image: Option<Seq<char>>, script: Seq<Seq<char>>, cache: Option<GitLabCacheView>, artifacts: Option<GitLabArtifactsView>, only: Option<Option<Seq<Seq<char>>>>, timeout: Option<Seq<char>>) -> GitLabJobView {
    GitLabJobView {
        stage,
        image,
        script,
        before_script: None,
        after_script: None,
        needs: None,
        cache,
        artifacts,
        only,
        timeout,
    }
}

pub open spec fn gl_jobs_v(v: Seq<(String, GitLabJob)>) -> Seq<(Seq<char>, GitLabJobView)> {
    v.map_values(|p: (String, GitLabJob)| (p.0@, p.1@))
}

/// Appends a GitLab job.
pub fn push_gl_job(jobs: &mut Vec<(String, GitLabJob)>, id: &str, j: GitLabJob)
    ensures
        gl_jobs_v(final(jobs)@) == gl_jobs_v(old(jobs)@).push((id@, j@)),
{
    let ghost jv = j@;
    jobs.push((id.to_owned(), j));
    assert(gl_jobs_v(jobs@) =~= gl_jobs_v(old(jobs)@).push((id@, jv)));
}

/// A cache declaration.
pub fn gl_cache(key: &str, paths: Vec<String>) -> (c: GitLabCache)
    ensures
        c@ == (GitLabCacheView { key: key@, paths: strs_v(paths@) }),
{
    GitLabCache { key: key.to_owned(), paths }
}

// ---------------------------------------------------------------- CircleCI

pub open spec fn detailed_v(name: Seq<char>, command: Seq<char>) -> CircleCIStepView {
    CircleCIStepView::Command(CircleCIRunView::Detailed { name, command })
}

/// A step that runs a named command.
pub fn detailed(name: &str, command: String) -> (s: CircleCIStep)
    ensures
        s@ == detailed_v(name@, command@),
{
    CircleCIStep::Command { run: CircleCIRun::Detailed { name: name.to_owned(), command } }
}

/// A step that runs a command without a name.
pub fn simple_run(command: &str) -> (s: CircleCIStep)
    ensures
        s@ == CircleCIStepView::Command(CircleCIRunView::Simple(command@)),
{
    CircleCIStep::Command { run: CircleCIRun::Simple(command.to_owned()) }
}

/// A built-in step such as `checkout`.
pub fn simple_step(name: &str) -> (s: CircleCIStep)
    ensures
        s@ == CircleCIStepView::Simple(name@),
{
    CircleCIStep::Simple(name.to_owned())
}

pub open spec fn csteps_v(v: Seq<CircleCIStep>) -> Seq<CircleCIStepView> {
    v.map_values(|s: CircleCIStep| s@)
}

/// Appends a CircleCI step.
pub fn push_cstep(v: &mut Vec<CircleCIStep>, s: CircleCIStep)
    ensures
        csteps_v(final(v)@) == csteps_v(old(v)@).push(s@),
{
    let ghost x = s@;
    v.push(s);
    assert(csteps_v(v@) =~= csteps_v(old(v)@).push(x));
}

pub open spec fn cjob_v(image: Seq<char>, steps: Seq<CircleCIStepView>) -> CircleCIJobView {
    CircleCIJobView { docker: seq![image], steps, environment: None }
}

/// A job that runs in one Docker image.
pub fn circle_job(image: String, steps: Vec<CircleCIStep>) -> (j: CircleCIJob)
    ensures
        j@ == cjob_v(image@, csteps_v(steps@)),
{
    let ghost iv = image@;
    let mut docker = Vec::new();
    docker.push(CircleCIDocker { image });
    let j = CircleCIJob { docker, steps, environment: None };
    assert(j@.docker =~= seq![iv]);
    j
}

pub open spec fn circle_config_v(jobs: Seq<(Seq<char>, CircleCIJobView)>, workflow: Seq<char>, names: Seq<Seq<char>>) -> CircleCIConfigView {
    CircleCIConfigView { version: "2.1"@, orbs: None, jobs, workflows: seq![(workflow, names)] }
}

pub open spec fn cjobs_v(v: Seq<(String, CircleCIJob)>) -> Seq<(Seq<char>, CircleCIJobView)> {
    v.map_values(|p: (String, CircleCIJob)| (p.0@, p.1@))
}

pub open spec fn wjobs_v(v: Seq<CircleCIWorkflowJob>) -> Seq<Seq<char>> {
    v.map_values(|j: CircleCIWorkflowJob| workflow_job_name(j))
}

/// A configuration of version 2.1 with one workflow.
pub fn circle_config(jobs: Vec<(String, CircleCIJob)>, workflow: &str, names: Vec<CircleCIWorkflowJob>) -> (c: CircleCIConfig)
    ensures
        c@ == circle_config_v(cjobs_v(jobs@), workflow@, wjobs_v(names@)),
{
    let ghost nv = wjobs_v(names@);
    let mut workflows = Vec::new();
    workflows.push((workflow.to_owned(), CircleCIWorkflow { jobs: names }));
    let c = CircleCIConfig { version: "2.1".to_owned(), orbs: None, jobs, workflows };
    assert(c@.workflows =~= seq![(workflow@, nv)]);
    assert(c@.jobs =~= cjobs_v(jobs@));
    c
}

/// Appends a CircleCI job.
pub fn push_cjob(jobs: &mut Vec<(String, CircleCIJob)>, id: &str, j: CircleCIJob)
    ensures
        cjobs_v(final(jobs)@) == cjobs_v(old(jobs)@).push((id@, j@)),
{
    let ghost jv = j@;
    jobs.push((id.to_owned(), j));
    assert(cjobs_v(jobs@) =~= cjobs_v(old(jobs)@).push((id@, jv)));
}

/// Appends a workflow job reference.
pub fn push_wjob(v: &mut Vec<CircleCIWorkflowJob>, name: &str)
    ensures
        wjobs_v(final(v)@) == wjobs_v(old(v)@).push(name@),
{
    v.push(CircleCIWorkflowJob::Simple(name.to_owned()));
    assert(wjobs_v(v@) =~= wjobs_v(old(v)@).push(name@));
}

// ---------------------------------------------------------------- Jenkins

pub open spec fn stages_v(v: Seq<JenkinsStage>) -> Seq<(Seq<char>, Seq<Seq<char>>)> {
    v.map_values(|st: JenkinsStage| (st.name@, strs_v(st.steps@)))
}

/// A stage.
pub fn stage(name: &str, steps: Vec<String>) -> (st: JenkinsStage)
    ensures
        st.name@ == name@,
        st.steps@ == steps@,
{
    JenkinsStage { name: name.to_owned(), steps }
}

/// A pipeline on any agent without environment.
pub fn jenkins(stages: Vec<JenkinsStage>) -> (c: JenkinsConfig)
    ensures
        c@ == (JenkinsConfigView { agent: "any"@, environment: Seq::empty(), stages: stages_v(stages@) }),
{
    let c = JenkinsConfig { agent: "any".to_owned(), environment: Vec::new(), stages };
    assert(c@.environment =~= Seq::<(Seq<char>, Seq<char>)>::empty());
    c
}

/// Appends a stage.
pub fn push_stage(v: &mut Vec<JenkinsStage>, st: JenkinsStage)
    ensures
        stages_v(final(v)@) == stages_v(old(v)@).push((st.name@, strs_v(st.steps@))),
{
    let ghost x = (st.name@, strs_v(st.steps@));
    v.push(st);
    assert(stages_v(v@) =~= stages_v(old(v)@).push(x));
}

// ---------------------------------------------------------------- editor metadata

/// Metadata of an option.
pub fn option_meta(id: &str, display: &str, description: &str, default_value: OptionValue) -> (m: OptionMeta)
    ensures
        m.id@ == id@,
        m.display_name@ == display@,
        m.description@ == description@,
        m.default_value@ == default_value@,
        m.depends_on is None,
        m@ == crate::config::meta_v(id@, display@, description@, default_value@),
{
    OptionMeta {
        id: id.to_owned(),
        display_name: display.to_owned(),
        description: description.to_owned(),
        default_value,
        depends_on: None,
    }
}

/// A feature with its options.
pub fn feature(id: &str, display: &str, description: &str, options: Vec<OptionMeta>) -> (f: FeatureMeta)
    ensures
        f.id@ == id@,
        f.display_name@ == display@,
        f.description@ == description@,
        f.options@ == options@,
{
    FeatureMeta {
        id: id.to_owned(),
        display_name: display.to_owned(),
        description: description.to_owned(),
        options,
    }
}

/// A feature with a single option.
pub fn feature1(id: &str, display: &str, description: &str, option: OptionMeta) -> (f: FeatureMeta)
    ensures
        f.id@ == id@,
        f.display_name@ == display@,
        f.description@ == description@,
        f.options@ == seq![option],
        f@.options == seq![option@],
{
    let mut options = Vec::new();
    options.push(option);
    assert(options@ =~= seq![option]);
    let f = feature(id, display, description, options);
    assert(f@.options =~= seq![option@]);
    f
}

/// An enumeration value with the given variants.
pub fn enum_value(selected: &str, variants: Vec<String>) -> (v: OptionValue)
    ensures
        v@ == (OptionView::Enum { selected: selected@, variants: strs_v(variants@) }),
{
    let v = OptionValue::Enum { selected: selected.to_owned(), variants };
    assert(crate::text::views(variants@) =~= strs_v(variants@));
    v
}

} // verus!
