//! The preset that builds Docker images and pushes them to a registry.
use crate::builders::{
    branches_v, checkout, checkout_v, circle_config, circle_config_v, circle_job, cjob_v, cjobs_v,
    csteps_v, detailed, detailed_v, feature, gl_jobs_v, glj_v, jenkins, job, job_v, jobs_v,
    kv, main_branches, map2, map3, option_meta, push_cjob, push_cstep, push_gl_job, push_job,
    push_stage, push_str, push_wjob, simple_run, simple_step, stage, stages_v, steps_v, strs1,
    strs3, sv, trigger_v, triggers, uses_step, wjobs_v, enum_value,
};
use crate::config::{
    bool_of, enum_of, feature_v, features_view, meta_v, push_value, string_of_key, FeatureMeta,
    OptionMeta, OptionValue, OptionView, PresetConfig, PresetConfigView,
};
use crate::detection::ProjectType;
use crate::matching::{
    any_command, any_run, any_script, any_stage_step, any_uses, circleci_commands_contain,
    gitlab_scripts_contain, jenkins_steps_contain, workflow_runs, workflow_uses,
};
use crate::models::{
    pairs_v, strs_v, CircleCIConfig, CircleCIConfigView, CircleCIRunView, CircleCIStepView,
    GitHubStepView, GitHubTriggerConfig, GitHubTriggersView, GitHubWorkflow, GitHubWorkflowView,
    GitLabCI, GitLabCIView, GitLabJob, GitLabOnly, JenkinsConfig, JenkinsConfigView, Pairs,
};
use crate::rust_preset::opt_seq;
use crate::text::{concat2, concat3};
use vstd::prelude::*;

verus! {

/// Container registry options for Docker image pushing.
#[derive(PartialEq, Eq, Structural, Clone, Copy, Debug)]
pub enum DockerRegistry {
    /// Push to Docker Hub (requires DOCKER_USERNAME and DOCKER_PASSWORD secrets).
    DockerHub,
    /// Push to GitHub Container Registry (uses GITHUB_TOKEN).
    GitHubRegistry,
    /// Don't push images (build only).
    NoRegistry,
}

pub open spec fn registry_id(r: DockerRegistry) -> Seq<char> {
    match r {
        DockerRegistry::DockerHub => "dockerhub"@,
        DockerRegistry::GitHubRegistry => "github"@,
        DockerRegistry::NoRegistry => "none"@,
    }
}

pub open spec fn registry_of(s: Seq<char>) -> Option<DockerRegistry> {
    if s == "dockerhub"@ {
        Some(DockerRegistry::DockerHub)
    } else if s == "github"@ {
        Some(DockerRegistry::GitHubRegistry)
    } else if s == "none"@ {
        Some(DockerRegistry::NoRegistry)
    } else {
        None
    }
}

pub open spec fn registry_ids() -> Seq<Seq<char>> {
    seq!["dockerhub"@, "github"@, "none"@]
}

impl DockerRegistry {
    /// The identifier used in configurations.
    pub fn as_str(&self) -> (s: &'static str)
        ensures
            s@ == registry_id(*self),
    {
        match self {
            DockerRegistry::DockerHub => "dockerhub",
            DockerRegistry::GitHubRegistry => "github",
            DockerRegistry::NoRegistry => "none",
        }
    }

    /// The registry with that identifier.
    pub fn from_str(s: &str) -> (r: Option<Self>)
        ensures
            r == registry_of(s@),
    {
        if crate::text::str_eq(s, "dockerhub") {
            Some(DockerRegistry::DockerHub)
        } else if crate::text::str_eq(s, "github") {
            Some(DockerRegistry::GitHubRegistry)
        } else if crate::text::str_eq(s, "none") {
            Some(DockerRegistry::NoRegistry)
        } else {
            None
        }
    }

    /// The identifiers of all registries.
    pub fn all_variants() -> (v: Vec<String>)
        ensures
            strs_v(v@) == registry_ids(),
    {
        strs3("dockerhub", "github", "none")
    }

    /// The default registry: none, the image is only built.
    pub fn default() -> (r: Self)
        ensures
            r == DockerRegistry::NoRegistry,
    {
        DockerRegistry::NoRegistry
    }
}

/// Each registry's identifier reads back as that registry.
pub proof fn law_registry_identifiers(r: DockerRegistry)
    ensures
        registry_of(registry_id(r)) == Some(r),
{
    reveal_strlit("dockerhub");
    reveal_strlit("github");
    reveal_strlit("none");
    assert("dockerhub"@.len() != "github"@.len());
    assert("dockerhub"@.len() != "none"@.len());
    assert("github"@.len() != "none"@.len());
}

/// CI pipeline for building and pushing Docker images to registries.
pub struct Docker {
    pub image_name: String,
    pub registry: DockerRegistry,
    pub dockerfile_path: String,
    pub build_context: String,
    pub enable_cache: bool,
    pub push_on_tags_only: bool,
}

/// A Docker preset as plain values.
pub struct DockerView {
    pub image_name: Seq<char>,
    pub registry: DockerRegistry,
    pub dockerfile_path: Seq<char>,
    pub build_context: Seq<char>,
    pub enable_cache: bool,
    pub push_on_tags_only: bool,
}

impl View for Docker {
    type V = DockerView;

    open spec fn view(&self) -> DockerView {
        DockerView {
            image_name: self.image_name@,
            registry: self.registry,
            dockerfile_path: self.dockerfile_path@,
            build_context: self.build_context@,
            enable_cache: self.enable_cache,
            push_on_tags_only: self.push_on_tags_only,
        }
    }
}

/// Whether images are pushed: only to a configured registry.
pub open spec fn pushes(p: DockerView) -> bool {
    p.registry != DockerRegistry::NoRegistry
}

/// `docker build -t <image> -f <dockerfile> <context>`.
pub open spec fn build_command(p: DockerView) -> Seq<char> {
    "docker build -t "@ + p.image_name + " -f "@ + p.dockerfile_path + " "@ + p.build_context
}

/// `docker push <image>`.
pub open spec fn push_command(p: DockerView) -> Seq<char> {
    "docker push "@ + p.image_name
}

pub open spec fn metadata_tags() -> Seq<char> {
    "type=ref,event=branch\ntype=ref,event=pr\ntype=semver,pattern={{version}}\ntype=semver,pattern={{major}}.{{minor}}"@
}

/// The image reference the metadata step tags.
pub open spec fn image_ref(p: DockerView) -> Seq<char> {
    match p.registry {
        DockerRegistry::GitHubRegistry => "ghcr.io/${ github.repository_owner }/"@ + p.image_name,
        _ => p.image_name,
    }
}

/// The login step of the GitHub job, if the images are pushed.
pub open spec fn github_login(r: DockerRegistry) -> Seq<GitHubStepView> {
    match r {
        DockerRegistry::DockerHub => seq![
            sv(
                "Login to Docker Hub"@,
                Some("docker/login-action@v3"@),
                None,
                Some(
                    seq![
                        ("password"@, "${{ secrets.DOCKER_PASSWORD }}"@),
                        ("username"@, "${{ secrets.DOCKER_USERNAME }}"@),
                    ],
                ),
            ),
        ],
        DockerRegistry::GitHubRegistry => seq![
            sv(
                "Login to GitHub Container Registry"@,
                Some("docker/login-action@v3"@),
                None,
                Some(
                    seq![
                        ("password"@, "${{ secrets.GITHUB_TOKEN }}"@),
                        ("registry"@, "ghcr.io"@),
                        ("username"@, "${{ github.actor }}"@),
                    ],
                ),
            ),
        ],
        DockerRegistry::NoRegistry => Seq::empty(),
    }
}

/// The inputs of the build-and-push action, in the order of their names.
pub open spec fn build_push_with(p: DockerView) -> Pairs {
    opt_seq(
        p.enable_cache,
        seq![("cache-from"@, "type=gha"@), ("cache-to"@, "type=gha,mode=max"@)],
    ) + seq![
        ("context"@, p.build_context),
        ("file"@, p.dockerfile_path),
        ("labels"@, "${{ steps.meta.outputs.labels }}"@),
    ] + opt_seq(pushes(p), seq![("push"@, "true"@)]) + seq![
        ("tags"@, "${{ steps.meta.outputs.tags }}"@),
    ]
}

/// The GitHub Actions workflow of a Docker preset.
pub open spec fn docker_github(p: DockerView) -> GitHubWorkflowView {
    let steps = seq![
        checkout_v(),
        sv("Set up Docker Buildx"@, Some("docker/setup-buildx-action@v3"@), None, None),
    ] + github_login(p.registry) + seq![
        sv(
            "Extract Docker metadata"@,
            Some("docker/metadata-action@v5"@),
            None,
            Some(seq![("images"@, image_ref(p)), ("tags"@, metadata_tags())]),
        ),
        sv(
            "Build and push Docker image"@,
            Some("docker/build-push-action@v5"@),
            None,
            Some(build_push_with(p)),
        ),
    ];
    GitHubWorkflowView {
        name: "Docker Build and Push"@,
        on: GitHubTriggersView::Detailed(
            seq![
                ("pull_request"@, trigger_v(Some(branches_v()), None)),
                (
                    "push"@,
                    trigger_v(
                        if p.push_on_tags_only {
                            None
                        } else {
                            Some(branches_v())
                        },
                        Some(seq!["v*"@]),
                    ),
                ),
            ],
        ),
        env: None,
        jobs: seq![("docker/build"@, job_v(steps, 30))],
    }
}

/// The GitLab CI configuration of a Docker preset.
pub open spec fn docker_gitlab(p: DockerView) -> GitLabCIView {
    GitLabCIView {
        stages: Some(seq!["build"@]),
        variables: None,
        cache: None,
        jobs: seq![
            (
                "docker/build"@,
                glj_v(
                    "build"@,
                    Some("docker:latest"@),
                    seq![
                        "docker login -u $CI_REGISTRY_USER -p $CI_REGISTRY_PASSWORD $CI_REGISTRY"@,
                        build_command(p),
                    ] + opt_seq(pushes(p), seq![push_command(p)]),
                    None,
                    None,
                    if p.push_on_tags_only {
                        Some(Some(seq!["tags"@]))
                    } else {
                        None
                    },
                    None,
                ),
            ),
        ],
    }
}

pub open spec fn hub_login() -> Seq<char> {
    "echo $DOCKER_PASSWORD | docker login -u $DOCKER_USERNAME --password-stdin"@
}

pub open spec fn ghcr_login() -> Seq<char> {
    "echo $GITHUB_TOKEN | docker login ghcr.io -u $GITHUB_USERNAME --password-stdin"@
}

/// The CircleCI configuration of a Docker preset.
pub open spec fn docker_circleci(p: DockerView) -> CircleCIConfigView {
    let login = match p.registry {
        DockerRegistry::DockerHub => seq![CircleCIStepView::Command(CircleCIRunView::Simple(hub_login()))],
        DockerRegistry::GitHubRegistry => seq![
            CircleCIStepView::Command(CircleCIRunView::Simple(ghcr_login())),
        ],
        DockerRegistry::NoRegistry => Seq::empty(),
    };
    let steps = seq![
        CircleCIStepView::Simple("checkout"@),
        CircleCIStepView::Simple("setup_remote_docker"@),
    ] + login + seq![detailed_v("Build Docker image"@, build_command(p))] + opt_seq(
        pushes(p),
        seq![detailed_v("Push Docker image"@, push_command(p))],
    );
    circle_config_v(
        seq![("docker/build"@, cjob_v("cimg/base:stable"@, steps))],
        "main"@,
        seq!["docker/build"@],
    )
}

/// A shell step of a Jenkins pipeline.
pub open spec fn sh(command: Seq<char>) -> Seq<char> {
    "sh '"@ + command + "'"@
}

/// The Jenkins pipeline of a Docker preset.
pub open spec fn docker_jenkins(p: DockerView) -> JenkinsConfigView {
    let login = match p.registry {
        DockerRegistry::DockerHub => seq![sh(hub_login())],
        DockerRegistry::GitHubRegistry => seq![sh(ghcr_login())],
        DockerRegistry::NoRegistry => Seq::empty(),
    };
    JenkinsConfigView {
        agent: "any"@,
        environment: Seq::empty(),
        stages: seq![
            (
                "Docker Build"@,
                login + seq![sh(build_command(p))] + opt_seq(pushes(p), seq![sh(push_command(p))]),
            ),
        ],
    }
}

/// The editor options of the Docker preset, in the order of its fields.
pub open spec fn docker_fields() -> Seq<crate::config::OptionMetaView> {
    seq![
        meta_v("image_name"@, "Image Name"@, "Docker image name (e.g., \"myorg/myapp\")"@, OptionView::Str("myapp"@)),
        meta_v(
            "registry"@,
            "Registry Type"@,
            "Choose where to push Docker images"@,
            OptionView::Enum { selected: "none"@, variants: registry_ids() },
        ),
        meta_v("enable_cache"@, "Enable Cache"@, "Use Docker layer caching for faster builds"@, OptionView::Bool(true)),
        meta_v(
            "push_on_tags_only"@,
            "Tags Only"@,
            "Only push images on git tags (not on branch pushes)"@,
            OptionView::Bool(false),
        ),
    ]
}

/// The editor's feature groups of the Docker preset: one group with every option.
pub open spec fn docker_features() -> Seq<crate::config::FeatureView> {
    seq![
        feature_v(
            "docker"@,
            "Docker"@,
            "CI pipeline for building and pushing Docker images to registries"@,
            docker_fields(),
        ),
    ]
}

/// The editor configuration of a Docker preset: caching is on only when the
/// project was detected as a Docker project; the other options keep their defaults.
pub open spec fn docker_default_config(detected: bool) -> PresetConfigView {
    PresetConfigView {
        preset_id: "docker"@,
        values: seq![
            ("image_name"@, OptionView::Str("myapp"@)),
            ("registry"@, OptionView::Enum { selected: "none"@, variants: registry_ids() }),
            ("enable_cache"@, OptionView::Bool(detected)),
            ("push_on_tags_only"@, OptionView::Bool(false)),
        ],
    }
}

/// The registry chosen by an editor configuration; an unknown or missing
/// choice means no registry.
pub open spec fn chosen_registry(c: PresetConfigView) -> DockerRegistry {
    match enum_of(c, "registry"@) {
        Some(s) => match registry_of(s) {
            Some(r) => r,
            None => DockerRegistry::NoRegistry,
        },
        None => DockerRegistry::NoRegistry,
    }
}

/// The Docker preset described by an editor configuration.
pub open spec fn docker_from_config(c: PresetConfigView) -> DockerView {
    DockerView {
        image_name: match string_of_key(c, "image_name"@) {
            Some(s) => s,
            None => "myapp"@,
        },
        registry: chosen_registry(c),
        dockerfile_path: "./Dockerfile"@,
        build_context: "."@,
        enable_cache: bool_of(c, "enable_cache"@),
        push_on_tags_only: bool_of(c, "push_on_tags_only"@),
    }
}

fn push_pair(v: &mut Vec<(String, String)>, k: &str, val: &str)
    ensures
        pairs_v(final(v)@) == pairs_v(old(v)@).push((k@, val@)),
{
    v.push(kv(k, val));
    assert(pairs_v(v@) =~= pairs_v(old(v)@).push((k@, val@)));
}

fn build_cmd(p: &Docker) -> (s: String)
    ensures
        s@ == build_command(p@),
{
    let a = concat3("docker build -t ", p.image_name.as_str(), " -f ");
    let b = concat3(a.as_str(), p.dockerfile_path.as_str(), " ");
    let s = concat2(b.as_str(), p.build_context.as_str());
    assert(s@ =~= build_command(p@));
    s
}

fn push_cmd(p: &Docker) -> (s: String)
    ensures
        s@ == push_command(p@),
{
    concat2("docker push ", p.image_name.as_str())
}

fn sh_step(command: &str) -> (s: String)
    ensures
        s@ == sh(command@),
{
    concat3("sh '", command, "'")
}

impl Docker {
    /// The default preset: image `myapp` built from `./Dockerfile` with caching,
    /// pushed nowhere.
    pub fn default() -> (p: Docker)
        ensures
            p@ == (DockerView {
                image_name: "myapp"@,
                registry: DockerRegistry::NoRegistry,
                dockerfile_path: "./Dockerfile"@,
                build_context: "."@,
                enable_cache: true,
                push_on_tags_only: false,
            }),
    {
        Docker {
            image_name: "myapp".to_owned(),
            registry: DockerRegistry::NoRegistry,
            dockerfile_path: "./Dockerfile".to_owned(),
            build_context: ".".to_owned(),
            enable_cache: true,
            push_on_tags_only: false,
        }
    }

    pub fn name(&self) -> (s: &'static str)
        ensures
            s@ == "docker"@,
    {
        "docker"
    }

    pub fn description(&self) -> (s: &'static str)
        ensures
            s@ == "CI pipeline for building and pushing Docker images to registries"@,
    {
        "CI pipeline for building and pushing Docker images to registries"
    }

    /// The GitHub Actions workflow.
    pub fn to_github(&self) -> (w: GitHubWorkflow)
        ensures
            w@ == docker_github(self@),
    {
        let ghost p = self@;
        let mut steps = Vec::new();
        steps.push(checkout());
        steps.push(uses_step("Set up Docker Buildx", "docker/setup-buildx-action@v3", None));
        let ghost s0 = steps_v(steps@);
        match self.registry {
            DockerRegistry::DockerHub => {
                steps.push(
                    uses_step(
                        "Login to Docker Hub",
                        "docker/login-action@v3",
                        Some(
                            map2(
                                "password",
                                "${{ secrets.DOCKER_PASSWORD }}",
                                "username",
                                "${{ secrets.DOCKER_USERNAME }}",
                            ),
                        ),
                    ),
                );
            },
            DockerRegistry::GitHubRegistry => {
                steps.push(
                    uses_step(
                        "Login to GitHub Container Registry",
                        "docker/login-action@v3",
                        Some(
                            map3(
                                "password",
                                "${{ secrets.GITHUB_TOKEN }}",
                                "registry",
                                "ghcr.io",
                                "username",
                                "${{ github.actor }}",
                            ),
                        ),
                    ),
                );
            },
            DockerRegistry::NoRegistry => {},
        }
        let ghost s1 = steps_v(steps@);
        assert(s1 =~= s0 + github_login(p.registry));
        let images = match self.registry {
            DockerRegistry::GitHubRegistry => concat2(
                "ghcr.io/${ github.repository_owner }/",
                self.image_name.as_str(),
            ),
            _ => self.image_name.clone(),
        };
        steps.push(
            uses_step(
                "Extract Docker metadata",
                "docker/metadata-action@v5",
                Some(
                    map2(
                        "images",
                        images.as_str(),
                        "tags",
                        "type=ref,event=branch\ntype=ref,event=pr\ntype=semver,pattern={{version}}\ntype=semver,pattern={{major}}.{{minor}}",
                    ),
                ),
            ),
        );
        let mut with: Vec<(String, String)> = Vec::new();
        if self.enable_cache {
            push_pair(&mut with, "cache-from", "type=gha");
            push_pair(&mut with, "cache-to", "type=gha,mode=max");
        }
        let ghost w0 = pairs_v(with@);
        push_pair(&mut with, "context", self.build_context.as_str());
        push_pair(&mut with, "file", self.dockerfile_path.as_str());
        push_pair(&mut with, "labels", "${{ steps.meta.outputs.labels }}");
        let ghost w1 = pairs_v(with@);
        if self.registry != DockerRegistry::NoRegistry {
            push_pair(&mut with, "push", "true");
        }
        let ghost w2 = pairs_v(with@);
        push_pair(&mut with, "tags", "${{ steps.meta.outputs.tags }}");
        assert(w2 =~= w1 + opt_seq(pushes(p), seq![("push"@, "true"@)]));
        assert(pairs_v(with@) =~= build_push_with(p));
        steps.push(uses_step("Build and push Docker image", "docker/build-push-action@v5", Some(with)));
        assert(steps_v(steps@) =~= docker_github(p).jobs[0].1.steps);
        let mut jobs = Vec::new();
        push_job(&mut jobs, "docker/build", job(steps, 30));
        let push_branches = if self.push_on_tags_only {
            None
        } else {
            Some(main_branches())
        };
        let on = triggers(
            GitHubTriggerConfig { branches: push_branches, tags: Some(strs1("v*")) },
            GitHubTriggerConfig { branches: Some(main_branches()), tags: None },
        );
        let w = GitHubWorkflow { name: "Docker Build and Push".to_owned(), on, env: None, jobs };
        assert(w@.jobs =~= docker_github(p).jobs);
        w
    }

    /// The Gitea Actions workflow: Gitea uses the GitHub Actions format.
    pub fn to_gitea(&self) -> (w: GitHubWorkflow)
        ensures
            w@ == docker_github(self@),
    {
        self.to_github()
    }

    /// The GitLab CI configuration.
    pub fn to_gitlab(&self) -> (c: GitLabCI)
        ensures
            c@ == docker_gitlab(self@),
    {
        let ghost p = self@;
        let mut script = strs1("docker login -u $CI_REGISTRY_USER -p $CI_REGISTRY_PASSWORD $CI_REGISTRY");
        push_str(&mut script, build_cmd(self));
        let ghost s1 = strs_v(script@);
        if self.registry != DockerRegistry::NoRegistry {
            push_str(&mut script, push_cmd(self));
        }
        assert(strs_v(script@) =~= s1 + opt_seq(pushes(p), seq![push_command(p)]));
        assert(strs_v(script@) =~= docker_gitlab(p).jobs[0].1.script);
        let only = if self.push_on_tags_only {
            let o = GitLabOnly { refs: Some(strs1("tags")) };
            assert(crate::models::opt_strs_v(o.refs) =~= Some(seq!["tags"@]));
            Some(o)
        } else {
            None
        };
        let mut jobs = Vec::new();
        push_gl_job(
            &mut jobs,
            "docker/build",
            GitLabJob {
                stage: "build".to_owned(),
                image: Some("docker:latest".to_owned()),
                script,
                before_script: None,
                after_script: None,
                needs: None,
                cache: None,
                artifacts: None,
                only,
                timeout: None,
            },
        );
        let c = GitLabCI { stages: Some(strs1("build")), variables: None, cache: None, jobs };
        assert(c@.jobs =~= docker_gitlab(p).jobs);
        c
    }

    /// The CircleCI configuration.
    pub fn to_circleci(&self) -> (c: CircleCIConfig)
        ensures
            c@ == docker_circleci(self@),
    {
        let ghost p = self@;
        let mut steps = Vec::new();
        push_cstep(&mut steps, simple_step("checkout"));
        push_cstep(&mut steps, simple_step("setup_remote_docker"));
        match self.registry {
            DockerRegistry::DockerHub => {
                push_cstep(
                    &mut steps,
                    simple_run("echo $DOCKER_PASSWORD | docker login -u $DOCKER_USERNAME --password-stdin"),
                );
            },
            DockerRegistry::GitHubRegistry => {
                push_cstep(
                    &mut steps,
                    simple_run("echo $GITHUB_TOKEN | docker login ghcr.io -u $GITHUB_USERNAME --password-stdin"),
                );
            },
            DockerRegistry::NoRegistry => {},
        }
        let ghost s1 = csteps_v(steps@);
        push_cstep(&mut steps, detailed("Build Docker image", build_cmd(self)));
        let ghost s2 = csteps_v(steps@);
        if self.registry != DockerRegistry::NoRegistry {
            push_cstep(&mut steps, detailed("Push Docker image", push_cmd(self)));
        }
        assert(csteps_v(steps@) =~= s2 + opt_seq(
            pushes(p),
            seq![detailed_v("Push Docker image"@, push_command(p))],
        ));
        assert(csteps_v(steps@) =~= docker_circleci(p).jobs[0].1.steps);
        let mut jobs = Vec::new();
        push_cjob(&mut jobs, "docker/build", circle_job("cimg/base:stable".to_owned(), steps));
        let mut names = Vec::new();
        push_wjob(&mut names, "docker/build");
        assert(cjobs_v(jobs@) =~= docker_circleci(p).jobs);
        assert(wjobs_v(names@) =~= seq!["docker/build"@]);
        circle_config(jobs, "main", names)
    }

    /// The Jenkins pipeline.
    pub fn to_jenkins(&self) -> (c: JenkinsConfig)
        ensures
            c@ == docker_jenkins(self@),
    {
        let ghost p = self@;
        let mut steps: Vec<String> = Vec::new();
        match self.registry {
            DockerRegistry::DockerHub => {
                push_str(
                    &mut steps,
                    sh_step("echo $DOCKER_PASSWORD | docker login -u $DOCKER_USERNAME --password-stdin"),
                );
            },
            DockerRegistry::GitHubRegistry => {
                push_str(
                    &mut steps,
                    sh_step("echo $GITHUB_TOKEN | docker login ghcr.io -u $GITHUB_USERNAME --password-stdin"),
                );
            },
            DockerRegistry::NoRegistry => {},
        }
        let ghost s1 = strs_v(steps@);
        let b = build_cmd(self);
        push_str(&mut steps, sh_step(b.as_str()));
        let ghost s2 = strs_v(steps@);
        if self.registry != DockerRegistry::NoRegistry {
            let c = push_cmd(self);
            push_str(&mut steps, sh_step(c.as_str()));
        }
        assert(strs_v(steps@) =~= s2 + opt_seq(pushes(p), seq![sh(push_command(p))]));
        assert(strs_v(steps@) =~= docker_jenkins(p).stages[0].1);
        let mut stages = Vec::new();
        push_stage(&mut stages, stage("Docker Build", steps));
        assert(stages_v(stages@) =~= docker_jenkins(p).stages);
        jenkins(stages)
    }

    /// Whether a workflow builds an image, with the build-push action or a
    /// `docker build` command.
    pub fn matches_github(&self, workflow: &GitHubWorkflow) -> (b: bool)
        ensures
            b == (any_uses(workflow@, "docker/build-push-action"@) || any_run(workflow@, "docker build"@)),
    {
        let has_docker_build = workflow_uses(workflow, "docker/build-push-action");
        let has_docker_commands = workflow_runs(workflow, "docker build");
        has_docker_build || has_docker_commands
    }

    /// Gitea workflows are recognised as GitHub workflows.
    pub fn matches_gitea(&self, workflow: &GitHubWorkflow) -> (b: bool)
        ensures
            b == (any_uses(workflow@, "docker/build-push-action"@) || any_run(workflow@, "docker build"@)),
    {
        self.matches_github(workflow)
    }

    /// Whether some job's script builds or pushes an image.
    pub fn matches_gitlab(&self, config: &GitLabCI) -> (b: bool)
        ensures
            b == (any_script(config@, "docker build"@) || any_script(config@, "docker push"@)),
    {
        gitlab_scripts_contain(config, "docker build") || gitlab_scripts_contain(config, "docker push")
    }

    /// Whether some job runs a `docker build` command.
    pub fn matches_circleci(&self, config: &CircleCIConfig) -> (b: bool)
        ensures
            b == any_command(config@, "docker build"@),
    {
        circleci_commands_contain(config, "docker build")
    }

    /// Whether some stage runs a `docker build` command.
    pub fn matches_jenkins(&self, config: &JenkinsConfig) -> (b: bool)
        ensures
            b == any_stage_step(config@, "docker build"@),
    {
        jenkins_steps_contain(config, "docker build")
    }

    /// The editor options, in the order of the preset's fields.
    pub fn fields() -> (v: Vec<OptionMeta>)
        ensures
            v@.map_values(|m: OptionMeta| m@) == docker_fields(),
    {
        let mut v: Vec<OptionMeta> = Vec::new();
        v.push(
            option_meta(
                "image_name",
                "Image Name",
                "Docker image name (e.g., \"myorg/myapp\")",
                OptionValue::String("myapp".to_owned()),
            ),
        );
        v.push(
            option_meta(
                "registry",
                "Registry Type",
                "Choose where to push Docker images",
                enum_value("none", DockerRegistry::all_variants()),
            ),
        );
        v.push(option_meta("enable_cache", "Enable Cache", "Use Docker layer caching for faster builds", OptionValue::Bool(true)));
        v.push(
            option_meta(
                "push_on_tags_only",
                "Tags Only",
                "Only push images on git tags (not on branch pushes)",
                OptionValue::Bool(false),
            ),
        );
        assert(v@.map_values(|m: OptionMeta| m@) =~= docker_fields());
        v
    }

    /// The editor's feature groups.
    pub fn features() -> (f: Vec<FeatureMeta>)
        ensures
            features_view(f@) == docker_features(),
    {
        let mut f = Vec::new();
        let g = feature(
            "docker",
            "Docker",
            "CI pipeline for building and pushing Docker images to registries",
            Self::fields(),
        );
        assert(g@.options =~= docker_fields());
        f.push(g);
        assert(features_view(f@) =~= docker_features());
        f
    }

    /// The editor configuration: caching on when detected, off otherwise.
    pub fn default_config(detected: bool) -> (c: PresetConfig)
        ensures
            c@ == docker_default_config(detected),
    {
        let mut v = Vec::new();
        push_value(&mut v, "image_name", OptionValue::String("myapp".to_owned()));
        push_value(&mut v, "registry", enum_value("none", DockerRegistry::all_variants()));
        push_value(&mut v, "enable_cache", OptionValue::Bool(detected));
        push_value(&mut v, "push_on_tags_only", OptionValue::Bool(false));
        let c = PresetConfig::from_entries("docker".to_owned(), v);
        assert(c@.values =~= docker_default_config(detected).values);
        c
    }

    /// The preset an editor configuration describes; the language version
    /// plays no part.
    pub fn from_config(config: &PresetConfig, _version: &str) -> (p: Docker)
        ensures
            p@ == docker_from_config(config@),
    {
        let image_name = match config.get_string("image_name") {
            Some(s) => s,
            None => "myapp".to_owned(),
        };
        let registry = match config.get_enum("registry") {
            Some(s) => match DockerRegistry::from_str(s.as_str()) {
                Some(r) => r,
                None => DockerRegistry::NoRegistry,
            },
            None => DockerRegistry::NoRegistry,
        };
        Docker {
            image_name,
            registry,
            dockerfile_path: "./Dockerfile".to_owned(),
            build_context: ".".to_owned(),
            enable_cache: config.get_bool("enable_cache"),
            push_on_tags_only: config.get_bool("push_on_tags_only"),
        }
    }

    /// Whether the preset applies to a project type: Docker projects only.
    pub fn matches_project(project_type: ProjectType) -> (b: bool)
        ensures
            b == (project_type == ProjectType::DockerImage),
    {
        project_type == ProjectType::DockerImage
    }
}

} // verus!
