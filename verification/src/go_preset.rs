//! The preset for Go applications and libraries.
use crate::builders::{
    branch_triggers, branch_triggers_v, checkout, checkout_v, circle_config, circle_config_v,
    circle_job, cjob_v, cjobs_v, csteps_v, detailed, detailed_v, feature1, gl_cache, gl_jobs_v,
    glj_v, jenkins, job, job_v, jobs_v, map1, option_meta, push_cjob, push_cstep, push_gl_job,
    push_job, push_stage, push_str, push_wjob, run_step, simple_step, stage, stages_v, steps_v,
    strs1, sv, uses_step, wjobs_v, insert_str,
};
use crate::config::{
    bool_of, feature_v, features_view, meta_v, push_value, FeatureMeta, OptionValue, OptionView,
    PresetConfig, PresetConfigView,
};
use crate::detection::ProjectType;
use crate::matching::{any_run, any_uses, workflow_runs, workflow_uses};
use crate::models::{
    strs_v, CircleCIConfig, CircleCIConfigView, CircleCIStepView, GitHubStep, GitHubStepView,
    GitHubWorkflow, GitHubWorkflowView, GitLabCI, GitLabCIView, GitLabCacheView, GitLabJob,
    JenkinsConfig, JenkinsConfigView,
};
use crate::rust_preset::opt_seq;
use crate::text::concat2;
use vstd::prelude::*;

verus! {

/// Preset for Go application projects.
pub struct GoAppPreset {
    pub go_version: String,
    pub enable_linter: bool,
    pub enable_security_scan: bool,
}

/// A Go preset as plain values.
pub struct GoView {
    pub go_version: Seq<char>,
    pub enable_linter: bool,
    pub enable_security_scan: bool,
}

/// The Go preset under its short name.
pub type GoApp = GoAppPreset;

impl View for GoAppPreset {
    type V = GoView;

    open spec fn view(&self) -> GoView {
        GoView {
            go_version: self.go_version@,
            enable_linter: self.enable_linter,
            enable_security_scan: self.enable_security_scan,
        }
    }
}

pub open spec fn setup_go_v(version: Seq<char>) -> GitHubStepView {
    sv("Setup Go"@, Some("actions/setup-go@v5"@), None, Some(seq![("go-version"@, version)]))
}

/// The GitHub Actions workflow of a Go preset; its jobs come in the order of
/// their identifiers.
pub open spec fn go_github(p: GoView) -> GitHubWorkflowView {
    let v = p.go_version;
    let test_job = job_v(
        seq![
            checkout_v(),
            setup_go_v(v),
            sv("Download dependencies"@, None, Some("go mod download"@), None),
            sv("Run tests"@, None, Some("go test -v ./..."@), None),
            sv("Build"@, None, Some("go build -v ./..."@), None),
        ],
        30,
    );
    let lint_job = job_v(
        seq![
            checkout_v(),
            setup_go_v(v),
            sv(
                "Run golangci-lint"@,
                Some("golangci/golangci-lint-action@v3"@),
                None,
                Some(seq![("version"@, "latest"@)]),
            ),
        ],
        15,
    );
    let security_job = job_v(
        seq![
            checkout_v(),
            setup_go_v(v),
            sv("Run gosec"@, Some("securego/gosec@master"@), None, Some(seq![("args"@, "./..."@)])),
        ],
        10,
    );
    GitHubWorkflowView {
        name: "CI"@,
        on: branch_triggers_v(),
        env: None,
        jobs: opt_seq(p.enable_linter, seq![("go/lint"@, lint_job)]) + opt_seq(
            p.enable_security_scan,
            seq![("go/security"@, security_job)],
        ) + seq![("go/test"@, test_job)],
    }
}

/// The script of the GitLab test job: the security scan, the linter, then the tests.
pub open spec fn go_gitlab_script(p: GoView) -> Seq<Seq<char>> {
    opt_seq(p.enable_security_scan, seq!["gosec ./..."@]) + opt_seq(
        p.enable_linter,
        seq!["golangci-lint run"@],
    ) + seq!["go test -v ./..."@]
}

/// The GitLab CI configuration of a Go preset.
pub open spec fn go_gitlab(p: GoView) -> GitLabCIView {
    GitLabCIView {
        stages: Some(seq!["test"@]),
        variables: None,
        cache: None,
        jobs: seq![
            (
                "go/test"@,
                glj_v(
                    "test"@,
                    Some("golang:"@ + p.go_version),
                    go_gitlab_script(p),
                    Some(GitLabCacheView { key: "go-cache"@, paths: seq!["~/go/pkg/mod"@] }),
                    None,
                    None,
                    None,
                ),
            ),
        ],
    }
}

/// The CircleCI configuration of a Go preset.
pub open spec fn go_circleci(p: GoView) -> CircleCIConfigView {
    let steps = seq![CircleCIStepView::Simple("checkout"@)] + opt_seq(
        p.enable_security_scan,
        seq![detailed_v("Security scan"@, "gosec ./..."@)],
    ) + opt_seq(p.enable_linter, seq![detailed_v("Lint"@, "golangci-lint run"@)]) + seq![
        detailed_v("Run tests"@, "go test -v ./..."@),
    ];
    circle_config_v(
        seq![("go/test"@, cjob_v("golang:"@ + p.go_version, steps))],
        "main"@,
        seq!["go/test"@],
    )
}

/// The Jenkins pipeline of a Go preset.
pub open spec fn go_jenkins(p: GoView) -> JenkinsConfigView {
    JenkinsConfigView {
        agent: "any"@,
        environment: Seq::empty(),
        stages: seq![
            (
                "Test"@,
                opt_seq(p.enable_security_scan, seq!["sh 'gosec ./...'"@]) + opt_seq(
                    p.enable_linter,
                    seq!["sh 'golangci-lint run'"@],
                ) + seq!["sh 'go test -v ./...'"@],
            ),
        ],
    }
}

/// The editor's feature groups of the Go preset.
pub open spec fn go_features() -> Seq<crate::config::FeatureView> {
    seq![
        feature_v(
            "linting"@,
            "Linting"@,
            "Code quality checks with golangci-lint"@,
            seq![
                meta_v(
                    "enable_linter"@,
                    "Enable Linter"@,
                    "Run golangci-lint for code quality"@,
                    OptionView::Bool(true),
                ),
            ],
        ),
        feature_v(
            "security"@,
            "Security"@,
            "Security vulnerability scanning"@,
            seq![
                meta_v(
                    "enable_security"@,
                    "Security Scan"@,
                    "Run gosec for security vulnerabilities"@,
                    OptionView::Bool(true),
                ),
            ],
        ),
    ]
}

/// The editor configuration of a Go preset: both checks are on when the
/// project was detected as a Go project, off otherwise.
pub open spec fn go_default_config(detected: bool) -> PresetConfigView {
    PresetConfigView {
        preset_id: "go-app"@,
        values: seq![
            ("enable_linter"@, OptionView::Bool(detected)),
            ("enable_security"@, OptionView::Bool(detected)),
        ],
    }
}

/// The Go preset described by an editor configuration; the toolchain is the
/// language version, or 1.21 when none is known.
pub open spec fn go_from_config(c: PresetConfigView, version: Seq<char>) -> GoView {
    GoView {
        go_version: if version.len() == 0 {
            "1.21"@
        } else {
            version
        },
        enable_linter: bool_of(c, "enable_linter"@),
        enable_security_scan: bool_of(c, "enable_security"@),
    }
}

fn go_image(v: &str) -> (r: String)
    ensures
        r@ == "golang:"@ + v@,
{
    concat2("golang:", v)
}

fn setup_go(v: &str) -> (s: GitHubStep)
    ensures
        s@ == setup_go_v(v@),
{
    uses_step("Setup Go", "actions/setup-go@v5", Some(map1("go-version", v)))
}

impl GoAppPreset {
    /// The default preset: Go 1.21 with linting and security scanning.
    pub fn default() -> (p: GoAppPreset)
        ensures
            p@ == (GoView { go_version: "1.21"@, enable_linter: true, enable_security_scan: true }),
    {
        GoAppPreset { go_version: "1.21".to_owned(), enable_linter: true, enable_security_scan: true }
    }

    pub fn name(&self) -> (s: &'static str)
        ensures
            s@ == "go-app"@,
    {
        "go-app"
    }

    pub fn description(&self) -> (s: &'static str)
        ensures
            s@ == "CI pipeline for Go applications with testing, linting, and security scanning"@,
    {
        "CI pipeline for Go applications with testing, linting, and security scanning"
    }

    /// The GitHub Actions workflow.
    pub fn to_github(&self) -> (w: GitHubWorkflow)
        ensures
            w@ == go_github(self@),
    {
        let v = self.go_version.as_str();
        let ghost p = self@;
        let mut jobs = Vec::new();
        if self.enable_linter {
            let mut s = Vec::new();
            s.push(checkout());
            s.push(setup_go(v));
            s.push(
                uses_step(
                    "Run golangci-lint",
                    "golangci/golangci-lint-action@v3",
                    Some(map1("version", "latest")),
                ),
            );
            assert(steps_v(s@) =~= go_github(p).jobs[0].1.steps);
            push_job(&mut jobs, "go/lint", job(s, 15));
        }
        let ghost j1 = jobs_v(jobs@);
        if self.enable_security_scan {
            let mut s = Vec::new();
            s.push(checkout());
            s.push(setup_go(v));
            s.push(uses_step("Run gosec", "securego/gosec@master", Some(map1("args", "./..."))));
            assert(steps_v(s@) =~= seq![
                checkout_v(),
                setup_go_v(p.go_version),
                sv("Run gosec"@, Some("securego/gosec@master"@), None, Some(seq![("args"@, "./..."@)])),
            ]);
            push_job(&mut jobs, "go/security", job(s, 10));
        }
        let ghost j2 = jobs_v(jobs@);
        let mut t = Vec::new();
        t.push(checkout());
        t.push(setup_go(v));
        t.push(run_step("Download dependencies", "go mod download"));
        t.push(run_step("Run tests", "go test -v ./..."));
        t.push(run_step("Build", "go build -v ./..."));
        assert(steps_v(t@) =~= seq![
            checkout_v(),
            setup_go_v(p.go_version),
            sv("Download dependencies"@, None, Some("go mod download"@), None),
            sv("Run tests"@, None, Some("go test -v ./..."@), None),
            sv("Build"@, None, Some("go build -v ./..."@), None),
        ]);
        push_job(&mut jobs, "go/test", job(t, 30));
        let w = GitHubWorkflow { name: "CI".to_owned(), on: branch_triggers(), env: None, jobs };
        assert(w@.jobs =~= go_github(p).jobs);
        w
    }

    /// The Gitea Actions workflow: Gitea uses the GitHub Actions format.
    pub fn to_gitea(&self) -> (w: GitHubWorkflow)
        ensures
            w@ == go_github(self@),
    {
        self.to_github()
    }

    /// The GitLab CI configuration.
    pub fn to_gitlab(&self) -> (c: GitLabCI)
        ensures
            c@ == go_gitlab(self@),
    {
        let ghost p = self@;
        let mut script = strs1("go test -v ./...");
        if self.enable_linter {
            insert_str(&mut script, 0, "golangci-lint run".to_owned());
        }
        let ghost s1 = strs_v(script@);
        if self.enable_security_scan {
            insert_str(&mut script, 0, "gosec ./...".to_owned());
        }
        assert(s1 =~= opt_seq(p.enable_linter, seq!["golangci-lint run"@]) + seq!["go test -v ./..."@]);
        assert(strs_v(script@) =~= go_gitlab_script(p));
        let mut jobs = Vec::new();
        push_gl_job(
            &mut jobs,
            "go/test",
            GitLabJob {
                stage: "test".to_owned(),
                image: Some(go_image(self.go_version.as_str())),
                script,
                before_script: None,
                after_script: None,
                needs: None,
                cache: Some(gl_cache("go-cache", strs1("~/go/pkg/mod"))),
                artifacts: None,
                only: None,
                timeout: None,
            },
        );
        let c = GitLabCI { stages: Some(strs1("test")), variables: None, cache: None, jobs };
        assert(c@.jobs =~= go_gitlab(p).jobs);
        c
    }

    /// The CircleCI configuration.
    pub fn to_circleci(&self) -> (c: CircleCIConfig)
        ensures
            c@ == go_circleci(self@),
    {
        let ghost p = self@;
        let mut steps = Vec::new();
        push_cstep(&mut steps, simple_step("checkout"));
        if self.enable_security_scan {
            push_cstep(&mut steps, detailed("Security scan", "gosec ./...".to_owned()));
        }
        if self.enable_linter {
            push_cstep(&mut steps, detailed("Lint", "golangci-lint run".to_owned()));
        }
        push_cstep(&mut steps, detailed("Run tests", "go test -v ./...".to_owned()));
        assert(csteps_v(steps@) =~= go_circleci(p).jobs[0].1.steps);
        let mut jobs = Vec::new();
        push_cjob(&mut jobs, "go/test", circle_job(go_image(self.go_version.as_str()), steps));
        let mut names = Vec::new();
        push_wjob(&mut names, "go/test");
        assert(cjobs_v(jobs@) =~= go_circleci(p).jobs);
        assert(wjobs_v(names@) =~= seq!["go/test"@]);
        circle_config(jobs, "main", names)
    }

    /// The Jenkins pipeline.
    pub fn to_jenkins(&self) -> (c: JenkinsConfig)
        ensures
            c@ == go_jenkins(self@),
    {
        let ghost p = self@;
        let mut steps: Vec<String> = Vec::new();
        if self.enable_security_scan {
            push_str(&mut steps, "sh 'gosec ./...'".to_owned());
        }
        if self.enable_linter {
            push_str(&mut steps, "sh 'golangci-lint run'".to_owned());
        }
        push_str(&mut steps, "sh 'go test -v ./...'".to_owned());
        assert(strs_v(steps@) =~= go_jenkins(p).stages[0].1);
        let mut stages = Vec::new();
        push_stage(&mut stages, stage("Test", steps));
        assert(stages_v(stages@) =~= go_jenkins(p).stages);
        jenkins(stages)
    }

    /// Whether a workflow sets up Go and runs `go test`.
    pub fn matches_github(&self, workflow: &GitHubWorkflow) -> (b: bool)
        ensures
            b == (any_uses(workflow@, "setup-go"@) && any_run(workflow@, "go test"@)),
    {
        let has_go_setup = workflow_uses(workflow, "setup-go");
        let has_go_test = workflow_runs(workflow, "go test");
        has_go_setup && has_go_test
    }

    /// Gitea workflows are recognised as GitHub workflows.
    pub fn matches_gitea(&self, workflow: &GitHubWorkflow) -> (b: bool)
        ensures
            b == (any_uses(workflow@, "setup-go"@) && any_run(workflow@, "go test"@)),
    {
        self.matches_github(workflow)
    }

    pub fn matches_gitlab(&self, _config: &GitLabCI) -> (b: bool)
        ensures
            !b,
    {
        false
    }

    pub fn matches_circleci(&self, _config: &CircleCIConfig) -> (b: bool)
        ensures
            !b,
    {
        false
    }

    pub fn matches_jenkins(&self, _config: &JenkinsConfig) -> (b: bool)
        ensures
            !b,
    {
        false
    }

    /// The editor's feature groups.
    pub fn features() -> (f: Vec<FeatureMeta>)
        ensures
            features_view(f@) == go_features(),
    {
        let mut f = Vec::new();
        f.push(
            feature1(
                "linting",
                "Linting",
                "Code quality checks with golangci-lint",
                option_meta("enable_linter", "Enable Linter", "Run golangci-lint for code quality", OptionValue::Bool(true)),
            ),
        );
        f.push(
            feature1(
                "security",
                "Security",
                "Security vulnerability scanning",
                option_meta("enable_security", "Security Scan", "Run gosec for security vulnerabilities", OptionValue::Bool(true)),
            ),
        );
        assert(features_view(f@) =~= go_features());
        f
    }

    /// The editor configuration: both checks on when detected, off otherwise.
    pub fn default_config(detected: bool) -> (c: PresetConfig)
        ensures
            c@ == go_default_config(detected),
    {
        let mut v = Vec::new();
        push_value(&mut v, "enable_linter", OptionValue::Bool(detected));
        push_value(&mut v, "enable_security", OptionValue::Bool(detected));
        let c = PresetConfig::from_entries("go-app".to_owned(), v);
        assert(c@.values =~= go_default_config(detected).values);
        c
    }

    /// The preset an editor configuration describes.
    pub fn from_config(config: &PresetConfig, version: &str) -> (p: GoAppPreset)
        ensures
            p@ == go_from_config(config@, version@),
    {
        let go_version = if version.is_empty() {
            "1.21".to_owned()
        } else {
            version.to_owned()
        };
        GoAppPreset {
            go_version,
            enable_linter: config.get_bool("enable_linter"),
            enable_security_scan: config.get_bool("enable_security"),
        }
    }

    /// Whether the preset applies to a project type.
    pub fn matches_project(project_type: ProjectType) -> (b: bool)
        ensures
            b == (project_type == ProjectType::GoApp || project_type == ProjectType::GoLibrary),
    {
        project_type == ProjectType::GoApp || project_type == ProjectType::GoLibrary
    }
}

} // verus!
