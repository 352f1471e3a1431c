//! The preset for Rust projects (binaries, libraries, and workspaces).
use crate::builders::{
    branch_triggers, branch_triggers_v, checkout, checkout_v, circle_config, circle_config_v,
    circle_job, cjob_v, cjobs_v, csteps_v, detailed, detailed_v, feature1, gl_cache, gl_jobs_v,
    glj_v, jenkins, job, job_v, jobs_v, map1, map2, option_meta, push_cjob, push_cstep, push_gl_job,
    push_job, push_stage, push_str, push_wjob, refs_v, run_step, simple_run, simple_step,
    stage, stages_v, steps_v, strs1, strs2, strs3, sv, uses_step, wjobs_v,
};
use crate::config::{
    push_value, bool_of, feature_v, features_view, meta_v, FeatureMeta, OptionValue, OptionView, PresetConfig,
    PresetConfigView,
};
use crate::detection::ProjectType;
use crate::matching::{any_run, any_uses, workflow_runs, workflow_uses};
use crate::models::{
    strs_v, CircleCICache, CircleCICacheSave, CircleCIConfig, CircleCIConfigView, CircleCIStep,
    CircleCIStepView, CircleCIRunView, GitHubStep, GitHubStepView, GitHubWorkflow,
    GitHubWorkflowView, GitLabArtifacts, GitLabArtifactsView, GitLabCI, GitLabCIView,
    GitLabCacheView, GitLabJob, GitLabOnly, JenkinsConfig, JenkinsConfigView, JenkinsStage,
};
use crate::text::{concat2, concat3};
use vstd::prelude::*;

verus! {

/// Unified preset for Rust projects (binaries, libraries, and workspaces).
pub struct RustPreset {
    pub rust_version: String,
    pub enable_coverage: bool,
    pub enable_linter: bool,
    pub enable_security_scan: bool,
    pub enable_format_check: bool,
    pub build_release: bool,
}

/// A Rust preset as plain values.
pub struct RustView {
    pub rust_version: Seq<char>,
    pub enable_coverage: bool,
    pub enable_linter: bool,
    pub enable_security_scan: bool,
    pub enable_format_check: bool,
    pub build_release: bool,
}

impl View for RustPreset {
    type V = RustView;

    open spec fn view(&self) -> RustView {
        RustView {
            rust_version: self.rust_version@,
            enable_coverage: self.enable_coverage,
            enable_linter: self.enable_linter,
            enable_security_scan: self.enable_security_scan,
            enable_format_check: self.enable_format_check,
            build_release: self.build_release,
        }
    }
}

pub open spec fn opt_seq<A>(b: bool, s: Seq<A>) -> Seq<A> {
    if b {
        s
    } else {
        Seq::empty()
    }
}

/// The command that installs a toolchain with rustup.
pub open spec fn rustup(version: Seq<char>, suffix: Seq<char>) -> Seq<char> {
    "curl --proto '=https' --tlsv1.2 -sSf https://sh.rustup.rs | sh -s -- -y --default-toolchain "@
        + version + suffix
}

fn rustup_exec(version: &str, suffix: &str) -> (r: String)
    ensures
        r@ == rustup(version@, suffix@),
{
    concat3(
        "curl --proto '=https' --tlsv1.2 -sSf https://sh.rustup.rs | sh -s -- -y --default-toolchain ",
        version,
        suffix,
    )
}

pub open spec fn toolchain_v(version: Seq<char>) -> GitHubStepView {
    sv(
        "Setup Rust toolchain"@,
        Some("dtolnay/rust-toolchain@stable"@),
        None,
        Some(seq![("toolchain"@, version)]),
    )
}

pub open spec fn toolchain_with_v(version: Seq<char>, component: Seq<char>) -> GitHubStepView {
    sv(
        "Setup Rust toolchain"@,
        Some("dtolnay/rust-toolchain@stable"@),
        None,
        Some(seq![("components"@, component), ("toolchain"@, version)]),
    )
}

/// The GitHub Actions workflow of a Rust preset.
pub open spec fn rust_github(p: RustView) -> GitHubWorkflowView {
    let test_steps = seq![
        checkout_v(),
        toolchain_v(p.rust_version),
        sv("Cache dependencies"@, Some("Swatinem/rust-cache@v2"@), None, None),
        sv("Run tests"@, None, Some("cargo test --all-features"@), None),
    ] + opt_seq(
        p.enable_coverage,
        seq![
            sv("Install tarpaulin"@, None, Some("cargo install cargo-tarpaulin"@), None),
            sv("Generate coverage"@, None, Some("cargo tarpaulin --out Xml --all-features"@), None),
            sv("Upload coverage to Codecov"@, Some("codecov/codecov-action@v3"@), None, None),
        ],
    ) + opt_seq(
        p.build_release,
        seq![sv("Build release binary"@, None, Some("cargo build --release"@), None)],
    );
    let format_job = job_v(
        seq![
            checkout_v(),
            toolchain_with_v(p.rust_version, "rustfmt"@),
            sv("Check formatting"@, None, Some("cargo fmt -- --check"@), None),
        ],
        10,
    );
    let lint_job = job_v(
        seq![
            checkout_v(),
            toolchain_with_v(p.rust_version, "clippy"@),
            sv("Run clippy"@, None, Some("cargo clippy --all-features -- -D warnings"@), None),
        ],
        15,
    );
    let security_job = job_v(
        seq![
            checkout_v(),
            sv(
                "Run cargo audit"@,
                Some("rustsec/audit-check@v1"@),
                None,
                Some(seq![("token"@, "${{ secrets.GITHUB_TOKEN }}"@)]),
            ),
        ],
        10,
    );
    GitHubWorkflowView {
        name: "CI"@,
        on: branch_triggers_v(),
        env: None,
        jobs: opt_seq(p.enable_format_check, seq![("rust/format"@, format_job)]) + opt_seq(
            p.enable_linter,
            seq![("rust/lint"@, lint_job)],
        ) + opt_seq(p.enable_security_scan, seq![("rust/security"@, security_job)]) + seq![
            ("rust/test"@, job_v(test_steps, 30)),
        ],
    }
}

pub open spec fn cache_v(key: Seq<char>, paths: Seq<Seq<char>>) -> Option<GitLabCacheView> {
    Some(GitLabCacheView { key, paths })
}

/// The GitLab CI configuration of a Rust preset.
pub open spec fn rust_gitlab(p: RustView) -> GitLabCIView {
    let v = p.rust_version;
    let only = Some(Some(refs_v()));
    let test_job = glj_v(
        "test"@,
        Some("rust:latest"@),
        seq![rustup(v, ""@), "source $HOME/.cargo/env"@, "cargo test --all-features"@] + opt_seq(
            p.enable_coverage,
            seq!["cargo install cargo-tarpaulin"@, "cargo tarpaulin --out Xml --all-features"@],
        ),
        cache_v("rust-cache"@, seq!["target/"@, ".cargo/"@]),
        if p.enable_coverage {
            Some(GitLabArtifactsView { paths: seq!["cobertura.xml"@], name: Some("coverage"@) })
        } else {
            None
        },
        only,
        Some("30m"@),
    );
    let build_job = glj_v(
        "build"@,
        Some("rust:"@ + v),
        seq!["cargo build --release"@],
        cache_v("rust-cache"@, seq!["target/"@]),
        Some(GitLabArtifactsView { paths: seq!["target/release/"@], name: None }),
        None,
        None,
    );
    let lint_job = glj_v(
        "lint"@,
        Some("rust:latest"@),
        seq![
            rustup(v, " --component clippy"@),
            "source $HOME/.cargo/env"@,
            "cargo clippy --all-features -- -D warnings"@,
        ],
        cache_v("rust-cache"@, seq!["target/"@, ".cargo/"@]),
        None,
        only,
        Some("15m"@),
    );
    let format_job = glj_v(
        "lint"@,
        Some("rust:latest"@),
        seq![rustup(v, " --component rustfmt"@), "source $HOME/.cargo/env"@, "cargo fmt -- --check"@],
        None,
        None,
        only,
        Some("10m"@),
    );
    let security_job = glj_v(
        "security"@,
        Some("rust:latest"@),
        seq!["cargo install cargo-audit"@, "cargo audit"@],
        cache_v("cargo-audit-cache"@, seq![".cargo/"@]),
        None,
        only,
        Some("10m"@),
    );
    GitLabCIView {
        stages: Some(
            seq!["test"@] + opt_seq(p.build_release, seq!["build"@]) + opt_seq(
                p.enable_linter || p.enable_format_check,
                seq!["lint"@],
            ) + opt_seq(p.enable_security_scan, seq!["security"@]),
        ),
        variables: None,
        cache: None,
        jobs: opt_seq(p.build_release, seq![("rust/build"@, build_job)]) + opt_seq(
            p.enable_format_check,
            seq![("rust/format"@, format_job)],
        ) + opt_seq(p.enable_linter, seq![("rust/lint"@, lint_job)]) + opt_seq(
            p.enable_security_scan,
            seq![("rust/security"@, security_job)],
        ) + seq![("rust/test"@, test_job)],
    }
}

pub open spec fn cargo_cache_key() -> Seq<char> {
    "v1-cargo-cache-{{ checksum \"Cargo.lock\" }}"@
}

pub open spec fn source_v() -> CircleCIStepView {
    CircleCIStepView::Command(CircleCIRunView::Simple("source $HOME/.cargo/env"@))
}

/// The CircleCI configuration of a Rust preset.
pub open spec fn rust_circleci(p: RustView) -> CircleCIConfigView {
    let v = p.rust_version;
    let test_steps = seq![
        CircleCIStepView::Simple("checkout"@),
        CircleCIStepView::Cache(seq![cargo_cache_key()]),
        detailed_v("Install Rust"@, rustup(v, ""@)),
        source_v(),
        detailed_v("Run tests"@, "cargo test --all-features"@),
    ] + opt_seq(
        p.enable_coverage,
        seq![
            detailed_v("Install tarpaulin"@, "cargo install cargo-tarpaulin"@),
            detailed_v("Generate coverage"@, "cargo tarpaulin --out Xml --all-features"@),
        ],
    ) + opt_seq(p.build_release, seq![detailed_v("Build release"@, "cargo build --release"@)])
        + seq![
        CircleCIStepView::SaveCache { key: cargo_cache_key(), paths: seq!["~/.cargo"@, "./target"@] },
    ];
    let lint_steps = seq![
        CircleCIStepView::Simple("checkout"@),
        detailed_v("Install Rust with clippy"@, rustup(v, " --component clippy"@)),
        source_v(),
        detailed_v("Run clippy"@, "cargo clippy --all-features -- -D warnings"@),
    ];
    let format_steps = seq![
        CircleCIStepView::Simple("checkout"@),
        detailed_v("Install Rust with rustfmt"@, rustup(v, " --component rustfmt"@)),
        source_v(),
        detailed_v("Check formatting"@, "cargo fmt -- --check"@),
    ];
    circle_config_v(
        opt_seq(p.enable_format_check, seq![("rust/format"@, cjob_v("rust:latest"@, format_steps))])
            + opt_seq(p.enable_linter, seq![("rust/lint"@, cjob_v("rust:latest"@, lint_steps))])
            + seq![("rust/test"@, cjob_v("rust:latest"@, test_steps))],
        "ci"@,
        seq!["rust/test"@] + opt_seq(p.enable_linter, seq!["rust/lint"@]) + opt_seq(
            p.enable_format_check,
            seq!["rust/format"@],
        ),
    )
}

/// The Jenkins pipeline of a Rust preset.
pub open spec fn rust_jenkins(p: RustView) -> JenkinsConfigView {
    let v = p.rust_version;
    JenkinsConfigView {
        agent: "any"@,
        environment: Seq::empty(),
        stages: seq![
            (
                "Test"@,
                seq![rustup(v, ""@), "source $HOME/.cargo/env"@, "cargo test --all-features"@]
                    + opt_seq(
                    p.enable_coverage,
                    seq!["cargo install cargo-tarpaulin"@, "cargo tarpaulin --out Xml --all-features"@],
                ) + opt_seq(p.build_release, seq!["cargo build --release"@]),
            ),
        ] + opt_seq(
            p.enable_linter,
            seq![
                (
                    "Lint"@,
                    seq![
                        rustup(v, " --component clippy"@),
                        "source $HOME/.cargo/env"@,
                        "cargo clippy --all-features -- -D warnings"@,
                    ],
                ),
            ],
        ) + opt_seq(
            p.enable_format_check,
            seq![
                (
                    "Format Check"@,
                    seq![
                        rustup(v, " --component rustfmt"@),
                        "source $HOME/.cargo/env"@,
                        "cargo fmt -- --check"@,
                    ],
                ),
            ],
        ) + opt_seq(
            p.enable_security_scan,
            seq![("Security Scan"@, seq!["cargo install cargo-audit"@, "cargo audit"@])],
        ),
    }
}

/// The editor configuration of a Rust preset: every flag is on when the
/// project was detected as a Rust project, off otherwise.
pub open spec fn rust_default_config(detected: bool) -> PresetConfigView {
    PresetConfigView {
        preset_id: "rust"@,
        values: seq![
            ("enable_coverage"@, OptionView::Bool(detected)),
            ("enable_linter"@, OptionView::Bool(detected)),
            ("enable_security"@, OptionView::Bool(detected)),
            ("enable_formatter"@, OptionView::Bool(detected)),
            ("build_release"@, OptionView::Bool(detected)),
        ],
    }
}

/// The Rust preset described by an editor configuration; the toolchain is the
/// language version, or `stable` when none is known.
pub open spec fn rust_from_config(c: PresetConfigView, version: Seq<char>) -> RustView {
    RustView {
        rust_version: if version.len() == 0 {
            "stable"@
        } else {
            version
        },
        enable_coverage: bool_of(c, "enable_coverage"@),
        enable_linter: bool_of(c, "enable_linter"@),
        enable_security_scan: bool_of(c, "enable_security"@),
        enable_format_check: bool_of(c, "enable_formatter"@),
        build_release: bool_of(c, "build_release"@),
    }
}

/// The editor's feature groups of the Rust preset.
pub open spec fn rust_features() -> Seq<crate::config::FeatureView> {
    seq![
        feature_v(
            "testing"@,
            "Testing"@,
            "Test coverage reporting"@,
            seq![
                meta_v(
                    "enable_coverage"@,
                    "Code Coverage"@,
                    "Enable code coverage reporting with tarpaulin"@,
                    OptionView::Bool(true),
                ),
            ],
        ),
        feature_v(
            "linting"@,
            "Linting"@,
            "Code quality checks"@,
            seq![
                meta_v(
                    "enable_linter"@,
                    "Clippy Linter"@,
                    "Run Clippy linter for code quality"@,
                    OptionView::Bool(true),
                ),
            ],
        ),
        feature_v(
            "security"@,
            "Security"@,
            "Security vulnerability scanning"@,
            seq![
                meta_v(
                    "enable_security"@,
                    "Security Scan"@,
                    "Run cargo-audit for dependency vulnerabilities"@,
                    OptionView::Bool(true),
                ),
            ],
        ),
        feature_v(
            "formatting"@,
            "Formatting"@,
            "Code formatting checks"@,
            seq![
                meta_v(
                    "enable_formatter"@,
                    "Rustfmt Check"@,
                    "Check code formatting with rustfmt"@,
                    OptionView::Bool(true),
                ),
            ],
        ),
        feature_v(
            "building"@,
            "Building"@,
            "Release binary builds"@,
            seq![
                meta_v(
                    "build_release"@,
                    "Build Release"@,
                    "Build optimized release binary in CI"@,
                    OptionView::Bool(true),
                ),
            ],
        ),
    ]
}

impl RustPreset {
    /// The default preset: the stable toolchain with every check enabled.
    pub fn default() -> (p: RustPreset)
        ensures
            p@ == (RustView {
                rust_version: "stable"@,
                enable_coverage: true,
                enable_linter: true,
                enable_security_scan: true,
                enable_format_check: true,
                build_release: true,
            }),
    {
        RustPreset {
            rust_version: "stable".to_owned(),
            enable_coverage: true,
            enable_linter: true,
            enable_security_scan: true,
            enable_format_check: true,
            build_release: true,
        }
    }

    pub fn name(&self) -> (s: &'static str)
        ensures
            s@ == "rust"@,
    {
        "rust"
    }

    pub fn description(&self) -> (s: &'static str)
        ensures
            s@ == "CI pipeline for Rust projects (binaries, libraries, and workspaces)"@,
    {
        "CI pipeline for Rust projects (binaries, libraries, and workspaces)"
    }

    /// The GitHub Actions workflow.
    pub fn to_github(&self) -> (w: GitHubWorkflow)
        ensures
            w@ == rust_github(self@),
    {
        let v = self.rust_version.as_str();
        let mut test_steps: Vec<GitHubStep> = Vec::new();
        test_steps.push(checkout());
        test_steps.push(
            uses_step("Setup Rust toolchain", "dtolnay/rust-toolchain@stable", Some(map1("toolchain", v))),
        );
        test_steps.push(uses_step("Cache dependencies", "Swatinem/rust-cache@v2", None));
        test_steps.push(run_step("Run tests", "cargo test --all-features"));
        let ghost base = steps_v(test_steps@);
        if self.enable_coverage {
            test_steps.push(run_step("Install tarpaulin", "cargo install cargo-tarpaulin"));
            test_steps.push(run_step("Generate coverage", "cargo tarpaulin --out Xml --all-features"));
            test_steps.push(uses_step("Upload coverage to Codecov", "codecov/codecov-action@v3", None));
        }
        let ghost with_cov = steps_v(test_steps@);
        if self.build_release {
            test_steps.push(run_step("Build release binary", "cargo build --release"));
        }
        let ghost p = self@;
        assert(base =~= seq![
            checkout_v(),
            toolchain_v(p.rust_version),
            sv("Cache dependencies"@, Some("Swatinem/rust-cache@v2"@), None, None),
            sv("Run tests"@, None, Some("cargo test --all-features"@), None),
        ]);
        assert(with_cov =~= base + opt_seq(
            p.enable_coverage,
            seq![
                sv("Install tarpaulin"@, None, Some("cargo install cargo-tarpaulin"@), None),
                sv("Generate coverage"@, None, Some("cargo tarpaulin --out Xml --all-features"@), None),
                sv("Upload coverage to Codecov"@, Some("codecov/codecov-action@v3"@), None, None),
            ],
        ));
        assert(steps_v(test_steps@) =~= with_cov + opt_seq(
            p.build_release,
            seq![sv("Build release binary"@, None, Some("cargo build --release"@), None)],
        ));
        let mut jobs = Vec::new();
        if self.enable_format_check {
            let mut s = Vec::new();
            s.push(checkout());
            s.push(
                uses_step(
                    "Setup Rust toolchain",
                    "dtolnay/rust-toolchain@stable",
                    Some(map2("components", "rustfmt", "toolchain", v)),
                ),
            );
            s.push(run_step("Check formatting", "cargo fmt -- --check"));
            assert(steps_v(s@) =~= rust_github(p).jobs[0].1.steps);
            push_job(&mut jobs, "rust/format", job(s, 10));
        }
        let ghost j1 = jobs_v(jobs@);
        if self.enable_linter {
            let mut s = Vec::new();
            s.push(checkout());
            s.push(
                uses_step(
                    "Setup Rust toolchain",
                    "dtolnay/rust-toolchain@stable",
                    Some(map2("components", "clippy", "toolchain", v)),
                ),
            );
            s.push(run_step("Run clippy", "cargo clippy --all-features -- -D warnings"));
            assert(steps_v(s@) =~= seq![
                checkout_v(),
                toolchain_with_v(p.rust_version, "clippy"@),
                sv("Run clippy"@, None, Some("cargo clippy --all-features -- -D warnings"@), None),
            ]);
            push_job(&mut jobs, "rust/lint", job(s, 15));
        }
        let ghost j2 = jobs_v(jobs@);
        if self.enable_security_scan {
            let mut s = Vec::new();
            s.push(checkout());
            s.push(
                uses_step(
                    "Run cargo audit",
                    "rustsec/audit-check@v1",
                    Some(map1("token", "${{ secrets.GITHUB_TOKEN }}")),
                ),
            );
            assert(steps_v(s@) =~= seq![
                checkout_v(),
                sv(
                    "Run cargo audit"@,
                    Some("rustsec/audit-check@v1"@),
                    None,
                    Some(seq![("token"@, "${{ secrets.GITHUB_TOKEN }}"@)]),
                ),
            ]);
            push_job(&mut jobs, "rust/security", job(s, 10));
        }
        let ghost j3 = jobs_v(jobs@);
        push_job(&mut jobs, "rust/test", job(test_steps, 30));
        let w = GitHubWorkflow { name: "CI".to_owned(), on: branch_triggers(), env: None, jobs };
        assert(w@.jobs =~= rust_github(p).jobs);
        w
    }

    /// The Gitea Actions workflow: Gitea uses the GitHub Actions format.
    pub fn to_gitea(&self) -> (w: GitHubWorkflow)
        ensures
            w@ == rust_github(self@),
    {
        self.to_github()
    }

    /// The GitLab CI configuration.
    pub fn to_gitlab(&self) -> (c: GitLabCI)
        ensures
            c@ == rust_gitlab(self@),
    {
        let v = self.rust_version.as_str();
        let ghost p = self@;
        let mut stages = strs1("test");
        let mut test_script = Vec::new();
        test_script.push(rustup_exec(v, ""));
        test_script.push("source $HOME/.cargo/env".to_owned());
        test_script.push("cargo test --all-features".to_owned());
        if self.enable_coverage {
            test_script.push("cargo install cargo-tarpaulin".to_owned());
            test_script.push("cargo tarpaulin --out Xml --all-features".to_owned());
        }
        assert(strs_v(test_script@) =~= rust_gitlab(p).jobs.last().1.script);
        if self.build_release {
            push_str(&mut stages, "build".to_owned());
        }
        if self.enable_linter || self.enable_format_check {
            push_str(&mut stages, "lint".to_owned());
        }
        if self.enable_security_scan {
            push_str(&mut stages, "security".to_owned());
        }
        assert(strs_v(stages@) =~= rust_gitlab(p).stages->Some_0);
        let mut jobs = Vec::new();
        if self.build_release {
            let mut image = "rust:".to_owned();
            image.append(v);
            push_gl_job(
                &mut jobs,
                "rust/build",
                GitLabJob {
                    stage: "build".to_owned(),
                    image: Some(image),
                    script: strs1("cargo build --release"),
                    before_script: None,
                    after_script: None,
                    needs: None,
                    cache: Some(gl_cache("rust-cache", strs1("target/"))),
                    artifacts: Some(GitLabArtifacts { paths: strs1("target/release/"), name: None }),
                    only: None,
                    timeout: None,
                },
            );
        }
        let ghost a1 = gl_jobs_v(jobs@);
        if self.enable_format_check {
            let mut script = Vec::new();
            script.push(rustup_exec(v, " --component rustfmt"));
            script.push("source $HOME/.cargo/env".to_owned());
            script.push("cargo fmt -- --check".to_owned());
            assert(strs_v(script@) =~= seq![
                rustup(p.rust_version, " --component rustfmt"@),
                "source $HOME/.cargo/env"@,
                "cargo fmt -- --check"@,
            ]);
            push_gl_job(
                &mut jobs,
                "rust/format",
                GitLabJob {
                    stage: "lint".to_owned(),
                    image: Some("rust:latest".to_owned()),
                    script,
                    before_script: None,
                    after_script: None,
                    needs: None,
                    cache: None,
                    artifacts: None,
                    only: Some(GitLabOnly { refs: Some(strs3("main", "master", "merge_requests")) }),
                    timeout: Some("10m".to_owned()),
                },
            );
        }
        let ghost a2 = gl_jobs_v(jobs@);
        if self.enable_linter {
            let mut script = Vec::new();
            script.push(rustup_exec(v, " --component clippy"));
            script.push("source $HOME/.cargo/env".to_owned());
            script.push("cargo clippy --all-features -- -D warnings".to_owned());
            assert(strs_v(script@) =~= seq![
                rustup(p.rust_version, " --component clippy"@),
                "source $HOME/.cargo/env"@,
                "cargo clippy --all-features -- -D warnings"@,
            ]);
            push_gl_job(
                &mut jobs,
                "rust/lint",
                GitLabJob {
                    stage: "lint".to_owned(),
                    image: Some("rust:latest".to_owned()),
                    script,
                    before_script: None,
                    after_script: None,
                    needs: None,
                    cache: Some(gl_cache("rust-cache", strs2("target/", ".cargo/"))),
                    artifacts: None,
                    only: Some(GitLabOnly { refs: Some(strs3("main", "master", "merge_requests")) }),
                    timeout: Some("15m".to_owned()),
                },
            );
        }
        let ghost a3 = gl_jobs_v(jobs@);
        if self.enable_security_scan {
            push_gl_job(
                &mut jobs,
                "rust/security",
                GitLabJob {
                    stage: "security".to_owned(),
                    image: Some("rust:latest".to_owned()),
                    script: strs2("cargo install cargo-audit", "cargo audit"),
                    before_script: None,
                    after_script: None,
                    needs: None,
                    cache: Some(gl_cache("cargo-audit-cache", strs1(".cargo/"))),
                    artifacts: None,
                    only: Some(GitLabOnly { refs: Some(strs3("main", "master", "merge_requests")) }),
                    timeout: Some("10m".to_owned()),
                },
            );
        }
        let ghost a4 = gl_jobs_v(jobs@);
        let artifacts = if self.enable_coverage {
            Some(GitLabArtifacts { paths: strs1("cobertura.xml"), name: Some("coverage".to_owned()) })
        } else {
            None
        };
        push_gl_job(
            &mut jobs,
            "rust/test",
            GitLabJob {
                stage: "test".to_owned(),
                image: Some("rust:latest".to_owned()),
                script: test_script,
                before_script: None,
                after_script: None,
                needs: None,
                cache: Some(gl_cache("rust-cache", strs2("target/", ".cargo/"))),
                artifacts,
                only: Some(GitLabOnly { refs: Some(strs3("main", "master", "merge_requests")) }),
                timeout: Some("30m".to_owned()),
            },
        );
        let c = GitLabCI { stages: Some(stages), variables: None, cache: None, jobs };
        assert(c@.jobs =~= rust_gitlab(p).jobs);
        c
    }

    /// The CircleCI configuration.
    pub fn to_circleci(&self) -> (c: CircleCIConfig)
        ensures
            c@ == rust_circleci(self@),
    {
        let v = self.rust_version.as_str();
        let ghost p = self@;
        let mut test_steps = Vec::new();
        push_cstep(&mut test_steps, simple_step("checkout"));
        push_cstep(
            &mut test_steps,
            CircleCIStep::Cache {
                restore_cache: CircleCICache { keys: strs1("v1-cargo-cache-{{ checksum \"Cargo.lock\" }}") },
            },
        );
        push_cstep(&mut test_steps, detailed("Install Rust", rustup_exec(v, "")));
        push_cstep(&mut test_steps, simple_run("source $HOME/.cargo/env"));
        push_cstep(&mut test_steps, detailed("Run tests", "cargo test --all-features".to_owned()));
        if self.enable_coverage {
            push_cstep(
                &mut test_steps,
                detailed("Install tarpaulin", "cargo install cargo-tarpaulin".to_owned()),
            );
            push_cstep(
                &mut test_steps,
                detailed("Generate coverage", "cargo tarpaulin --out Xml --all-features".to_owned()),
            );
        }
        if self.build_release {
            push_cstep(&mut test_steps, detailed("Build release", "cargo build --release".to_owned()));
        }
        push_cstep(
            &mut test_steps,
            CircleCIStep::SaveCache {
                save_cache: CircleCICacheSave {
                    key: "v1-cargo-cache-{{ checksum \"Cargo.lock\" }}".to_owned(),
                    paths: strs2("~/.cargo", "./target"),
                },
            },
        );
        assert(csteps_v(test_steps@) =~= rust_circleci(p).jobs.last().1.steps);
        let mut jobs = Vec::new();
        let mut names = Vec::new();
        push_wjob(&mut names, "rust/test");
        if self.enable_format_check {
            let mut s = Vec::new();
            push_cstep(&mut s, simple_step("checkout"));
            push_cstep(&mut s, detailed("Install Rust with rustfmt", rustup_exec(v, " --component rustfmt")));
            push_cstep(&mut s, simple_run("source $HOME/.cargo/env"));
            push_cstep(&mut s, detailed("Check formatting", "cargo fmt -- --check".to_owned()));
            assert(csteps_v(s@) =~= seq![
                CircleCIStepView::Simple("checkout"@),
                detailed_v("Install Rust with rustfmt"@, rustup(p.rust_version, " --component rustfmt"@)),
                source_v(),
                detailed_v("Check formatting"@, "cargo fmt -- --check"@),
            ]);
            push_cjob(&mut jobs, "rust/format", circle_job("rust:latest".to_owned(), s));
        }
        let ghost b1 = cjobs_v(jobs@);
        if self.enable_linter {
            let mut s = Vec::new();
            push_cstep(&mut s, simple_step("checkout"));
            push_cstep(&mut s, detailed("Install Rust with clippy", rustup_exec(v, " --component clippy")));
            push_cstep(&mut s, simple_run("source $HOME/.cargo/env"));
            push_cstep(
                &mut s,
                detailed("Run clippy", "cargo clippy --all-features -- -D warnings".to_owned()),
            );
            assert(csteps_v(s@) =~= seq![
                CircleCIStepView::Simple("checkout"@),
                detailed_v("Install Rust with clippy"@, rustup(p.rust_version, " --component clippy"@)),
                source_v(),
                detailed_v("Run clippy"@, "cargo clippy --all-features -- -D warnings"@),
            ]);
            push_cjob(&mut jobs, "rust/lint", circle_job("rust:latest".to_owned(), s));
            push_wjob(&mut names, "rust/lint");
        }
        let ghost b2 = cjobs_v(jobs@);
        if self.enable_format_check {
            push_wjob(&mut names, "rust/format");
        }
        push_cjob(&mut jobs, "rust/test", circle_job("rust:latest".to_owned(), test_steps));
        assert(wjobs_v(names@) =~= rust_circleci(p).workflows[0].1);
        assert(cjobs_v(jobs@) =~= rust_circleci(p).jobs);
        circle_config(jobs, "ci", names)
    }

    /// The Jenkins pipeline.
    pub fn to_jenkins(&self) -> (c: JenkinsConfig)
        ensures
            c@ == rust_jenkins(self@),
    {
        let v = self.rust_version.as_str();
        let ghost p = self@;
        let mut stages = Vec::new();
        let mut test_steps = Vec::new();
        push_str(&mut test_steps, rustup_exec(v, ""));
        push_str(&mut test_steps, "source $HOME/.cargo/env".to_owned());
        push_str(&mut test_steps, "cargo test --all-features".to_owned());
        if self.enable_coverage {
            push_str(&mut test_steps, "cargo install cargo-tarpaulin".to_owned());
            push_str(&mut test_steps, "cargo tarpaulin --out Xml --all-features".to_owned());
        }
        if self.build_release {
            push_str(&mut test_steps, "cargo build --release".to_owned());
        }
        assert(strs_v(test_steps@) =~= rust_jenkins(p).stages[0].1);
        push_stage(&mut stages, stage("Test", test_steps));
        let ghost s1 = stages_v(stages@);
        if self.enable_linter {
            let mut s = Vec::new();
            push_str(&mut s, rustup_exec(v, " --component clippy"));
            push_str(&mut s, "source $HOME/.cargo/env".to_owned());
            push_str(&mut s, "cargo clippy --all-features -- -D warnings".to_owned());
            assert(strs_v(s@) =~= seq![
                rustup(p.rust_version, " --component clippy"@),
                "source $HOME/.cargo/env"@,
                "cargo clippy --all-features -- -D warnings"@,
            ]);
            push_stage(&mut stages, stage("Lint", s));
        }
        let ghost s2 = stages_v(stages@);
        assert(s2 =~= s1 + opt_seq(
            p.enable_linter,
            seq![
                (
                    "Lint"@,
                    seq![
                        rustup(p.rust_version, " --component clippy"@),
                        "source $HOME/.cargo/env"@,
                        "cargo clippy --all-features -- -D warnings"@,
                    ],
                ),
            ],
        ));
        if self.enable_format_check {
            let mut s = Vec::new();
            push_str(&mut s, rustup_exec(v, " --component rustfmt"));
            push_str(&mut s, "source $HOME/.cargo/env".to_owned());
            push_str(&mut s, "cargo fmt -- --check".to_owned());
            assert(strs_v(s@) =~= seq![
                rustup(p.rust_version, " --component rustfmt"@),
                "source $HOME/.cargo/env"@,
                "cargo fmt -- --check"@,
            ]);
            push_stage(&mut stages, stage("Format Check", s));
        }
        let ghost s3 = stages_v(stages@);
        assert(s3 =~= s2 + opt_seq(
            p.enable_format_check,
            seq![
                (
                    "Format Check"@,
                    seq![
                        rustup(p.rust_version, " --component rustfmt"@),
                        "source $HOME/.cargo/env"@,
                        "cargo fmt -- --check"@,
                    ],
                ),
            ],
        ));
        if self.enable_security_scan {
            push_stage(&mut stages, stage("Security Scan", strs2("cargo install cargo-audit", "cargo audit")));
        }
        assert(stages_v(stages@) =~= rust_jenkins(p).stages);
        jenkins(stages)
    }

    /// Whether a workflow sets up a Rust toolchain and runs `cargo test`.
    pub fn matches_github(&self, workflow: &GitHubWorkflow) -> (b: bool)
        ensures
            b == (any_uses(workflow@, "rust-toolchain"@) && any_run(workflow@, "cargo test"@)),
    {
        let has_rust_toolchain = workflow_uses(workflow, "rust-toolchain");
        let has_cargo_test = workflow_runs(workflow, "cargo test");
        has_rust_toolchain && has_cargo_test
    }

    /// Gitea workflows are recognised as GitHub workflows.
    pub fn matches_gitea(&self, workflow: &GitHubWorkflow) -> (b: bool)
        ensures
            b == (any_uses(workflow@, "rust-toolchain"@) && any_run(workflow@, "cargo test"@)),
    {
        self.matches_github(workflow)
    }

    pub fn matches_gitlab(&self, _config: &GitLabCI) -> (b: bool)
        ensures
            !b,
    {
        false
    }

    pub fn matches_circleci(&self, _config: &CircleCIConfig) -> (b: bool)
        ensures
            !b,
    {
        false
    }

    pub fn matches_jenkins(&self, _config: &JenkinsConfig) -> (b: bool)
        ensures
            !b,
    {
        false
    }

    /// The editor's feature groups.
    pub fn features() -> (f: Vec<FeatureMeta>)
        ensures
            features_view(f@) == rust_features(),
    {
        let mut f = Vec::new();
        f.push(
            feature1(
                "testing",
                "Testing",
                "Test coverage reporting",
                option_meta(
                    "enable_coverage",
                    "Code Coverage",
                    "Enable code coverage reporting with tarpaulin",
                    OptionValue::Bool(true),
                ),
            ),
        );
        f.push(
            feature1(
                "linting",
                "Linting",
                "Code quality checks",
                option_meta(
                    "enable_linter",
                    "Clippy Linter",
                    "Run Clippy linter for code quality",
                    OptionValue::Bool(true),
                ),
            ),
        );
        f.push(
            feature1(
                "security",
                "Security",
                "Security vulnerability scanning",
                option_meta(
                    "enable_security",
                    "Security Scan",
                    "Run cargo-audit for dependency vulnerabilities",
                    OptionValue::Bool(true),
                ),
            ),
        );
        f.push(
            feature1(
                "formatting",
                "Formatting",
                "Code formatting checks",
                option_meta(
                    "enable_formatter",
                    "Rustfmt Check",
                    "Check code formatting with rustfmt",
                    OptionValue::Bool(true),
                ),
            ),
        );
        f.push(
            feature1(
                "building",
                "Building",
                "Release binary builds",
                option_meta(
                    "build_release",
                    "Build Release",
                    "Build optimized release binary in CI",
                    OptionValue::Bool(true),
                ),
            ),
        );
        assert(features_view(f@) =~= rust_features());
        f
    }

    /// The editor configuration: every flag on when detected, off otherwise.
    pub fn default_config(detected: bool) -> (c: PresetConfig)
        ensures
            c@ == rust_default_config(detected),
    {
        let mut v = Vec::new();
        push_value(&mut v, "enable_coverage", OptionValue::Bool(detected));
        push_value(&mut v, "enable_linter", OptionValue::Bool(detected));
        push_value(&mut v, "enable_security", OptionValue::Bool(detected));
        push_value(&mut v, "enable_formatter", OptionValue::Bool(detected));
        push_value(&mut v, "build_release", OptionValue::Bool(detected));
        let c = PresetConfig::from_entries("rust".to_owned(), v);
        assert(c@.values =~= rust_default_config(detected).values);
        c
    }

    /// The preset an editor configuration describes.
    pub fn from_config(config: &PresetConfig, version: &str) -> (p: RustPreset)
        ensures
            p@ == rust_from_config(config@, version@),
    {
        let rust_version = if version.is_empty() {
            "stable".to_owned()
        } else {
            version.to_owned()
        };
        RustPreset {
            rust_version,
            enable_coverage: config.get_bool("enable_coverage"),
            enable_linter: config.get_bool("enable_linter"),
            enable_security_scan: config.get_bool("enable_security"),
            enable_format_check: config.get_bool("enable_formatter"),
            build_release: config.get_bool("build_release"),
        }
    }

    /// Whether the preset applies to a project type.
    pub fn matches_project(project_type: ProjectType) -> (b: bool)
        ensures
            b == (project_type == ProjectType::RustBinary || project_type == ProjectType::RustLibrary
                || project_type == ProjectType::RustWorkspace),
    {
        project_type == ProjectType::RustBinary || project_type == ProjectType::RustLibrary
            || project_type == ProjectType::RustWorkspace
    }
}

/// A stage of a Jenkins pipeline with the name, running the step.
pub open spec fn has_stage_step(st: Seq<(Seq<char>, Seq<Seq<char>>)>, name: Seq<char>, step: Seq<char>) -> bool {
    exists|i: int| 0 <= i < st.len() && (#[trigger] st[i]).0 == name && st[i].1.contains(step)
}

/// A stage of a Jenkins pipeline has the name.
pub open spec fn has_stage(st: Seq<(Seq<char>, Seq<Seq<char>>)>, name: Seq<char>) -> bool {
    exists|i: int| 0 <= i < st.len() && (#[trigger] st[i]).0 == name
}

/// The Rust Jenkins pipeline runs each check exactly when its flag is on:
/// Clippy (`cargo clippy --all-features -- -D warnings`) in a stage "Lint",
/// rustfmt (`cargo fmt -- --check`) in a stage "Format Check", and
/// `cargo audit` in a stage "Security Scan"; with a flag off there is no stage
/// of that name. The first stage, "Test", always runs `cargo test
/// --all-features`, then tarpaulin when coverage is on and a release build
/// when that is on.
pub proof fn law_rust_jenkins_lint(p: RustView)
    ensures
        has_stage(rust_jenkins(p).stages, "Lint"@) == p.enable_linter,
        p.enable_linter ==> has_stage_step(
            rust_jenkins(p).stages,
            "Lint"@,
            "cargo clippy --all-features -- -D warnings"@,
        ),
        has_stage(rust_jenkins(p).stages, "Format Check"@) == p.enable_format_check,
        p.enable_format_check ==> has_stage_step(rust_jenkins(p).stages, "Format Check"@, "cargo fmt -- --check"@),
        has_stage(rust_jenkins(p).stages, "Security Scan"@) == p.enable_security_scan,
        p.enable_security_scan ==> has_stage_step(rust_jenkins(p).stages, "Security Scan"@, "cargo audit"@),
        rust_jenkins(p).stages[0].0 == "Test"@,
        rust_jenkins(p).stages[0].1.contains("cargo test --all-features"@),
        rust_jenkins(p).stages[0].1.contains("cargo tarpaulin --out Xml --all-features"@) == p.enable_coverage,
        rust_jenkins(p).stages[0].1.contains("cargo build --release"@) == p.build_release,
{
    reveal_strlit("Lint");
    reveal_strlit("Test");
    reveal_strlit("Format Check");
    reveal_strlit("Security Scan");
    reveal_strlit("cargo tarpaulin --out Xml --all-features");
    reveal_strlit("cargo build --release");
    reveal_strlit("cargo test --all-features");
    reveal_strlit("source $HOME/.cargo/env");
    reveal_strlit("cargo install cargo-tarpaulin");
    reveal_strlit("curl --proto '=https' --tlsv1.2 -sSf https://sh.rustup.rs | sh -s -- -y --default-toolchain ");
    let st = rust_jenkins(p).stages;
    let names = seq!["Test"@, "Lint"@, "Format Check"@, "Security Scan"@];
    assert(names[0][0] != names[1][0]);
    assert(names[0].len() != names[2].len() && names[0].len() != names[3].len());
    assert(names[1].len() != names[2].len() && names[1].len() != names[3].len());
    assert(names[2].len() != names[3].len());
    assert forall|i: int| 0 <= i < st.len() implies #[trigger] names.contains(st[i].0) by {
        if i == 0 {
            assert(names[0] == st[i].0);
        } else if st[i].0 == "Lint"@ {
            assert(names[1] == st[i].0);
        } else if st[i].0 == "Format Check"@ {
            assert(names[2] == st[i].0);
        } else {
            assert(names[3] == st[i].0);
        }
    }
    let t = st[0].1;
    assert(t[2] == "cargo test --all-features"@);
    let l = if p.enable_linter { 1int } else { 0int };
    let f = if p.enable_format_check { 1int } else { 0int };
    if p.enable_linter {
        assert(st[1].0 == "Lint"@ && st[1].1[2] == "cargo clippy --all-features -- -D warnings"@);
    }
    if p.enable_format_check {
        assert(st[1 + l].0 == "Format Check"@ && st[1 + l].1[2] == "cargo fmt -- --check"@);
    }
    if p.enable_security_scan {
        assert(st[1 + l + f].0 == "Security Scan"@ && st[1 + l + f].1[1] == "cargo audit"@);
    }
    assert forall|i: int| 0 <= i < st.len() && (#[trigger] st[i]).0 == "Lint"@ implies p.enable_linter by {}
    assert forall|i: int| 0 <= i < st.len() && (#[trigger] st[i]).0 == "Format Check"@ implies p.enable_format_check by {}
    assert forall|i: int| 0 <= i < st.len() && (#[trigger] st[i]).0 == "Security Scan"@ implies p.enable_security_scan by {}
    let base = seq![rustup(p.rust_version, ""@), "source $HOME/.cargo/env"@, "cargo test --all-features"@];
    let cov = seq!["cargo install cargo-tarpaulin"@, "cargo tarpaulin --out Xml --all-features"@];
    assert("cargo tarpaulin --out Xml --all-features"@.len() == 40);
    assert("cargo build --release"@.len() == 21);
    assert("cargo test --all-features"@.len() == 25);
    assert("source $HOME/.cargo/env"@.len() == 23);
    assert("cargo install cargo-tarpaulin"@.len() == 29);
    assert(base[0].len() >= 92);
    assert(t.subrange(0, 3) =~= base);
    if p.enable_coverage {
        assert(t[4] == "cargo tarpaulin --out Xml --all-features"@);
    } else {
        assert forall|k: int| 0 <= k < t.len() implies t[k] != "cargo tarpaulin --out Xml --all-features"@ by {
            if k < 3 {
                assert(t[k] == base[k]);
            } else {
                assert(t[k] == "cargo build --release"@);
            }
        }
    }
    if p.build_release {
        assert(t[t.len() - 1] == "cargo build --release"@);
    } else {
        assert forall|k: int| 0 <= k < t.len() implies t[k] != "cargo build --release"@ by {
            if k < 3 {
                assert(t[k] == base[k]);
            } else {
                assert(t[k] == cov[k - 3]);
            }
        }
    }
}

} // verus!
