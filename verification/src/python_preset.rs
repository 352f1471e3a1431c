//! The preset for Python applications, and the Python tools it can run.
use crate::builders::{
    branch_triggers, branch_triggers_v, checkout, checkout_v, circle_config, circle_config_v,
    circle_job, cjob_v, cjobs_v, csteps_v, detailed, detailed_v, enum_value, feature, feature1,
    glj_v, gl_jobs_v, jenkins, job, job_v, jobs_v, map1, option_meta, push_cjob, push_cstep,
    push_gl_job, push_job, push_stage, push_str, push_wjob, run_step, simple_step, stage, stages_v,
    steps_v, strs1, strs2, sv, uses_step, wjobs_v, insert_str,
};
use crate::config::{
    bool_of, enum_of, feature_v, features_view, meta_v, push_value, FeatureMeta, OptionMeta,
    OptionValue, OptionView, PresetConfig, PresetConfigView,
};
use crate::detection::ProjectType;
use crate::matching::{any_run, any_uses, workflow_runs, workflow_uses};
use crate::models::{
    strs_v, CircleCIConfig, CircleCIConfigView, CircleCIStepView, GitHubStep, GitHubStepView,
    GitHubWorkflow, GitHubWorkflowView, GitLabCI, GitLabCIView, GitLabJob, JenkinsConfig,
    JenkinsConfigView,
};
use crate::rust_preset::opt_seq;
use crate::text::{concat2, concat3};
use vstd::prelude::*;

verus! {

/// Linter tool options for Python.
#[derive(PartialEq, Eq, Structural, Clone, Copy, Debug)]
pub enum PythonLinter {
    Flake8,
    Ruff,
}

pub open spec fn linter_name(l: PythonLinter) -> Seq<char> {
    match l {
        PythonLinter::Flake8 => "flake8"@,
        PythonLinter::Ruff => "ruff"@,
    }
}

pub open spec fn linter_command(l: PythonLinter) -> Seq<char> {
    match l {
        PythonLinter::Flake8 => "flake8 ."@,
        PythonLinter::Ruff => "ruff check ."@,
    }
}

pub open spec fn linter_toggled(l: PythonLinter) -> PythonLinter {
    match l {
        PythonLinter::Flake8 => PythonLinter::Ruff,
        PythonLinter::Ruff => PythonLinter::Flake8,
    }
}

pub open spec fn linter_of(s: Seq<char>) -> Option<PythonLinter> {
    if s == "flake8"@ {
        Some(PythonLinter::Flake8)
    } else if s == "ruff"@ {
        Some(PythonLinter::Ruff)
    } else {
        None
    }
}

impl PythonLinter {
    /// The tool's package and command name.
    pub fn name(&self) -> (s: &'static str)
        ensures
            s@ == linter_name(*self),
    {
        match self {
            PythonLinter::Flake8 => "flake8",
            PythonLinter::Ruff => "ruff",
        }
    }

    /// The command that checks the project.
    pub fn check_command(&self) -> (s: &'static str)
        ensures
            s@ == linter_command(*self),
    {
        match self {
            PythonLinter::Flake8 => "flake8 .",
            PythonLinter::Ruff => "ruff check .",
        }
    }

    /// The other linter.
    pub fn toggle(&self) -> (r: Self)
        ensures
            r == linter_toggled(*self),
    {
        match self {
            PythonLinter::Flake8 => PythonLinter::Ruff,
            PythonLinter::Ruff => PythonLinter::Flake8,
        }
    }

    /// The identifier used in configurations.
    pub fn as_str(&self) -> (s: &'static str)
        ensures
            s@ == linter_name(*self),
    {
        self.name()
    }

    /// The linter with that identifier.
    pub fn from_str(s: &str) -> (r: Option<Self>)
        ensures
            r == linter_of(s@),
    {
        if crate::text::str_eq(s, "flake8") {
            Some(PythonLinter::Flake8)
        } else if crate::text::str_eq(s, "ruff") {
            Some(PythonLinter::Ruff)
        } else {
            None
        }
    }

    /// The identifiers of all linters.
    pub fn all_variants() -> (v: Vec<String>)
        ensures
            strs_v(v@) == seq!["flake8"@, "ruff"@],
    {
        strs2("flake8", "ruff")
    }

    /// The default linter, Flake8.
    pub fn default() -> (r: Self)
        ensures
            r == PythonLinter::Flake8,
    {
        PythonLinter::Flake8
    }
}

/// Formatter tool options for Python.
#[derive(PartialEq, Eq, Structural, Clone, Copy, Debug)]
pub enum PythonFormatter {
    Black,
    Ruff,
}

pub open spec fn formatter_name(f: PythonFormatter) -> Seq<char> {
    match f {
        PythonFormatter::Black => "black"@,
        PythonFormatter::Ruff => "ruff"@,
    }
}

pub open spec fn formatter_command(f: PythonFormatter) -> Seq<char> {
    match f {
        PythonFormatter::Black => "black --check ."@,
        PythonFormatter::Ruff => "ruff format --check ."@,
    }
}

pub open spec fn formatter_toggled(f: PythonFormatter) -> PythonFormatter {
    match f {
        PythonFormatter::Black => PythonFormatter::Ruff,
        PythonFormatter::Ruff => PythonFormatter::Black,
    }
}

pub open spec fn formatter_of(s: Seq<char>) -> Option<PythonFormatter> {
    if s == "black"@ {
        Some(PythonFormatter::Black)
    } else if s == "ruff"@ {
        Some(PythonFormatter::Ruff)
    } else {
        None
    }
}

impl PythonFormatter {
    /// The tool's package and command name.
    pub fn name(&self) -> (s: &'static str)
        ensures
            s@ == formatter_name(*self),
    {
        match self {
            PythonFormatter::Black => "black",
            PythonFormatter::Ruff => "ruff",
        }
    }

    /// The command that checks the formatting.
    pub fn check_command(&self) -> (s: &'static str)
        ensures
            s@ == formatter_command(*self),
    {
        match self {
            PythonFormatter::Black => "black --check .",
            PythonFormatter::Ruff => "ruff format --check .",
        }
    }

    /// The other formatter.
    pub fn toggle(&self) -> (r: Self)
        ensures
            r == formatter_toggled(*self),
    {
        match self {
            PythonFormatter::Black => PythonFormatter::Ruff,
            PythonFormatter::Ruff => PythonFormatter::Black,
        }
    }

    /// The identifier used in configurations.
    pub fn as_str(&self) -> (s: &'static str)
        ensures
            s@ == formatter_name(*self),
    {
        self.name()
    }

    /// The formatter with that identifier.
    pub fn from_str(s: &str) -> (r: Option<Self>)
        ensures
            r == formatter_of(s@),
    {
        if crate::text::str_eq(s, "black") {
            Some(PythonFormatter::Black)
        } else if crate::text::str_eq(s, "ruff") {
            Some(PythonFormatter::Ruff)
        } else {
            None
        }
    }

    /// The identifiers of all formatters.
    pub fn all_variants() -> (v: Vec<String>)
        ensures
            strs_v(v@) == seq!["black"@, "ruff"@],
    {
        strs2("black", "ruff")
    }

    /// The default formatter, Black.
    pub fn default() -> (r: Self)
        ensures
            r == PythonFormatter::Black,
    {
        PythonFormatter::Black
    }
}

/// Toggling a tool choice gives the other tool, and toggling twice gives the
/// first one back; each tool's identifier reads back as that tool.
pub proof fn law_tool_toggle_and_identifiers(l: PythonLinter, f: PythonFormatter)
    ensures
        linter_toggled(l) != l,
        linter_toggled(linter_toggled(l)) == l,
        formatter_toggled(f) != f,
        formatter_toggled(formatter_toggled(f)) == f,
        linter_of(linter_name(l)) == Some(l),
        formatter_of(formatter_name(f)) == Some(f),
{
    reveal_strlit("flake8");
    reveal_strlit("ruff");
    reveal_strlit("black");
    assert("ruff"@.len() != "flake8"@.len());
    assert("ruff"@.len() != "black"@.len());
}

/// Preset for Python application projects.
pub struct PythonAppPreset {
    pub python_version: String,
    pub linter: Option<PythonLinter>,
    pub enable_type_check: bool,
    pub formatter: Option<PythonFormatter>,
}

/// The Python preset under its short name.
pub type PythonApp = PythonAppPreset;

/// A Python preset as plain values.
pub struct PythonView {
    pub python_version: Seq<char>,
    pub linter: Option<PythonLinter>,
    pub enable_type_check: bool,
    pub formatter: Option<PythonFormatter>,
}

impl View for PythonAppPreset {
    type V = PythonView;

    open spec fn view(&self) -> PythonView {
        PythonView {
            python_version: self.python_version@,
            linter: self.linter,
            enable_type_check: self.enable_type_check,
            formatter: self.formatter,
        }
    }
}

pub open spec fn setup_python_v(version: Seq<char>) -> GitHubStepView {
    sv(
        "Setup Python"@,
        Some("actions/setup-python@v5"@),
        None,
        Some(seq![("python-version"@, version)]),
    )
}

/// The GitHub Actions workflow of a Python preset.
pub open spec fn python_github(p: PythonView) -> GitHubWorkflowView {
    let v = p.python_version;
    let test_job = job_v(
        seq![
            checkout_v(),
            setup_python_v(v),
            sv("Install dependencies"@, None, Some("pip install -r requirements.txt"@), None),
            sv("Run tests"@, None, Some("pytest"@), None),
        ],
        30,
    );
    let lint_jobs = match p.linter {
        Some(l) => seq![
            (
                "python/lint"@,
                job_v(
                    seq![
                        checkout_v(),
                        setup_python_v(v),
                        sv("Install "@ + linter_name(l), None, Some("pip install "@ + linter_name(l)), None),
                        sv("Run "@ + linter_name(l), None, Some(linter_command(l)), None),
                    ],
                    15,
                ),
            ),
        ],
        None => Seq::empty(),
    };
    let type_job = job_v(
        seq![
            checkout_v(),
            setup_python_v(v),
            sv("Install mypy"@, None, Some("pip install mypy"@), None),
            sv("Run mypy"@, None, Some("mypy ."@), None),
        ],
        15,
    );
    GitHubWorkflowView {
        name: "CI"@,
        on: branch_triggers_v(),
        env: None,
        jobs: lint_jobs + seq![("python/test"@, test_job)] + opt_seq(
            p.enable_type_check,
            seq![("python/type-check"@, type_job)],
        ),
    }
}

/// The script of the GitLab test job: dependencies, then the formatter, type
/// and lint checks, then the tests.
pub open spec fn python_gitlab_script(p: PythonView) -> Seq<Seq<char>> {
    seq!["pip install -r requirements.txt"@] + match p.formatter {
        Some(f) => seq!["pip install "@ + formatter_name(f), formatter_command(f)],
        None => Seq::empty(),
    } + opt_seq(p.enable_type_check, seq!["pip install mypy"@, "mypy ."@]) + match p.linter {
        Some(l) => seq!["pip install "@ + linter_name(l), linter_command(l)],
        None => Seq::empty(),
    } + seq!["pytest"@]
}

/// The GitLab CI configuration of a Python preset.
pub open spec fn python_gitlab(p: PythonView) -> GitLabCIView {
    GitLabCIView {
        stages: Some(seq!["test"@]),
        variables: None,
        cache: None,
        jobs: seq![
            (
                "python/test"@,
                glj_v(
                    "test"@,
                    Some("python:"@ + p.python_version),
                    python_gitlab_script(p),
                    None,
                    None,
                    None,
                    None,
                ),
            ),
        ],
    }
}

/// The CircleCI configuration of a Python preset.
pub open spec fn python_circleci(p: PythonView) -> CircleCIConfigView {
    let steps = seq![
        CircleCIStepView::Simple("checkout"@),
        detailed_v("Install dependencies"@, "pip install -r requirements.txt"@),
    ] + match p.linter {
        Some(l) => seq![
            detailed_v("Install "@ + linter_name(l), "pip install "@ + linter_name(l)),
            detailed_v("Lint"@, linter_command(l)),
        ],
        None => Seq::empty(),
    } + opt_seq(
        p.enable_type_check,
        seq![
            detailed_v("Install mypy"@, "pip install mypy"@),
            detailed_v("Type check"@, "mypy ."@),
        ],
    ) + match p.formatter {
        Some(f) => seq![
            detailed_v("Install "@ + formatter_name(f), "pip install "@ + formatter_name(f)),
            detailed_v("Format check"@, formatter_command(f)),
        ],
        None => Seq::empty(),
    } + seq![detailed_v("Run tests"@, "pytest"@)];
    circle_config_v(
        seq![("python/test"@, cjob_v("python:"@ + p.python_version, steps))],
        "main"@,
        seq!["python/test"@],
    )
}

/// The Jenkins pipeline of a Python preset.
pub open spec fn python_jenkins(p: PythonView) -> JenkinsConfigView {
    JenkinsConfigView {
        agent: "any"@,
        environment: Seq::empty(),
        stages: seq![
            (
                "Test"@,
                seq!["sh 'pip install -r requirements.txt'"@] + opt_seq(
                    p.enable_type_check,
                    seq!["sh 'mypy .'"@],
                ) + match p.linter {
                    Some(l) => seq!["sh '"@ + linter_command(l) + "'"@],
                    None => Seq::empty(),
                } + seq!["sh 'pytest'"@],
            ),
        ],
    }
}

/// The editor's feature groups of the Python preset.
pub open spec fn python_features() -> Seq<crate::config::FeatureView> {
    seq![
        feature_v(
            "linting"@,
            "Linting"@,
            "Code quality checks with configurable tools"@,
            seq![
                meta_v("enable_linter"@, "Linter"@, "Run a linter for code quality"@, OptionView::Bool(true)),
                meta_v(
                    "linter"@,
                    "Linter Tool"@,
                    "Choose linter tool (Flake8 or Ruff)"@,
                    OptionView::Enum { selected: "flake8"@, variants: seq!["flake8"@, "ruff"@] },
                ),
            ],
        ),
        feature_v(
            "testing"@,
            "Testing"@,
            "Test execution and type checking"@,
            seq![
                meta_v("type_check"@, "Type Checking"@, "Enable mypy static type checking"@, OptionView::Bool(true)),
            ],
        ),
        feature_v(
            "formatting"@,
            "Formatting"@,
            "Code formatting checks"@,
            seq![
                meta_v("enable_formatter"@, "Formatter"@, "Check code formatting"@, OptionView::Bool(true)),
                meta_v(
                    "formatter"@,
                    "Formatter Tool"@,
                    "Choose formatter tool (Black or Ruff)"@,
                    OptionView::Enum { selected: "black"@, variants: seq!["black"@, "ruff"@] },
                ),
            ],
        ),
    ]
}

/// The editor configuration of a Python preset: the checks are on when the
/// project was detected as a Python project; the tool choices keep their defaults.
pub open spec fn python_default_config(detected: bool) -> PresetConfigView {
    PresetConfigView {
        preset_id: "python-app"@,
        values: seq![
            ("enable_linter"@, OptionView::Bool(detected)),
            ("linter"@, OptionView::Enum { selected: "flake8"@, variants: seq!["flake8"@, "ruff"@] }),
            ("type_check"@, OptionView::Bool(detected)),
            ("enable_formatter"@, OptionView::Bool(detected)),
            ("formatter"@, OptionView::Enum { selected: "black"@, variants: seq!["black"@, "ruff"@] }),
        ],
    }
}

/// The chosen linter of an editor configuration.
pub open spec fn chosen_linter(c: PresetConfigView) -> Option<PythonLinter> {
    if bool_of(c, "enable_linter"@) {
        Some(
            match enum_of(c, "linter"@) {
                Some(s) => match linter_of(s) {
                    Some(l) => l,
                    None => PythonLinter::Flake8,
                },
                None => PythonLinter::Flake8,
            },
        )
    } else {
        None
    }
}

/// The chosen formatter of an editor configuration.
pub open spec fn chosen_formatter(c: PresetConfigView) -> Option<PythonFormatter> {
    if bool_of(c, "enable_formatter"@) {
        Some(
            match enum_of(c, "formatter"@) {
                Some(s) => match formatter_of(s) {
                    Some(f) => f,
                    None => PythonFormatter::Black,
                },
                None => PythonFormatter::Black,
            },
        )
    } else {
        None
    }
}

/// The Python preset described by an editor configuration.
pub open spec fn python_from_config(c: PresetConfigView, version: Seq<char>) -> PythonView {
    PythonView {
        python_version: if version.len() == 0 {
            "3.11"@
        } else {
            version
        },
        linter: chosen_linter(c),
        enable_type_check: bool_of(c, "type_check"@),
        formatter: chosen_formatter(c),
    }
}

fn python_image(v: &str) -> (r: String)
    ensures
        r@ == "python:"@ + v@,
{
    concat2("python:", v)
}

fn setup_python(v: &str) -> (s: GitHubStep)
    ensures
        s@ == setup_python_v(v@),
{
    uses_step("Setup Python", "actions/setup-python@v5", Some(map1("python-version", v)))
}

impl PythonAppPreset {
    /// The default preset: Python 3.11 with type checking.
    pub fn default() -> (p: PythonAppPreset)
        ensures
            p@ == (PythonView {
                python_version: "3.11"@,
                linter: None,
                enable_type_check: true,
                formatter: None,
            }),
    {
        PythonAppPreset {
            python_version: "3.11".to_owned(),
            linter: None,
            enable_type_check: true,
            formatter: None,
        }
    }

    pub fn name(&self) -> (s: &'static str)
        ensures
            s@ == "python-app"@,
    {
        "python-app"
    }

    pub fn description(&self) -> (s: &'static str)
        ensures
            s@ == "CI pipeline for Python applications with pytest, linting, and type checking"@,
    {
        "CI pipeline for Python applications with pytest, linting, and type checking"
    }

    /// The GitHub Actions workflow.
    pub fn to_github(&self) -> (w: GitHubWorkflow)
        ensures
            w@ == python_github(self@),
    {
        let v = self.python_version.as_str();
        let ghost p = self@;
        let mut jobs = Vec::new();
        match &self.linter {
            Some(l) => {
                let name = l.name();
                let mut s = Vec::new();
                s.push(checkout());
                s.push(setup_python(v));
                s.push(run_step(concat2("Install ", name).as_str(), concat2("pip install ", name).as_str()));
                s.push(run_step(concat2("Run ", name).as_str(), l.check_command()));
                assert(steps_v(s@) =~= python_github(p).jobs[0].1.steps);
                push_job(&mut jobs, "python/lint", job(s, 15));
            },
            None => {},
        }
        let ghost j1 = jobs_v(jobs@);
        let mut t = Vec::new();
        t.push(checkout());
        t.push(setup_python(v));
        t.push(run_step("Install dependencies", "pip install -r requirements.txt"));
        t.push(run_step("Run tests", "pytest"));
        assert(steps_v(t@) =~= seq![
            checkout_v(),
            setup_python_v(p.python_version),
            sv("Install dependencies"@, None, Some("pip install -r requirements.txt"@), None),
            sv("Run tests"@, None, Some("pytest"@), None),
        ]);
        push_job(&mut jobs, "python/test", job(t, 30));
        if self.enable_type_check {
            let mut s = Vec::new();
            s.push(checkout());
            s.push(setup_python(v));
            s.push(run_step("Install mypy", "pip install mypy"));
            s.push(run_step("Run mypy", "mypy ."));
            assert(steps_v(s@) =~= seq![
                checkout_v(),
                setup_python_v(p.python_version),
                sv("Install mypy"@, None, Some("pip install mypy"@), None),
                sv("Run mypy"@, None, Some("mypy ."@), None),
            ]);
            push_job(&mut jobs, "python/type-check", job(s, 15));
        }
        let w = GitHubWorkflow { name: "CI".to_owned(), on: branch_triggers(), env: None, jobs };
        assert(w@.jobs =~= python_github(p).jobs);
        w
    }

    /// The Gitea Actions workflow: Gitea uses the GitHub Actions format.
    pub fn to_gitea(&self) -> (w: GitHubWorkflow)
        ensures
            w@ == python_github(self@),
    {
        self.to_github()
    }

    /// The GitLab CI configuration.
    pub fn to_gitlab(&self) -> (c: GitLabCI)
        ensures
            c@ == python_gitlab(self@),
    {
        let ghost p = self@;
        let mut script = strs2("pip install -r requirements.txt", "pytest");
        let ghost s0 = strs_v(script@);
        match &self.linter {
            Some(l) => {
                insert_str(&mut script, 1, concat2("pip install ", l.name()));
                insert_str(&mut script, 2, l.check_command().to_owned());
            },
            None => {},
        }
        let ghost s1 = strs_v(script@);
        if self.enable_type_check {
            insert_str(&mut script, 1, "pip install mypy".to_owned());
            insert_str(&mut script, 2, "mypy .".to_owned());
        }
        let ghost s2 = strs_v(script@);
        match &self.formatter {
            Some(f) => {
                insert_str(&mut script, 1, concat2("pip install ", f.name()));
                insert_str(&mut script, 2, f.check_command().to_owned());
            },
            None => {},
        }
        let ghost lint_part = match p.linter {
            Some(l) => seq!["pip install "@ + linter_name(l), linter_command(l)],
            None => Seq::<Seq<char>>::empty(),
        };
        let ghost type_part = opt_seq(p.enable_type_check, seq!["pip install mypy"@, "mypy ."@]);
        let ghost fmt_part = match p.formatter {
            Some(f) => seq!["pip install "@ + formatter_name(f), formatter_command(f)],
            None => Seq::<Seq<char>>::empty(),
        };
        assert(s1 =~= seq!["pip install -r requirements.txt"@] + lint_part + seq!["pytest"@]);
        assert(s2 =~= seq!["pip install -r requirements.txt"@] + type_part + lint_part + seq!["pytest"@]);
        assert(strs_v(script@) =~= python_gitlab_script(p));
        let mut jobs = Vec::new();
        push_gl_job(
            &mut jobs,
            "python/test",
            GitLabJob {
                stage: "test".to_owned(),
                image: Some(python_image(self.python_version.as_str())),
                script,
                before_script: None,
                after_script: None,
                needs: None,
                cache: None,
                artifacts: None,
                only: None,
                timeout: None,
            },
        );
        let c = GitLabCI { stages: Some(strs1("test")), variables: None, cache: None, jobs };
        assert(c@.jobs =~= python_gitlab(p).jobs);
        c
    }

    /// The CircleCI configuration.
    pub fn to_circleci(&self) -> (c: CircleCIConfig)
        ensures
            c@ == python_circleci(self@),
    {
        let ghost p = self@;
        let mut steps = Vec::new();
        push_cstep(&mut steps, simple_step("checkout"));
        push_cstep(
            &mut steps,
            detailed("Install dependencies", "pip install -r requirements.txt".to_owned()),
        );
        let ghost s0 = csteps_v(steps@);
        match &self.linter {
            Some(l) => {
                push_cstep(&mut steps, detailed(concat2("Install ", l.name()).as_str(), concat2("pip install ", l.name())));
                push_cstep(&mut steps, detailed("Lint", l.check_command().to_owned()));
            },
            None => {},
        }
        let ghost s1 = csteps_v(steps@);
        if self.enable_type_check {
            push_cstep(&mut steps, detailed("Install mypy", "pip install mypy".to_owned()));
            push_cstep(&mut steps, detailed("Type check", "mypy .".to_owned()));
        }
        let ghost s2 = csteps_v(steps@);
        match &self.formatter {
            Some(f) => {
                push_cstep(&mut steps, detailed(concat2("Install ", f.name()).as_str(), concat2("pip install ", f.name())));
                push_cstep(&mut steps, detailed("Format check", f.check_command().to_owned()));
            },
            None => {},
        }
        let ghost s3 = csteps_v(steps@);
        push_cstep(&mut steps, detailed("Run tests", "pytest".to_owned()));
        assert(s1 =~= s0 + match p.linter {
            Some(l) => seq![
                detailed_v("Install "@ + linter_name(l), "pip install "@ + linter_name(l)),
                detailed_v("Lint"@, linter_command(l)),
            ],
            None => Seq::empty(),
        });
        assert(s3 =~= s2 + match p.formatter {
            Some(f) => seq![
                detailed_v("Install "@ + formatter_name(f), "pip install "@ + formatter_name(f)),
                detailed_v("Format check"@, formatter_command(f)),
            ],
            None => Seq::empty(),
        });
        assert(csteps_v(steps@) =~= python_circleci(p).jobs[0].1.steps);
        let mut jobs = Vec::new();
        push_cjob(&mut jobs, "python/test", circle_job(python_image(self.python_version.as_str()), steps));
        let mut names = Vec::new();
        push_wjob(&mut names, "python/test");
        assert(cjobs_v(jobs@) =~= python_circleci(p).jobs);
        assert(wjobs_v(names@) =~= seq!["python/test"@]);
        circle_config(jobs, "main", names)
    }

    /// The Jenkins pipeline.
    pub fn to_jenkins(&self) -> (c: JenkinsConfig)
        ensures
            c@ == python_jenkins(self@),
    {
        let ghost p = self@;
        let mut steps = strs1("sh 'pip install -r requirements.txt'");
        if self.enable_type_check {
            push_str(&mut steps, "sh 'mypy .'".to_owned());
        }
        let ghost s1 = strs_v(steps@);
        match &self.linter {
            Some(l) => {
                push_str(&mut steps, concat3("sh '", l.check_command(), "'"));
            },
            None => {},
        }
        let ghost s2 = strs_v(steps@);
        push_str(&mut steps, "sh 'pytest'".to_owned());
        assert(s2 =~= s1 + match p.linter {
            Some(l) => seq!["sh '"@ + linter_command(l) + "'"@],
            None => Seq::empty(),
        });
        assert(strs_v(steps@) =~= python_jenkins(p).stages[0].1);
        let mut stages = Vec::new();
        push_stage(&mut stages, stage("Test", steps));
        assert(stages_v(stages@) =~= python_jenkins(p).stages);
        jenkins(stages)
    }

    /// Whether a workflow sets up Python and runs pytest.
    pub fn matches_github(&self, workflow: &GitHubWorkflow) -> (b: bool)
        ensures
            b == (any_uses(workflow@, "setup-python"@) && any_run(workflow@, "pytest"@)),
    {
        let has_python_setup = workflow_uses(workflow, "setup-python");
        let has_pytest = workflow_runs(workflow, "pytest");
        has_python_setup && has_pytest
    }

    /// Gitea workflows are recognised as GitHub workflows.
    pub fn matches_gitea(&self, workflow: &GitHubWorkflow) -> (b: bool)
        ensures
            b == (any_uses(workflow@, "setup-python"@) && any_run(workflow@, "pytest"@)),
    {
        self.matches_github(workflow)
    }

    pub fn matches_gitlab(&self, _config: &GitLabCI) -> (b: bool)
        ensures
            !b,
    {
        false
    }

    pub fn matches_circleci(&self, _config: &CircleCIConfig) -> (b: bool)
        ensures
            !b,
    {
        false
    }

    pub fn matches_jenkins(&self, _config: &JenkinsConfig) -> (b: bool)
        ensures
            !b,
    {
        false
    }

    /// The editor's feature groups.
    pub fn features() -> (f: Vec<FeatureMeta>)
        ensures
            features_view(f@) == python_features(),
    {
        let mut lint: Vec<OptionMeta> = Vec::new();
        lint.push(option_meta("enable_linter", "Linter", "Run a linter for code quality", OptionValue::Bool(true)));
        lint.push(
            option_meta(
                "linter",
                "Linter Tool",
                "Choose linter tool (Flake8 or Ruff)",
                enum_value("flake8", PythonLinter::all_variants()),
            ),
        );
        let mut fmt: Vec<OptionMeta> = Vec::new();
        fmt.push(option_meta("enable_formatter", "Formatter", "Check code formatting", OptionValue::Bool(true)));
        fmt.push(
            option_meta(
                "formatter",
                "Formatter Tool",
                "Choose formatter tool (Black or Ruff)",
                enum_value("black", PythonFormatter::all_variants()),
            ),
        );
        let mut f = Vec::new();
        let lf = feature("linting", "Linting", "Code quality checks with configurable tools", lint);
        assert(lf@.options =~= python_features()[0].options);
        f.push(lf);
        f.push(
            feature1(
                "testing",
                "Testing",
                "Test execution and type checking",
                option_meta("type_check", "Type Checking", "Enable mypy static type checking", OptionValue::Bool(true)),
            ),
        );
        let ff = feature("formatting", "Formatting", "Code formatting checks", fmt);
        assert(ff@.options =~= python_features()[2].options);
        f.push(ff);
        assert(features_view(f@) =~= python_features());
        f
    }

    /// The editor configuration: checks on when detected, off otherwise.
    pub fn default_config(detected: bool) -> (c: PresetConfig)
        ensures
            c@ == python_default_config(detected),
    {
        let mut v = Vec::new();
        push_value(&mut v, "enable_linter", OptionValue::Bool(detected));
        push_value(&mut v, "linter", enum_value("flake8", PythonLinter::all_variants()));
        push_value(&mut v, "type_check", OptionValue::Bool(detected));
        push_value(&mut v, "enable_formatter", OptionValue::Bool(detected));
        push_value(&mut v, "formatter", enum_value("black", PythonFormatter::all_variants()));
        let c = PresetConfig::from_entries("python-app".to_owned(), v);
        assert(c@.values =~= python_default_config(detected).values);
        c
    }

    /// The preset an editor configuration describes.
    pub fn from_config(config: &PresetConfig, version: &str) -> (p: PythonAppPreset)
        ensures
            p@ == python_from_config(config@, version@),
    {
        let python_version = if version.is_empty() {
            "3.11".to_owned()
        } else {
            version.to_owned()
        };
        let linter = if config.get_bool("enable_linter") {
            Some(
                match config.get_enum("linter") {
                    Some(s) => match PythonLinter::from_str(s.as_str()) {
                        Some(l) => l,
                        None => PythonLinter::Flake8,
                    },
                    None => PythonLinter::Flake8,
                },
            )
        } else {
            None
        };
        let formatter = if config.get_bool("enable_formatter") {
            Some(
                match config.get_enum("formatter") {
                    Some(s) => match PythonFormatter::from_str(s.as_str()) {
                        Some(f) => f,
                        None => PythonFormatter::Black,
                    },
                    None => PythonFormatter::Black,
                },
            )
        } else {
            None
        };
        PythonAppPreset {
            python_version,
            linter,
            enable_type_check: config.get_bool("type_check"),
            formatter,
        }
    }

    /// Whether the preset applies to a project type.
    pub fn matches_project(project_type: ProjectType) -> (b: bool)
        ensures
            b == (project_type == ProjectType::PythonApp || project_type == ProjectType::PythonLibrary),
    {
        project_type == ProjectType::PythonApp || project_type == ProjectType::PythonLibrary
    }
}

} // verus!
