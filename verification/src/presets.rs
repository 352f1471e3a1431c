//! The target platforms, the presets as one closed family, the registry of
//! presets the editor offers, and the generation of a preset's configuration
//! text for a platform.
use crate::config::{features_view, FeatureMeta, FeatureView, PresetConfig, PresetConfigView};
use crate::detection::ProjectType;
use crate::docker_preset::{
    docker_circleci, docker_default_config, docker_features, docker_from_config, docker_github,
    docker_gitlab, docker_jenkins, Docker,
};
use crate::documents::{
    circleci_doc, gitlab_doc, jenkins_doc, lemma_circleci_doc, lemma_gitlab_doc,
    lemma_jenkins_doc, lemma_workflow_doc, workflow_doc,
};
use crate::error::{CciError, ErrorView};
use crate::go_preset::{
    go_circleci, go_default_config, go_features, go_from_config, go_github, go_gitlab, go_jenkins,
    GoAppPreset,
};
use crate::matching::{any_run, any_script, any_uses};
use crate::models::{
    circleci_node, gitlab_node, jenkins_to_string, workflow_node, CircleCIConfig,
    CircleCIConfigView, GitHubWorkflow, GitHubWorkflowView, GitLabCI, GitLabCIView, JenkinsConfig,
    JenkinsConfigView,
};
use crate::python_preset::{
    python_circleci, python_default_config, python_features, python_from_config, python_github,
    python_gitlab, python_jenkins, PythonAppPreset,
};
use crate::rust_preset::{
    rust_circleci, rust_default_config, rust_features, rust_from_config, rust_github, rust_gitlab,
    rust_jenkins, RustPreset,
};
use crate::text::{chars_of, contains, str_eq, string_contains, string_of};
use crate::yaml::{render_yaml, yaml_document, YamlTree};
use vstd::prelude::*;

verus! {

// ---------------------------------------------------------------- platforms

/// A CI/CD platform a configuration is generated for.
#[derive(PartialEq, Eq, Structural, Clone, Copy, Debug)]
pub enum Platform {
    GitHub,
    Gitea,
    GitLab,
    CircleCI,
    Jenkins,
}

/// All platforms, in the order the editor cycles through them.
pub open spec fn platforms() -> Seq<Platform> {
    seq![Platform::GitHub, Platform::Gitea, Platform::GitLab, Platform::CircleCI, Platform::Jenkins]
}

/// The position of a platform in `platforms()`.
pub open spec fn platform_index(p: Platform) -> int {
    match p {
        Platform::GitHub => 0,
        Platform::Gitea => 1,
        Platform::GitLab => 2,
        Platform::CircleCI => 3,
        Platform::Jenkins => 4,
    }
}

/// The platform after `p`, wrapping around after the last.
pub open spec fn next_platform(p: Platform) -> Platform {
    platforms()[(platform_index(p) + 1) % 5]
}

pub open spec fn platform_name(p: Platform) -> Seq<char> {
    match p {
        Platform::GitHub => "GitHub Actions"@,
        Platform::Gitea => "Gitea Actions"@,
        Platform::GitLab => "GitLab CI"@,
        Platform::CircleCI => "CircleCI"@,
        Platform::Jenkins => "Jenkins"@,
    }
}

pub open spec fn platform_path(p: Platform) -> Seq<char> {
    match p {
        Platform::GitHub => ".github/workflows/ci.yml"@,
        Platform::Gitea => ".gitea/workflows/ci.yml"@,
        Platform::GitLab => ".gitlab-ci.yml"@,
        Platform::CircleCI => ".circleci/config.yml"@,
        Platform::Jenkins => "Jenkinsfile"@,
    }
}

/// A character lowered as far as a comparison with ASCII names needs: an
/// ASCII capital becomes its small letter, and the Kelvin sign (U+212A), the
/// one character outside ASCII whose lowercase is a single ASCII letter,
/// becomes `k`. Every other character is kept; it is not ASCII, and neither
/// is its Unicode lowercase (a character or a sequence that holds a character
/// outside ASCII), so it rules out a match with an ASCII name either way.
pub open spec fn ascii_lower(c: char) -> char {
    if 'A' <= c <= 'Z' {
        ((c as u32) + 32) as char
    } else if c == '\u{212A}' {
        'k'
    } else {
        c
    }
}

/// A text lowered character by character, as `ascii_lower` does. It equals an
/// ASCII name exactly when the text's Unicode lowercase does.
pub open spec fn lowercase(s: Seq<char>) -> Seq<char> {
    s.map_values(|c: char| ascii_lower(c))
}

/// The platform a user names, in any letter case; unknown names mean GitHub.
pub open spec fn platform_of_name(s: Seq<char>) -> Platform {
    let l = lowercase(s);
    if l == "github"@ {
        Platform::GitHub
    } else if l == "gitea"@ {
        Platform::Gitea
    } else if l == "gitlab"@ {
        Platform::GitLab
    } else if l == "circleci"@ {
        Platform::CircleCI
    } else if l == "jenkins"@ {
        Platform::Jenkins
    } else {
        Platform::GitHub
    }
}

fn lowercase_of(s: &str) -> (r: String)
    ensures
        r@ == lowercase(s@),
{
    let cs = chars_of(s);
    let mut out: Vec<char> = Vec::new();
    let mut i: usize = 0;
    while i < cs.len()
        invariant
            0 <= i <= cs@.len(),
            cs@ == s@,
            out@ =~= lowercase(s@).take(i as int),
        decreases cs@.len() - i,
    {
        let c = cs[i];
        let l = if 'A' <= c && c <= 'Z' {
            proof {
                assert(('A' as u32) <= (c as u32) <= ('Z' as u32));
            }
            char_from_code((c as u32) + 32)
        } else if c == '\u{212A}' {
            'k'
        } else {
            c
        };
        out.push(l);
        i = i + 1;
    }
    assert(lowercase(s@).take(cs@.len() as int) =~= lowercase(s@));
    string_of(out.as_slice())
}

/// The character of an ASCII code point.
fn char_from_code(code: u32) -> (c: char)
    requires
        0x61 <= code <= 0x7a,
    ensures
        c == code as char,
{
    if code == 0x61 { 'a' } else if code == 0x62 { 'b' } else if code == 0x63 { 'c' } else if code
        == 0x64 { 'd' } else if code == 0x65 { 'e' } else if code == 0x66 { 'f' } else if code
        == 0x67 { 'g' } else if code == 0x68 { 'h' } else if code == 0x69 { 'i' } else if code
        == 0x6a { 'j' } else if code == 0x6b { 'k' } else if code == 0x6c { 'l' } else if code
        == 0x6d { 'm' } else if code == 0x6e { 'n' } else if code == 0x6f { 'o' } else if code
        == 0x70 { 'p' } else if code == 0x71 { 'q' } else if code == 0x72 { 'r' } else if code
        == 0x73 { 's' } else if code == 0x74 { 't' } else if code == 0x75 { 'u' } else if code
        == 0x76 { 'v' } else if code == 0x77 { 'w' } else if code == 0x78 { 'x' } else if code
        == 0x79 { 'y' } else { 'z' }
}

impl Platform {
    /// All platforms, in the order the editor cycles through them.
    pub fn all() -> (v: Vec<Platform>)
        ensures
            v@ == platforms(),
    {
        let v = vec![
            Platform::GitHub,
            Platform::Gitea,
            Platform::GitLab,
            Platform::CircleCI,
            Platform::Jenkins,
        ];
        assert(v@ =~= platforms());
        v
    }

    pub fn name(&self) -> (s: &'static str)
        ensures
            s@ == platform_name(*self),
    {
        match self {
            Platform::GitHub => "GitHub Actions",
            Platform::Gitea => "Gitea Actions",
            Platform::GitLab => "GitLab CI",
            Platform::CircleCI => "CircleCI",
            Platform::Jenkins => "Jenkins",
        }
    }

    /// Where the configuration is written, relative to the project.
    pub fn output_path(&self) -> (s: &'static str)
        ensures
            s@ == platform_path(*self),
    {
        match self {
            Platform::GitHub => ".github/workflows/ci.yml",
            Platform::Gitea => ".gitea/workflows/ci.yml",
            Platform::GitLab => ".gitlab-ci.yml",
            Platform::CircleCI => ".circleci/config.yml",
            Platform::Jenkins => "Jenkinsfile",
        }
    }

    /// The platform a user names, in any letter case; unknown names mean GitHub.
    pub fn from_name(name: &str) -> (p: Platform)
        ensures
            p == platform_of_name(name@),
    {
        let l = lowercase_of(name);
        if str_eq(l.as_str(), "github") {
            Platform::GitHub
        } else if str_eq(l.as_str(), "gitea") {
            Platform::Gitea
        } else if str_eq(l.as_str(), "gitlab") {
            Platform::GitLab
        } else if str_eq(l.as_str(), "circleci") {
            Platform::CircleCI
        } else if str_eq(l.as_str(), "jenkins") {
            Platform::Jenkins
        } else {
            Platform::GitHub
        }
    }

    /// The position of this platform in the list of all platforms.
    pub fn position(&self) -> (i: usize)
        ensures
            i == platform_index(*self),
    {
        match self {
            Platform::GitHub => 0,
            Platform::Gitea => 1,
            Platform::GitLab => 2,
            Platform::CircleCI => 3,
            Platform::Jenkins => 4,
        }
    }

    /// The platform after this one, wrapping around after the last.
    pub fn next(&self) -> (p: Platform)
        ensures
            p == next_platform(*self),
    {
        match self {
            Platform::GitHub => Platform::Gitea,
            Platform::Gitea => Platform::GitLab,
            Platform::GitLab => Platform::CircleCI,
            Platform::CircleCI => Platform::Jenkins,
            Platform::Jenkins => Platform::GitHub,
        }
    }
}

/// Cycling through the platforms five times comes back to the start, and every
/// platform sits at its own position of the list.
pub proof fn law_platform_cycle(p: Platform)
    ensures
        next_platform(next_platform(next_platform(next_platform(next_platform(p))))) == p,
        platforms()[platform_index(p)] == p,
        0 <= platform_index(p) < platforms().len(),
{
}

// ---------------------------------------------------------------- generated text

pub open spec fn yaml_output(t: YamlTree) -> Result<Seq<char>, ErrorView> {
    match yaml_document(t) {
        Ok(s) => Ok(s),
        Err(m) => Err(ErrorView::Serialization(m)),
    }
}

pub open spec fn text_view(r: Result<String, CciError>) -> Result<Seq<char>, ErrorView> {
    match r {
        Ok(s) => Ok(s@),
        Err(e) => Err(e@),
    }
}

/// The text for a platform: YAML for the workflow platforms, Groovy for Jenkins.
/// Gitea Actions reads the GitHub Actions format.
pub open spec fn platform_output(
    platform: Platform,
    github: GitHubWorkflowView,
    gitlab: GitLabCIView,
    circleci: CircleCIConfigView,
    jenkins: JenkinsConfigView,
) -> Result<Seq<char>, ErrorView> {
    match platform {
        Platform::GitHub => yaml_output(workflow_doc(github)),
        Platform::Gitea => yaml_output(workflow_doc(github)),
        Platform::GitLab => yaml_output(gitlab_doc(gitlab)),
        Platform::CircleCI => yaml_output(circleci_doc(circleci)),
        Platform::Jenkins => Ok(jenkins_doc(jenkins)),
    }
}

fn render_workflow(w: &GitHubWorkflow) -> (r: Result<String, CciError>)
    ensures
        text_view(r) == yaml_output(workflow_doc(w@)),
{
    let n = workflow_node(w);
    proof {
        lemma_workflow_doc(*w);
    }
    match render_yaml(&n) {
        Ok(s) => Ok(s),
        Err(m) => Err(CciError::Serialization(m)),
    }
}

fn render_gitlab(c: &GitLabCI) -> (r: Result<String, CciError>)
    ensures
        text_view(r) == yaml_output(gitlab_doc(c@)),
{
    let n = gitlab_node(c);
    proof {
        lemma_gitlab_doc(*c);
    }
    match render_yaml(&n) {
        Ok(s) => Ok(s),
        Err(m) => Err(CciError::Serialization(m)),
    }
}

fn render_circleci(c: &CircleCIConfig) -> (r: Result<String, CciError>)
    ensures
        text_view(r) == yaml_output(circleci_doc(c@)),
{
    let n = circleci_node(c);
    proof {
        lemma_circleci_doc(*c);
    }
    match render_yaml(&n) {
        Ok(s) => Ok(s),
        Err(m) => Err(CciError::Serialization(m)),
    }
}

fn render_jenkins(c: &JenkinsConfig) -> (r: Result<String, CciError>)
    ensures
        text_view(r) == Ok::<Seq<char>, ErrorView>(jenkins_doc(c@)),
{
    proof {
        lemma_jenkins_doc(*c);
    }
    Ok(jenkins_to_string(c))
}

// ---------------------------------------------------------------- preset kinds

/// The presets the editor and the generator offer.
#[derive(PartialEq, Eq, Structural, Clone, Copy, Debug)]
pub enum PresetKind {
    Rust,
    PythonApp,
    GoApp,
    Docker,
}

pub open spec fn kind_id(k: PresetKind) -> Seq<char> {
    match k {
        PresetKind::Rust => "rust"@,
        PresetKind::PythonApp => "python-app"@,
        PresetKind::GoApp => "go-app"@,
        PresetKind::Docker => "docker"@,
    }
}

pub open spec fn kind_name(k: PresetKind) -> Seq<char> {
    match k {
        PresetKind::Rust => "Rust"@,
        PresetKind::PythonApp => "Python App"@,
        PresetKind::GoApp => "Go App"@,
        PresetKind::Docker => "Docker"@,
    }
}

/// The description the editor shows for a preset.
pub open spec fn kind_description(k: PresetKind) -> Seq<char> {
    match k {
        PresetKind::Rust => "CI pipeline for Rust projects (binaries, libraries, and workspaces)"@,
        PresetKind::PythonApp => "CI pipeline for Python applications with pytest, linting, and type checking"@,
        PresetKind::GoApp => "CI pipeline for Go applications with testing and linting"@,
        PresetKind::Docker => "CI pipeline for building and pushing Docker images to registries"@,
    }
}

/// The summary a preset gives of itself when listed.
pub open spec fn kind_summary(k: PresetKind) -> Seq<char> {
    match k {
        PresetKind::GoApp => "CI pipeline for Go applications with testing, linting, and security scanning"@,
        _ => kind_description(k),
    }
}

pub open spec fn kind_features(k: PresetKind) -> Seq<FeatureView> {
    match k {
        PresetKind::Rust => rust_features(),
        PresetKind::PythonApp => python_features(),
        PresetKind::GoApp => go_features(),
        PresetKind::Docker => docker_features(),
    }
}

pub open spec fn kind_default_config(k: PresetKind, detected: bool) -> PresetConfigView {
    match k {
        PresetKind::Rust => rust_default_config(detected),
        PresetKind::PythonApp => python_default_config(detected),
        PresetKind::GoApp => go_default_config(detected),
        PresetKind::Docker => docker_default_config(detected),
    }
}

pub open spec fn kind_matches(k: PresetKind, t: ProjectType) -> bool {
    match k {
        PresetKind::Rust => t == ProjectType::RustBinary || t == ProjectType::RustLibrary || t
            == ProjectType::RustWorkspace,
        PresetKind::PythonApp => t == ProjectType::PythonApp || t == ProjectType::PythonLibrary,
        PresetKind::GoApp => t == ProjectType::GoApp || t == ProjectType::GoLibrary,
        PresetKind::Docker => t == ProjectType::DockerImage,
    }
}

/// The text a preset generates for a platform from an editor configuration and
/// the project's language version.
pub open spec fn kind_output(
    k: PresetKind,
    c: PresetConfigView,
    platform: Platform,
    version: Seq<char>,
) -> Result<Seq<char>, ErrorView> {
    match k {
        PresetKind::Rust => {
            let p = rust_from_config(c, version);
            platform_output(platform, rust_github(p), rust_gitlab(p), rust_circleci(p), rust_jenkins(p))
        },
        PresetKind::PythonApp => {
            let p = python_from_config(c, version);
            platform_output(
                platform,
                python_github(p),
                python_gitlab(p),
                python_circleci(p),
                python_jenkins(p),
            )
        },
        PresetKind::GoApp => {
            let p = go_from_config(c, version);
            platform_output(platform, go_github(p), go_gitlab(p), go_circleci(p), go_jenkins(p))
        },
        PresetKind::Docker => {
            let p = docker_from_config(c);
            platform_output(
                platform,
                docker_github(p),
                docker_gitlab(p),
                docker_circleci(p),
                docker_jenkins(p),
            )
        },
    }
}

/// Whether a preset recognises itself in a GitHub workflow.
pub open spec fn kind_in_github(k: PresetKind, w: GitHubWorkflowView) -> bool {
    match k {
        PresetKind::Rust => any_uses(w, "rust-toolchain"@) && any_run(w, "cargo test"@),
        PresetKind::PythonApp => any_uses(w, "setup-python"@) && any_run(w, "pytest"@),
        PresetKind::GoApp => any_uses(w, "setup-go"@) && any_run(w, "go test"@),
        PresetKind::Docker => any_uses(w, "docker/build-push-action"@) || any_run(w, "docker build"@),
    }
}

/// A workflow step uses an action whose reference contains the text.
proof fn lemma_uses_at(w: GitHubWorkflowView, i: int, k: int, p: Seq<char>, at: int)
    requires
        0 <= i < w.jobs.len(),
        0 <= k < w.jobs[i].1.steps.len(),
        w.jobs[i].1.steps[k].uses is Some,
        crate::text::occurs_at(w.jobs[i].1.steps[k].uses->0, p, at),
    ensures
        any_uses(w, p),
{
    assert(crate::matching::opt_contains(w.jobs[i].1.steps[k].uses, p));
}

/// A workflow step runs a command that contains the text.
proof fn lemma_run_at(w: GitHubWorkflowView, i: int, k: int, p: Seq<char>, at: int)
    requires
        0 <= i < w.jobs.len(),
        0 <= k < w.jobs[i].1.steps.len(),
        w.jobs[i].1.steps[k].run is Some,
        crate::text::occurs_at(w.jobs[i].1.steps[k].run->0, p, at),
    ensures
        any_run(w, p),
{
    assert(crate::matching::opt_contains(w.jobs[i].1.steps[k].run, p));
}

/// How a preset recognises itself in a GitHub (or Gitea) workflow: the Rust
/// preset by a step using a `rust-toolchain` action together with a step
/// running `cargo test`; the Python preset by `setup-python` and `pytest`; the
/// Go preset by `setup-go` and `go test`; the Docker preset by the
/// `docker/build-push-action` or a `docker build` command. And each preset
/// recognises every workflow it generates itself, whatever its configuration.
pub proof fn law_github_recognition(k: PresetKind, w: GitHubWorkflowView, c: PresetConfigView, version: Seq<char>)
    ensures
        kind_in_github(PresetKind::Rust, w) == (any_uses(w, "rust-toolchain"@) && any_run(w, "cargo test"@)),
        kind_in_github(PresetKind::PythonApp, w) == (any_uses(w, "setup-python"@) && any_run(w, "pytest"@)),
        kind_in_github(PresetKind::GoApp, w) == (any_uses(w, "setup-go"@) && any_run(w, "go test"@)),
        kind_in_github(PresetKind::Docker, w) == (any_uses(w, "docker/build-push-action"@) || any_run(
            w,
            "docker build"@,
        )),
        kind_in_github(k, kind_github(k, c, version)),
{
    let g = kind_github(k, c, version);
    let n = g.jobs.len() - 1;
    match k {
        PresetKind::Rust => {
            reveal_strlit("dtolnay/rust-toolchain@stable");
            reveal_strlit("rust-toolchain");
            reveal_strlit("cargo test --all-features");
            reveal_strlit("cargo test");
            let u = "dtolnay/rust-toolchain@stable"@;
            let r = "cargo test --all-features"@;
            assert(g.jobs[n].1.steps[1].uses == Some(u));
            assert(g.jobs[n].1.steps[3].run == Some(r));
            assert(u.subrange(8, 22) =~= "rust-toolchain"@);
            assert(r.subrange(0, 10) =~= "cargo test"@);
            lemma_uses_at(g, n, 1, "rust-toolchain"@, 8);
            lemma_run_at(g, n, 3, "cargo test"@, 0);
        },
        PresetKind::PythonApp => {
            reveal_strlit("actions/setup-python@v5");
            reveal_strlit("setup-python");
            reveal_strlit("pytest");
            let u = "actions/setup-python@v5"@;
            let t = g.jobs.len() - 1 - (if python_from_config(c, version).enable_type_check { 1int } else { 0int });
            assert(g.jobs[t].1.steps[1].uses == Some(u));
            assert(g.jobs[t].1.steps[3].run == Some("pytest"@));
            assert(u.subrange(8, 20) =~= "setup-python"@);
            assert("pytest"@.subrange(0, 6) =~= "pytest"@);
            lemma_uses_at(g, t, 1, "setup-python"@, 8);
            lemma_run_at(g, t, 3, "pytest"@, 0);
        },
        PresetKind::GoApp => {
            reveal_strlit("actions/setup-go@v5");
            reveal_strlit("setup-go");
            reveal_strlit("go test -v ./...");
            reveal_strlit("go test");
            let u = "actions/setup-go@v5"@;
            let r = "go test -v ./..."@;
            assert(g.jobs[n].1.steps[1].uses == Some(u));
            assert(g.jobs[n].1.steps[3].run == Some(r));
            assert(u.subrange(8, 16) =~= "setup-go"@);
            assert(r.subrange(0, 7) =~= "go test"@);
            lemma_uses_at(g, n, 1, "setup-go"@, 8);
            lemma_run_at(g, n, 3, "go test"@, 0);
        },
        PresetKind::Docker => {
            reveal_strlit("docker/build-push-action@v5");
            reveal_strlit("docker/build-push-action");
            let u = "docker/build-push-action@v5"@;
            let last = g.jobs[0].1.steps.len() - 1;
            assert(g.jobs[0].1.steps[last].uses == Some(u));
            assert(u.subrange(0, 24) =~= "docker/build-push-action"@);
            lemma_uses_at(g, 0, last, "docker/build-push-action"@, 0);
        },
    }
}

/// Whether a preset recognises itself in a GitLab configuration.
pub open spec fn kind_in_gitlab(k: PresetKind, c: GitLabCIView) -> bool {
    match k {
        PresetKind::Rust => false,
        PresetKind::PythonApp => false,
        PresetKind::GoApp => false,
        PresetKind::Docker => any_script(c, "docker build"@) || any_script(c, "docker push"@),
    }
}

/// How a preset recognises itself in a GitLab configuration: only the Docker
/// preset does, by a script line that contains `docker build` or `docker
/// push`; and it recognises every GitLab configuration it generates itself.
pub proof fn law_gitlab_recognition(k: PresetKind, c: GitLabCIView, cfg: PresetConfigView, version: Seq<char>)
    ensures
        kind_in_gitlab(PresetKind::Docker, c) == (any_script(c, "docker build"@) || any_script(c, "docker push"@)),
        k != PresetKind::Docker ==> !kind_in_gitlab(k, c),
        kind_in_gitlab(PresetKind::Docker, kind_gitlab(PresetKind::Docker, cfg, version)),
{
    reveal_strlit("docker build -t ");
    reveal_strlit("docker build");
    let g = kind_gitlab(PresetKind::Docker, cfg, version);
    let line = g.jobs[0].1.script[1];
    assert(line == crate::docker_preset::build_command(docker_from_config(cfg)));
    assert(line.subrange(0, 12) =~= "docker build"@);
    assert(crate::text::occurs_at(line, "docker build"@, 0));
    assert(contains(line, "docker build"@));
}

fn rust_output(p: &RustPreset, platform: Platform) -> (r: Result<String, CciError>)
    ensures
        text_view(r) == platform_output(
            platform,
            rust_github(p@),
            rust_gitlab(p@),
            rust_circleci(p@),
            rust_jenkins(p@),
        ),
{
    match platform {
        Platform::GitHub => render_workflow(&p.to_github()),
        Platform::Gitea => render_workflow(&p.to_gitea()),
        Platform::GitLab => render_gitlab(&p.to_gitlab()),
        Platform::CircleCI => render_circleci(&p.to_circleci()),
        Platform::Jenkins => render_jenkins(&p.to_jenkins()),
    }
}

fn python_output(p: &PythonAppPreset, platform: Platform) -> (r: Result<String, CciError>)
    ensures
        text_view(r) == platform_output(
            platform,
            python_github(p@),
            python_gitlab(p@),
            python_circleci(p@),
            python_jenkins(p@),
        ),
{
    match platform {
        Platform::GitHub => render_workflow(&p.to_github()),
        Platform::Gitea => render_workflow(&p.to_gitea()),
        Platform::GitLab => render_gitlab(&p.to_gitlab()),
        Platform::CircleCI => render_circleci(&p.to_circleci()),
        Platform::Jenkins => render_jenkins(&p.to_jenkins()),
    }
}

fn go_output(p: &GoAppPreset, platform: Platform) -> (r: Result<String, CciError>)
    ensures
        text_view(r) == platform_output(
            platform,
            go_github(p@),
            go_gitlab(p@),
            go_circleci(p@),
            go_jenkins(p@),
        ),
{
    match platform {
        Platform::GitHub => render_workflow(&p.to_github()),
        Platform::Gitea => render_workflow(&p.to_gitea()),
        Platform::GitLab => render_gitlab(&p.to_gitlab()),
        Platform::CircleCI => render_circleci(&p.to_circleci()),
        Platform::Jenkins => render_jenkins(&p.to_jenkins()),
    }
}

fn docker_output(p: &Docker, platform: Platform) -> (r: Result<String, CciError>)
    ensures
        text_view(r) == platform_output(
            platform,
            docker_github(p@),
            docker_gitlab(p@),
            docker_circleci(p@),
            docker_jenkins(p@),
        ),
{
    match platform {
        Platform::GitHub => render_workflow(&p.to_github()),
        Platform::Gitea => render_workflow(&p.to_gitea()),
        Platform::GitLab => render_gitlab(&p.to_gitlab()),
        Platform::CircleCI => render_circleci(&p.to_circleci()),
        Platform::Jenkins => render_jenkins(&p.to_jenkins()),
    }
}

impl PresetKind {
    /// The identifier the editor and configuration files use.
    pub fn preset_id(&self) -> (s: &'static str)
        ensures
            s@ == kind_id(*self),
    {
        match self {
            PresetKind::Rust => "rust",
            PresetKind::PythonApp => "python-app",
            PresetKind::GoApp => "go-app",
            PresetKind::Docker => "docker",
        }
    }

    /// The name shown to users.
    pub fn preset_name(&self) -> (s: &'static str)
        ensures
            s@ == kind_name(*self),
    {
        match self {
            PresetKind::Rust => "Rust",
            PresetKind::PythonApp => "Python App",
            PresetKind::GoApp => "Go App",
            PresetKind::Docker => "Docker",
        }
    }

    /// The description the editor shows.
    pub fn preset_description(&self) -> (s: &'static str)
        ensures
            s@ == kind_description(*self),
    {
        match self {
            PresetKind::Rust => "CI pipeline for Rust projects (binaries, libraries, and workspaces)",
            PresetKind::PythonApp => "CI pipeline for Python applications with pytest, linting, and type checking",
            PresetKind::GoApp => "CI pipeline for Go applications with testing and linting",
            PresetKind::Docker => "CI pipeline for building and pushing Docker images to registries",
        }
    }

    /// The summary the preset gives of itself when listed.
    pub fn summary(&self) -> (s: &'static str)
        ensures
            s@ == kind_summary(*self),
    {
        match self {
            PresetKind::GoApp => "CI pipeline for Go applications with testing, linting, and security scanning",
            _ => self.preset_description(),
        }
    }

    /// The preset's feature groups with their options.
    pub fn features(&self) -> (f: Vec<FeatureMeta>)
        ensures
            features_view(f@) == kind_features(*self),
    {
        match self {
            PresetKind::Rust => RustPreset::features(),
            PresetKind::PythonApp => PythonAppPreset::features(),
            PresetKind::GoApp => GoAppPreset::features(),
            PresetKind::Docker => Docker::features(),
        }
    }

    /// The editor configuration the preset starts with.
    pub fn default_config(&self, detected: bool) -> (c: PresetConfig)
        ensures
            c@ == kind_default_config(*self, detected),
    {
        match self {
            PresetKind::Rust => RustPreset::default_config(detected),
            PresetKind::PythonApp => PythonAppPreset::default_config(detected),
            PresetKind::GoApp => GoAppPreset::default_config(detected),
            PresetKind::Docker => Docker::default_config(detected),
        }
    }

    /// Whether the preset applies to a project type.
    pub fn matches_project(&self, project_type: ProjectType) -> (b: bool)
        ensures
            b == kind_matches(*self, project_type),
    {
        match self {
            PresetKind::Rust => RustPreset::matches_project(project_type),
            PresetKind::PythonApp => PythonAppPreset::matches_project(project_type),
            PresetKind::GoApp => GoAppPreset::matches_project(project_type),
            PresetKind::Docker => Docker::matches_project(project_type),
        }
    }

    /// The configuration text for a platform, from an editor configuration and
    /// the project's language version.
    pub fn generate(&self, config: &PresetConfig, platform: Platform, language_version: &str) -> (r:
        Result<String, CciError>)
        ensures
            text_view(r) == kind_output(*self, config@, platform, language_version@),
    {
        match self {
            PresetKind::Rust => rust_output(&RustPreset::from_config(config, language_version), platform),
            PresetKind::PythonApp => python_output(
                &PythonAppPreset::from_config(config, language_version),
                platform,
            ),
            PresetKind::GoApp => go_output(&GoAppPreset::from_config(config, language_version), platform),
            PresetKind::Docker => docker_output(&Docker::from_config(config, language_version), platform),
        }
    }

    /// Whether the preset recognises itself in a GitHub workflow.
    pub fn matches_github(&self, workflow: &GitHubWorkflow) -> (b: bool)
        ensures
            b == kind_in_github(*self, workflow@),
    {
        match self {
            PresetKind::Rust => RustPreset::default().matches_github(workflow),
            PresetKind::PythonApp => PythonAppPreset::default().matches_github(workflow),
            PresetKind::GoApp => GoAppPreset::default().matches_github(workflow),
            PresetKind::Docker => Docker::default().matches_github(workflow),
        }
    }

    /// Whether the preset recognises itself in a GitLab configuration.
    pub fn matches_gitlab(&self, config: &GitLabCI) -> (b: bool)
        ensures
            b == kind_in_gitlab(*self, config@),
    {
        match self {
            PresetKind::Rust => RustPreset::default().matches_gitlab(config),
            PresetKind::PythonApp => PythonAppPreset::default().matches_gitlab(config),
            PresetKind::GoApp => GoAppPreset::default().matches_gitlab(config),
            PresetKind::Docker => Docker::default().matches_gitlab(config),
        }
    }
}

/// Gitea Actions reads the GitHub Actions format: every preset generates the
/// same text for both.
pub proof fn law_gitea_same_as_github(k: PresetKind, c: PresetConfigView, version: Seq<char>)
    ensures
        kind_output(k, c, Platform::Gitea, version) == kind_output(k, c, Platform::GitHub, version),
{
}

/// The GitHub Actions workflow a preset builds from an editor configuration.
pub open spec fn kind_github(k: PresetKind, c: PresetConfigView, version: Seq<char>) -> GitHubWorkflowView {
    match k {
        PresetKind::Rust => rust_github(rust_from_config(c, version)),
        PresetKind::PythonApp => python_github(python_from_config(c, version)),
        PresetKind::GoApp => go_github(go_from_config(c, version)),
        PresetKind::Docker => docker_github(docker_from_config(c)),
    }
}

/// The GitLab CI configuration a preset builds from an editor configuration.
pub open spec fn kind_gitlab(k: PresetKind, c: PresetConfigView, version: Seq<char>) -> GitLabCIView {
    match k {
        PresetKind::Rust => rust_gitlab(rust_from_config(c, version)),
        PresetKind::PythonApp => python_gitlab(python_from_config(c, version)),
        PresetKind::GoApp => go_gitlab(go_from_config(c, version)),
        PresetKind::Docker => docker_gitlab(docker_from_config(c)),
    }
}

/// The CircleCI configuration a preset builds from an editor configuration.
pub open spec fn kind_circleci(k: PresetKind, c: PresetConfigView, version: Seq<char>) -> CircleCIConfigView {
    match k {
        PresetKind::Rust => rust_circleci(rust_from_config(c, version)),
        PresetKind::PythonApp => python_circleci(python_from_config(c, version)),
        PresetKind::GoApp => go_circleci(go_from_config(c, version)),
        PresetKind::Docker => docker_circleci(docker_from_config(c)),
    }
}

/// The Jenkins pipeline a preset builds from an editor configuration.
pub open spec fn kind_jenkins(k: PresetKind, c: PresetConfigView, version: Seq<char>) -> JenkinsConfigView {
    match k {
        PresetKind::Rust => rust_jenkins(rust_from_config(c, version)),
        PresetKind::PythonApp => python_jenkins(python_from_config(c, version)),
        PresetKind::GoApp => go_jenkins(go_from_config(c, version)),
        PresetKind::Docker => docker_jenkins(docker_from_config(c)),
    }
}

/// Generating for a platform renders only that platform's model of the
/// preset: the GitHub workflow (for GitHub and Gitea), the GitLab or CircleCI
/// configuration serialised as YAML, whose failure is passed on as a
/// serialisation error, or the Jenkins pipeline as Groovy, which never fails.
pub proof fn law_generation_per_platform(k: PresetKind, c: PresetConfigView, version: Seq<char>, p: Platform)
    ensures
        kind_output(k, c, Platform::GitHub, version) == yaml_output(workflow_doc(kind_github(k, c, version))),
        kind_output(k, c, Platform::Gitea, version) == yaml_output(workflow_doc(kind_github(k, c, version))),
        kind_output(k, c, Platform::GitLab, version) == yaml_output(gitlab_doc(kind_gitlab(k, c, version))),
        kind_output(k, c, Platform::CircleCI, version) == yaml_output(circleci_doc(kind_circleci(k, c, version))),
        kind_output(k, c, Platform::Jenkins, version) == Ok::<Seq<char>, ErrorView>(
            jenkins_doc(kind_jenkins(k, c, version)),
        ),
        kind_output(k, c, p, version) matches Err(e) ==> p != Platform::Jenkins && e is Serialization,
{
}

/// A preset starts with the same options whether or not it matches the
/// project, and with every flag off when it does not.
pub proof fn law_defaults_follow_detection(k: PresetKind, detected: bool)
    ensures
        kind_default_config(k, detected).values.len() == kind_default_config(k, false).values.len(),
        forall|i: int|
            0 <= i < kind_default_config(k, false).values.len() ==> (#[trigger] kind_default_config(
                k,
                false,
            ).values[i]).1 != crate::config::OptionView::Bool(true) && kind_default_config(k, detected).values[i].0
                == kind_default_config(k, false).values[i].0,
{
}

// ---------------------------------------------------------------- registry

/// The first position of a preset with the identifier.
pub open spec fn kind_index(ks: Seq<PresetKind>, id: Seq<char>) -> Option<int>
    decreases ks.len(),
{
    if ks.len() == 0 {
        None
    } else if kind_id(ks.last()) == id && kind_index(ks.drop_last(), id) is None {
        Some(ks.len() - 1)
    } else {
        kind_index(ks.drop_last(), id)
    }
}

/// The first registered preset with the identifier.
pub open spec fn registry_get(ks: Seq<PresetKind>, id: Seq<char>) -> Option<PresetKind> {
    match kind_index(ks, id) {
        Some(i) => Some(ks[i]),
        None => None,
    }
}

pub proof fn lemma_kind_index(ks: Seq<PresetKind>, id: Seq<char>)
    ensures
        match kind_index(ks, id) {
            Some(i) => 0 <= i < ks.len() && kind_id(ks[i]) == id && forall|j: int|
                0 <= j < i ==> kind_id(#[trigger] ks[j]) != id,
            None => forall|j: int| 0 <= j < ks.len() ==> kind_id(#[trigger] ks[j]) != id,
        },
    decreases ks.len(),
{
    if ks.len() > 0 {
        lemma_kind_index(ks.drop_last(), id);
        assert forall|j: int| 0 <= j < ks.len() - 1 implies ks[j] == ks.drop_last()[j] by {}
    }
}

/// The built-in presets, in the order the editor lists them.
pub open spec fn builtin_presets() -> Seq<PresetKind> {
    seq![PresetKind::Rust, PresetKind::PythonApp, PresetKind::GoApp, PresetKind::Docker]
}

/// The presets the editor offers.
pub struct PresetRegistry {
    presets: Vec<PresetKind>,
}

impl View for PresetRegistry {
    type V = Seq<PresetKind>;

    closed spec fn view(&self) -> Seq<PresetKind> {
        self.presets@
    }
}

impl PresetRegistry {
    /// An empty registry.
    pub fn new() -> (r: Self)
        ensures
            r@ == Seq::<PresetKind>::empty(),
    {
        PresetRegistry { presets: Vec::new() }
    }

    /// Adds a preset after the registered ones.
    pub fn register(&mut self, preset: PresetKind)
        ensures
            final(self)@ == old(self)@.push(preset),
    {
        self.presets.push(preset);
    }

    /// The first registered preset with the identifier.
    pub fn get(&self, id: &str) -> (r: Option<PresetKind>)
        ensures
            r == registry_get(self@, id@),
    {
        let ghost ks = self@;
        let mut i: usize = 0;
        proof {
            lemma_kind_index(ks, id@);
        }
        while i < self.presets.len()
            invariant
                0 <= i <= ks.len(),
                ks == self@,
                forall|j: int| 0 <= j < i ==> kind_id(#[trigger] ks[j]) != id@,
                match kind_index(ks, id@) {
                    Some(x) => 0 <= x < ks.len() && kind_id(ks[x]) == id@ && forall|j: int|
                        0 <= j < x ==> kind_id(#[trigger] ks[j]) != id@,
                    None => forall|j: int| 0 <= j < ks.len() ==> kind_id(#[trigger] ks[j]) != id@,
                },
            decreases ks.len() - i,
        {
            let k = self.presets[i];
            if str_eq(k.preset_id(), id) {
                assert(kind_id(ks[i as int]) == id@);
                assert(kind_index(ks, id@) == Some(i as int));
                return Some(k);
            }
            i = i + 1;
        }
        None
    }

    /// The registered presets, in order, split into those that match the
    /// project type and the others.
    pub fn split_by_project(&self, project_type: ProjectType) -> (r: (Vec<PresetKind>, Vec<PresetKind>))
        ensures
            r.0@ == crate::editor::matching_part(self@, project_type, true),
            r.1@ == crate::editor::matching_part(self@, project_type, false),
    {
        let ghost ks = self@;
        let mut matching: Vec<PresetKind> = Vec::new();
        let mut others: Vec<PresetKind> = Vec::new();
        let mut i: usize = 0;
        while i < self.presets.len()
            invariant
                0 <= i <= ks.len(),
                ks == self@,
                matching@ == crate::editor::matching_part(ks.take(i as int), project_type, true),
                others@ == crate::editor::matching_part(ks.take(i as int), project_type, false),
            decreases ks.len() - i,
        {
            let k = self.presets[i];
            assert(ks.take(i + 1).drop_last() =~= ks.take(i as int));
            assert(ks.take(i + 1).last() == k);
            if k.matches_project(project_type) {
                matching.push(k);
                assert(others@ =~= crate::editor::matching_part(ks.take(i + 1), project_type, false));
            } else {
                others.push(k);
                assert(matching@ =~= crate::editor::matching_part(ks.take(i + 1), project_type, true));
            }
            i = i + 1;
        }
        assert(ks.take(ks.len() as int) =~= ks);
        (matching, others)
    }

    /// The registered presets, in order.
    pub fn all(&self) -> (v: Vec<PresetKind>)
        ensures
            v@ == self@,
    {
        self.presets.clone()
    }
}

/// The registry of all built-in presets: Rust, Python, Go, Docker.
pub fn build_registry() -> (r: PresetRegistry)
    ensures
        r@ == builtin_presets(),
{
    let mut registry = PresetRegistry::new();
    registry.register(PresetKind::Rust);
    registry.register(PresetKind::PythonApp);
    registry.register(PresetKind::GoApp);
    registry.register(PresetKind::Docker);
    assert(registry@ =~= builtin_presets());
    registry
}

// ---------------------------------------------------------------- detection in existing CI files

/// The identifiers of the presets, in order, that a predicate selects.
pub open spec fn selected_ids(ks: Seq<PresetKind>, sel: spec_fn(PresetKind) -> bool) -> Seq<Seq<char>>
    decreases ks.len(),
{
    if ks.len() == 0 {
        Seq::empty()
    } else {
        selected_ids(ks.drop_last(), sel) + if sel(ks.last()) {
            seq![kind_id(ks.last())]
        } else {
            Seq::empty()
        }
    }
}

/// An existing CI file, read in the format its path gives it.
pub enum CiDocument {
    GitHub(GitHubWorkflow),
    GitLab(GitLabCI),
    Other,
}

/// The format of an existing CI file, by its path: a file under
/// `.github/workflows` holds a GitHub Actions workflow, a file named
/// `.gitlab-ci.yml` a GitLab CI configuration, and any other file neither.
pub open spec fn ci_file_platform_of(path: Seq<char>, file_name: Option<Seq<char>>) -> Option<Platform> {
    if contains(path, ".github/workflows"@) {
        Some(Platform::GitHub)
    } else if file_name == Some(".gitlab-ci.yml"@) {
        Some(Platform::GitLab)
    } else {
        None
    }
}

/// The format of an existing CI file, from its path and the path's last
/// component.
pub fn ci_file_platform(path: &str, file_name: Option<&str>) -> (r: Option<Platform>)
    ensures
        r == ci_file_platform_of(path@, crate::editor::opt_text(file_name)),
{
    if string_contains(path, ".github/workflows") {
        Some(Platform::GitHub)
    } else {
        match file_name {
            Some(n) => if str_eq(n, ".gitlab-ci.yml") {
                Some(Platform::GitLab)
            } else {
                None
            },
            None => None,
        }
    }
}

/// Each platform's file is the one that platform reads its pipeline from:
/// `.github/workflows/ci.yml` for GitHub Actions, `.gitea/workflows/ci.yml`
/// for Gitea Actions, `.gitlab-ci.yml` for GitLab CI, `.circleci/config.yml`
/// for CircleCI and `Jenkinsfile` for Jenkins. No two platforms write the same
/// file, and the files written for GitHub and GitLab are read back in their
/// platform's format.
pub proof fn law_output_paths(p: Platform, q: Platform)
    ensures
        platform_path(Platform::GitHub) == ".github/workflows/"@ + "ci.yml"@,
        platform_path(Platform::Gitea) == ".gitea/workflows/"@ + "ci.yml"@,
        platform_path(Platform::GitLab) == ".gitlab-ci.yml"@,
        platform_path(Platform::CircleCI) == ".circleci/"@ + "config.yml"@,
        platform_path(Platform::Jenkins) == "Jenkinsfile"@,
        p != q ==> platform_path(p) != platform_path(q),
        ci_file_platform_of(platform_path(Platform::GitHub), Some("ci.yml"@)) == Some(Platform::GitHub),
        ci_file_platform_of(platform_path(Platform::GitLab), Some(platform_path(Platform::GitLab))) == Some(
            Platform::GitLab,
        ),
{
    reveal_strlit(".github/workflows/ci.yml");
    reveal_strlit(".gitea/workflows/ci.yml");
    reveal_strlit(".gitlab-ci.yml");
    reveal_strlit(".circleci/config.yml");
    reveal_strlit("Jenkinsfile");
    reveal_strlit(".github/workflows/");
    reveal_strlit(".gitea/workflows/");
    reveal_strlit(".circleci/");
    reveal_strlit("ci.yml");
    reveal_strlit("config.yml");
    reveal_strlit(".github/workflows");
    assert(platform_path(Platform::GitHub) =~= ".github/workflows/"@ + "ci.yml"@);
    assert(platform_path(Platform::Gitea) =~= ".gitea/workflows/"@ + "ci.yml"@);
    assert(platform_path(Platform::CircleCI) =~= ".circleci/"@ + "config.yml"@);
    assert(platform_path(Platform::GitHub).subrange(0, 17) =~= ".github/workflows"@);
    assert(crate::text::occurs_at(platform_path(Platform::GitHub), ".github/workflows"@, 0));
    assert(!contains(platform_path(Platform::GitLab), ".github/workflows"@));
    assert(platform_path(Platform::GitHub).len() == 24);
    assert(platform_path(Platform::Gitea).len() == 23);
    assert(platform_path(Platform::GitLab).len() == 14);
    assert(platform_path(Platform::CircleCI).len() == 20);
    assert(platform_path(Platform::Jenkins).len() == 11);
}

/// Detects which presets match existing CI configurations.
pub struct PresetDetector {
    presets: Vec<PresetKind>,
}

impl View for PresetDetector {
    type V = Seq<PresetKind>;

    closed spec fn view(&self) -> Seq<PresetKind> {
        self.presets@
    }
}

impl PresetDetector {
    /// A detector with no presets.
    pub fn new() -> (d: Self)
        ensures
            d@ == Seq::<PresetKind>::empty(),
    {
        PresetDetector { presets: Vec::new() }
    }

    /// Adds a preset after the others.
    pub fn add_preset(&mut self, preset: PresetKind)
        ensures
            final(self)@ == old(self)@.push(preset),
    {
        self.presets.push(preset);
    }

    /// The names of the presets, in order, that recognise themselves in a workflow.
    pub fn detect_github(&self, workflow: &GitHubWorkflow) -> (names: Vec<&'static str>)
        ensures
            names@.map_values(|s: &'static str| s@) == selected_ids(
                self@,
                |k: PresetKind| kind_in_github(k, workflow@),
            ),
    {
        let ghost sel = |k: PresetKind| kind_in_github(k, workflow@);
        let mut names: Vec<&'static str> = Vec::new();
        let mut i: usize = 0;
        while i < self.presets.len()
            invariant
                0 <= i <= self@.len(),
                names@.map_values(|s: &'static str| s@) == selected_ids(self@.take(i as int), sel),
                sel == (|k: PresetKind| kind_in_github(k, workflow@)),
            decreases self@.len() - i,
        {
            let k = self.presets[i];
            assert(self@.take(i + 1).drop_last() =~= self@.take(i as int));
            if k.matches_github(workflow) {
                names.push(k.preset_id());
            }
            assert(names@.map_values(|s: &'static str| s@) =~= selected_ids(self@.take(i + 1), sel));
            i = i + 1;
        }
        assert(self@.take(self@.len() as int) =~= self@);
        names
    }

    /// The names of the presets, in order, that recognise themselves in a
    /// GitLab configuration.
    pub fn detect_gitlab(&self, config: &GitLabCI) -> (names: Vec<&'static str>)
        ensures
            names@.map_values(|s: &'static str| s@) == selected_ids(
                self@,
                |k: PresetKind| kind_in_gitlab(k, config@),
            ),
    {
        let ghost sel = |k: PresetKind| kind_in_gitlab(k, config@);
        let mut names: Vec<&'static str> = Vec::new();
        let mut i: usize = 0;
        while i < self.presets.len()
            invariant
                0 <= i <= self@.len(),
                names@.map_values(|s: &'static str| s@) == selected_ids(self@.take(i as int), sel),
                sel == (|k: PresetKind| kind_in_gitlab(k, config@)),
            decreases self@.len() - i,
        {
            let k = self.presets[i];
            assert(self@.take(i + 1).drop_last() =~= self@.take(i as int));
            if k.matches_gitlab(config) {
                names.push(k.preset_id());
            }
            assert(names@.map_values(|s: &'static str| s@) =~= selected_ids(self@.take(i + 1), sel));
            i = i + 1;
        }
        assert(self@.take(self@.len() as int) =~= self@);
        names
    }

    /// The names of the presets, in order, that recognise themselves in an
    /// existing CI file: a GitHub workflow or a GitLab configuration; none for
    /// a file of another kind.
    pub fn detect_in(&self, file: &CiDocument) -> (names: Vec<&'static str>)
        ensures
            names@.map_values(|s: &'static str| s@) == match file {
                CiDocument::GitHub(w) => selected_ids(self@, |k: PresetKind| kind_in_github(k, w@)),
                CiDocument::GitLab(c) => selected_ids(self@, |k: PresetKind| kind_in_gitlab(k, c@)),
                CiDocument::Other => Seq::<Seq<char>>::empty(),
            },
    {
        match file {
            CiDocument::GitHub(w) => self.detect_github(w),
            CiDocument::GitLab(c) => self.detect_gitlab(c),
            CiDocument::Other => {
                let names: Vec<&'static str> = Vec::new();
                assert(names@.map_values(|s: &'static str| s@) =~= Seq::<Seq<char>>::empty());
                names
            },
        }
    }

    /// Each preset's name with its summary, in order.
    pub fn list_presets(&self) -> (v: Vec<(&'static str, &'static str)>)
        ensures
            v@.len() == self@.len(),
            forall|k: int|
                0 <= k < v@.len() ==> (#[trigger] v@[k]).0@ == kind_id(self@[k]) && v@[k].1@
                    == kind_summary(self@[k]),
    {
        let mut v: Vec<(&'static str, &'static str)> = Vec::new();
        let mut i: usize = 0;
        while i < self.presets.len()
            invariant
                0 <= i <= self@.len(),
                v@.len() == i,
                forall|k: int|
                    0 <= k < i ==> (#[trigger] v@[k]).0@ == kind_id(self@[k]) && v@[k].1@
                        == kind_summary(self@[k]),
            decreases self@.len() - i,
        {
            let k = self.presets[i];
            v.push((k.preset_id(), k.summary()));
            i = i + 1;
        }
        v
    }
}


// ---------------------------------------------------------------- generating several presets

/// The texts of listed presets for a platform, each with the path it is
/// written to, in order; the first unknown preset or failure ends the list.
pub open spec fn outputs_of(
    ks: Seq<PresetKind>,
    items: Seq<(Seq<char>, PresetConfigView)>,
    platform: Platform,
    version: Seq<char>,
) -> Result<Seq<(Seq<char>, Seq<char>)>, ErrorView>
    decreases items.len(),
{
    if items.len() == 0 {
        Ok(Seq::empty())
    } else {
        match outputs_of(ks, items.drop_last(), platform, version) {
            Err(e) => Err(e),
            Ok(prev) => match registry_get(ks, items.last().0) {
                None => Err(ErrorView::UnknownPreset(items.last().0)),
                Some(k) => match kind_output(k, items.last().1, platform, version) {
                    Err(e) => Err(e),
                    Ok(text) => Ok(prev.push((platform_path(platform), text))),
                },
            },
        }
    }
}

proof fn lemma_outputs_error_stays(
    ks: Seq<PresetKind>,
    items: Seq<(Seq<char>, PresetConfigView)>,
    platform: Platform,
    version: Seq<char>,
    i: int,
)
    requires
        0 <= i <= items.len(),
        outputs_of(ks, items.take(i), platform, version) is Err,
    ensures
        outputs_of(ks, items, platform, version) == outputs_of(ks, items.take(i), platform, version),
    decreases items.len() - i,
{
    if i < items.len() {
        assert(items.take(i + 1).drop_last() =~= items.take(i));
        lemma_outputs_error_stays(ks, items, platform, version, i + 1);
    } else {
        assert(items.take(i) =~= items);
    }
}

pub open spec fn configs_list_view(v: Seq<(String, PresetConfig)>) -> Seq<(Seq<char>, PresetConfigView)> {
    v.map_values(|p: (String, PresetConfig)| (p.0@, p.1@))
}

pub open spec fn outputs_view(r: Result<Vec<(String, String)>, CciError>) -> Result<Seq<(Seq<char>, Seq<char>)>, ErrorView> {
    match r {
        Ok(v) => Ok(v@.map_values(|p: (String, String)| (p.0@, p.1@))),
        Err(e) => Err(e@),
    }
}

/// Generates each listed preset's configuration text for a platform, with
/// the path it is written to.
pub fn generate_all(
    registry: &PresetRegistry,
    configs: &Vec<(String, PresetConfig)>,
    platform: Platform,
    language_version: &str,
) -> (r: Result<Vec<(String, String)>, CciError>)
    ensures
        outputs_view(r) == outputs_of(registry@, configs_list_view(configs@), platform, language_version@),
{
    let ghost items = configs_list_view(configs@);
    let ghost ks = registry@;
    let mut out: Vec<(String, String)> = Vec::new();
    let mut i: usize = 0;
    assert(items.take(0) =~= Seq::<(Seq<char>, PresetConfigView)>::empty());
    assert(out@.map_values(|p: (String, String)| (p.0@, p.1@)) =~= Seq::<(Seq<char>, Seq<char>)>::empty());
    while i < configs.len()
        invariant
            0 <= i <= configs@.len(),
            items == configs_list_view(configs@),
            ks == registry@,
            outputs_of(ks, items.take(i as int), platform, language_version@) == Ok::<
                Seq<(Seq<char>, Seq<char>)>,
                ErrorView,
            >(out@.map_values(|p: (String, String)| (p.0@, p.1@))),
        decreases configs@.len() - i,
    {
        proof {
            assert(items.take(i + 1).drop_last() =~= items.take(i as int));
            assert(items.take(i + 1).last() == (configs@[i as int].0@, configs@[i as int].1@));
        }
        let id = configs[i].0.as_str();
        match registry.get(id) {
            None => {
                proof {
                    lemma_outputs_error_stays(ks, items, platform, language_version@, i + 1);
                }
                return Err(CciError::UnknownPreset(id.to_owned()));
            },
            Some(k) => match k.generate(&configs[i].1, platform, language_version) {
                Err(e) => {
                    proof {
                        lemma_outputs_error_stays(ks, items, platform, language_version@, i + 1);
                    }
                    return Err(e);
                },
                Ok(text) => {
                    let ghost before = out@;
                    let path = platform.output_path().to_owned();
                    let ghost pv = (path@, text@);
                    out.push((path, text));
                    proof {
                        assert(out@.map_values(|p: (String, String)| (p.0@, p.1@)) =~= before.map_values(
                            |p: (String, String)| (p.0@, p.1@),
                        ).push(pv));
                    }
                },
            },
        }
        i = i + 1;
    }
    proof {
        assert(items.take(configs@.len() as int) =~= items);
    }
    Ok(out)
}

} // verus!
