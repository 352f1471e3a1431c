use cci::config::{OptionValue, PresetConfig};
use cci::diff::{compute_diff, DiffType};
use cci::docker_preset::{Docker, DockerRegistry};
use cci::error::CciError;
use cci::go_preset::GoAppPreset;
use cci::models::{GitHubStep, GitHubWorkflow, GitLabCI};
use cci::presets::{
    build_registry, ci_file_platform, generate_all, CiDocument, Platform, PresetDetector, PresetKind,
    PresetRegistry,
};
use cci::detection::ProjectType;
use cci::preview::{line_shape_of, preview_lines, value_kind_of, LineShape, ValueKind};
use cci::python_preset::{PythonAppPreset, PythonFormatter, PythonLinter};
use cci::ron_types::{
    file_preset_id, is_known_preset_id, preset_choice_to_config, preset_config_to_choice, DockerConfig, GoAppConfig, PresetChoice,
    PythonAppConfig, RustConfig,
};

fn job_ids<T>(jobs: &[(String, T)]) -> Vec<&str> {
    jobs.iter().map(|(k, _)| k.as_str()).collect()
}

#[test]
fn go_jobs_follow_the_flags() {
    let preset = GoAppPreset::default();
    assert_eq!(preset.go_version, "1.21");
    let w = preset.to_github();
    assert_eq!(job_ids(&w.jobs), vec!["go/lint", "go/security", "go/test"]);
    let plain = GoAppPreset { go_version: "1.22".to_string(), enable_linter: false, enable_security_scan: false };
    let w = plain.to_github();
    assert_eq!(job_ids(&w.jobs), vec!["go/test"]);
    let gl = preset.to_gitlab();
    assert_eq!(gl.jobs[0].1.script, vec!["gosec ./...", "golangci-lint run", "go test -v ./..."]);
    assert_eq!(gl.jobs[0].1.image, Some("golang:1.21".to_string()));
    let jk = preset.to_jenkins();
    assert_eq!(jk.stages[0].steps, vec!["sh 'gosec ./...'", "sh 'golangci-lint run'", "sh 'go test -v ./...'"]);
    assert!(preset.matches_github(&w));
    assert!(preset.matches_github(&preset.to_github()));
    assert!(!preset.matches_github(&PythonAppPreset::default().to_github()));
}

#[test]
fn python_script_order() {
    let preset = PythonAppPreset {
        python_version: "3.12".to_string(),
        linter: Some(PythonLinter::Ruff),
        enable_type_check: true,
        formatter: Some(PythonFormatter::Black),
    };
    let gl = preset.to_gitlab();
    assert_eq!(
        gl.jobs[0].1.script,
        vec![
            "pip install -r requirements.txt",
            "pip install black",
            "black --check .",
            "pip install mypy",
            "mypy .",
            "pip install ruff",
            "ruff check .",
            "pytest",
        ]
    );
    let w = preset.to_github();
    assert_eq!(job_ids(&w.jobs), vec!["python/lint", "python/test", "python/type-check"]);
    assert!(preset.matches_github(&w));
    assert_eq!(PythonLinter::Flake8.toggle(), PythonLinter::Ruff);
    assert_eq!(PythonLinter::Ruff.toggle().toggle(), PythonLinter::Ruff);
    assert_eq!(PythonFormatter::Black.toggle(), PythonFormatter::Ruff);
    assert_eq!(PythonFormatter::Ruff.check_command(), "ruff format --check .");
    assert_eq!(PythonLinter::from_str("ruff"), Some(PythonLinter::Ruff));
    assert_eq!(PythonLinter::from_str("pylint"), None);
}

#[test]
fn docker_registry_and_tags() {
    let preset = Docker {
        image_name: "acme/web".to_string(),
        registry: DockerRegistry::GitHubRegistry,
        dockerfile_path: "./Dockerfile".to_string(),
        build_context: ".".to_string(),
        enable_cache: true,
        push_on_tags_only: true,
    };
    let w = preset.to_github();
    assert_eq!(w.name, "Docker Build and Push");
    let steps: &Vec<GitHubStep> = &w.jobs[0].1.steps;
    assert_eq!(steps[2].name, Some("Login to GitHub Container Registry".to_string()));
    let meta = steps[3].with.as_ref().unwrap();
    assert_eq!(meta[0], ("images".to_string(), "ghcr.io/${ github.repository_owner }/acme/web".to_string()));
    let build = steps[4].with.as_ref().unwrap();
    let keys: Vec<&str> = build.iter().map(|(k, _)| k.as_str()).collect();
    assert_eq!(keys, vec!["cache-from", "cache-to", "context", "file", "labels", "push", "tags"]);
    let gl = preset.to_gitlab();
    assert_eq!(gl.jobs[0].1.script[1], "docker build -t acme/web -f ./Dockerfile .");
    assert_eq!(gl.jobs[0].1.script[2], "docker push acme/web");
    assert!(gl.jobs[0].1.only.is_some());
    assert!(preset.matches_gitlab(&gl));
    let jk = preset.to_jenkins();
    assert_eq!(jk.stages[0].steps[1], "sh 'docker build -t acme/web -f ./Dockerfile .'");
    let local = Docker::default();
    let gl = local.to_gitlab();
    assert_eq!(gl.jobs[0].1.script.len(), 2);
    assert!(gl.jobs[0].1.only.is_none());
    assert_eq!(DockerRegistry::from_str("dockerhub"), Some(DockerRegistry::DockerHub));
    assert_eq!(DockerRegistry::GitHubRegistry.as_str(), "github");
}

#[test]
fn generation_per_platform() {
    let rust = PresetKind::Rust;
    let config = rust.default_config(true);
    let github = rust.generate(&config, Platform::GitHub, "1.80").ok().unwrap();
    assert!(github.contains("rust/test"));
    assert!(github.contains("1.80"));
    let gitea = rust.generate(&config, Platform::Gitea, "1.80").ok().unwrap();
    assert_eq!(github, gitea);
    let jenkins = rust.generate(&config, Platform::Jenkins, "1.80").ok().unwrap();
    assert!(jenkins.starts_with("pipeline {"));
    let circle = PresetKind::GoApp.generate(&PresetKind::GoApp.default_config(true), Platform::CircleCI, "").ok().unwrap();
    assert!(circle.contains("golang:1.21"));
    assert!(circle.contains("version: '2.1'") || circle.contains("version: \"2.1\"") || circle.contains("version: 2.1"));
    let docker = PresetKind::Docker.generate(&PresetKind::Docker.default_config(false), Platform::GitLab, "").ok().unwrap();
    assert!(docker.contains("docker:latest"));
}

#[test]
fn registry_lookup_and_order() {
    let registry = build_registry();
    let ids: Vec<&str> = registry.all().iter().map(|k| k.preset_id()).collect();
    assert_eq!(ids, vec!["rust", "python-app", "go-app", "docker"]);
    assert_eq!(registry.get("go-app"), Some(PresetKind::GoApp));
    assert_eq!(registry.get("GoApp"), None);
    let mut r = PresetRegistry::new();
    assert!(r.all().is_empty());
    r.register(PresetKind::Docker);
    assert_eq!(r.get("docker"), Some(PresetKind::Docker));
    assert_eq!(PresetKind::PythonApp.preset_name(), "Python App");
}

#[test]
fn generating_several_presets() {
    let registry = build_registry();
    let configs = vec![
        ("rust".to_string(), PresetKind::Rust.default_config(true)),
        ("docker".to_string(), PresetKind::Docker.default_config(true)),
    ];
    let outputs = generate_all(&registry, &configs, Platform::GitLab, "stable").ok().unwrap();
    assert_eq!(outputs.len(), 2);
    assert_eq!(outputs[0].0, ".gitlab-ci.yml");
    assert!(outputs[1].1.contains("docker build"));
    let bad = vec![("cobol".to_string(), PresetConfig::new("cobol".to_string()))];
    match generate_all(&registry, &bad, Platform::GitHub, "") {
        Err(CciError::UnknownPreset(id)) => assert_eq!(id, "cobol"),
        _ => panic!("an unknown preset is an error"),
    }
}

#[test]
fn detecting_presets_in_existing_workflows() {
    let mut detector = PresetDetector::new();
    detector.add_preset(PresetKind::Rust);
    detector.add_preset(PresetKind::GoApp);
    detector.add_preset(PresetKind::Docker);
    let w: GitHubWorkflow = GoAppPreset::default().to_github();
    assert_eq!(detector.detect_github(&w), vec!["go-app"]);
    let gl: GitLabCI = Docker::default().to_gitlab();
    assert_eq!(detector.detect_gitlab(&gl), vec!["docker"]);
    let listed = detector.list_presets();
    assert_eq!(listed[1], ("go-app", "CI pipeline for Go applications with testing, linting, and security scanning"));
}

#[test]
fn configuration_file_round_trip() {
    let choices = vec![
        PresetChoice::Rust(RustConfig {
            enable_coverage: true,
            enable_linter: false,
            enable_security_scan: true,
            enable_format_check: false,
            build_release: true,
        }),
        PresetChoice::PythonApp(PythonAppConfig {
            linter: Some(PythonLinter::Ruff),
            enable_type_check: false,
            formatter: None,
        }),
        PresetChoice::GoApp(GoAppConfig { enable_linter: true, enable_security_scan: false }),
        PresetChoice::Docker(DockerConfig {
            image_name: "example".to_string(),
            registry: DockerRegistry::DockerHub,
            enable_cache: false,
            push_on_tags_only: true,
        }),
    ];
    for choice in &choices {
        let (id, config) = preset_choice_to_config(choice);
        let back = preset_config_to_choice(&id, &config);
        match (choice, &back) {
            (PresetChoice::Rust(a), PresetChoice::Rust(b)) => assert_eq!(a, b),
            (PresetChoice::PythonApp(a), PresetChoice::PythonApp(b)) => assert_eq!(a, b),
            (PresetChoice::GoApp(a), PresetChoice::GoApp(b)) => assert_eq!(a, b),
            (PresetChoice::Docker(a), PresetChoice::Docker(b)) => {
                assert_eq!(a.image_name, b.image_name);
                assert_eq!(a.registry, b.registry);
                assert_eq!(a.enable_cache, b.enable_cache);
                assert_eq!(a.push_on_tags_only, b.push_on_tags_only);
            }
            _ => panic!("the preset kind survives"),
        }
    }
    let (id, config) = choices[1].to_preset_config();
    assert_eq!(id, "PythonApp");
    assert_eq!(config.preset_id(), "python-app");
    let ids: Vec<String> = choices.iter().map(|c| c.to_preset_config().0).collect();
    assert_eq!(ids, vec!["Rust", "PythonApp", "GoApp", "Docker"]);
    assert_eq!(config.get_enum("linter"), Some("ruff".to_string()));
    assert!(!config.get_bool("enable_formatter"));
}

#[test]
fn option_set_then_get() {
    let mut c = PresetConfig::new("x".to_string());
    c.set("a".to_string(), OptionValue::Bool(true));
    c.set("b".to_string(), OptionValue::String("v".to_string()));
    c.set("a".to_string(), OptionValue::Bool(false));
    assert_eq!(c.get("a"), Some(&OptionValue::Bool(false)));
    assert_eq!(c.get_string("b"), Some("v".to_string()));
    assert_eq!(c.entries().len(), 2);
    assert!(c.has_any_enabled());
    let empty = PresetConfig::new("y".to_string());
    assert!(!empty.has_any_enabled());
}

#[test]
fn diff_of_two_texts() {
    let d = compute_diff("a\nb\nc", "a\nc\nd");
    let kinds: Vec<DiffType> = d.iter().map(|(_, t)| *t).collect();
    assert!(kinds.contains(&DiffType::Removed));
    assert!(kinds.contains(&DiffType::Added));
    assert_eq!(d[0], ("a".to_string(), DiffType::Unchanged));
    let same = compute_diff("x\ny", "x\ny");
    assert!(same.iter().all(|(_, t)| *t == DiffType::Unchanged));
}

#[test]
fn diff_keeps_both_texts() {
    let old = "name: CI\non:\n  push\njobs:\n  a: 1\n  b: 2\n";
    let new = "name: CI\njobs:\n  a: 1\n  c: 3\n  b: 2\nextra: x\n";
    let d = compute_diff(old, new);
    let old_side: Vec<&str> =
        d.iter().filter(|(_, t)| *t != DiffType::Added).map(|(l, _)| l.as_str()).collect();
    let new_side: Vec<&str> =
        d.iter().filter(|(_, t)| *t != DiffType::Removed).map(|(l, _)| l.as_str()).collect();
    assert_eq!(old_side, old.lines().collect::<Vec<_>>());
    assert_eq!(new_side, new.lines().collect::<Vec<_>>());
}

#[test]
fn gitea_text_equals_github_text() {
    for kind in [PresetKind::Rust, PresetKind::PythonApp, PresetKind::GoApp, PresetKind::Docker] {
        let config = kind.default_config(true);
        let a = kind.generate(&config, Platform::GitHub, "").ok().unwrap();
        let b = kind.generate(&config, Platform::Gitea, "").ok().unwrap();
        assert_eq!(a, b);
    }
}

#[test]
fn undetected_presets_start_with_flags_off() {
    for kind in [PresetKind::Rust, PresetKind::PythonApp, PresetKind::GoApp, PresetKind::Docker] {
        let off = kind.default_config(false);
        assert!(off.entries().iter().all(|(_, v)| *v != OptionValue::Bool(true)));
        let on = kind.default_config(true);
        let ids_off: Vec<&str> = off.entries().iter().map(|(k, _)| k.as_str()).collect();
        let ids_on: Vec<&str> = on.entries().iter().map(|(k, _)| k.as_str()).collect();
        assert_eq!(ids_off, ids_on);
    }
    assert!(PresetKind::Rust.default_config(true).entries().iter().all(|(_, v)| *v == OptionValue::Bool(true)));
}

#[test]
fn preview_line_shapes() {
    match line_shape_of("  name: \"x\"") {
        LineShape::Entry { leading, key, value } => {
            assert_eq!(leading, "  ");
            assert_eq!(key, "name");
            assert_eq!(value, Some("\"x\"".to_string()));
        }
        _ => panic!("an entry"),
    }
    match line_shape_of("key:") {
        LineShape::Entry { value, .. } => assert_eq!(value, None),
        _ => panic!("an entry"),
    }
    assert!(matches!(line_shape_of("   # note"), LineShape::Comment));
    assert!(matches!(line_shape_of("   "), LineShape::Blank));
    match line_shape_of("  - cargo test") {
        LineShape::Item { leading, text } => {
            assert_eq!(leading, "  ");
            assert_eq!(text, "cargo test");
        }
        _ => panic!("an item"),
    }
    assert!(matches!(line_shape_of("plain"), LineShape::Other { .. }));
    assert_eq!(value_kind_of("true"), ValueKind::Flag);
    assert_eq!(value_kind_of("'a'"), ValueKind::Quoted);
    assert_eq!(value_kind_of("30"), ValueKind::Text);
    assert_eq!(preview_lines("a: 1\n\nb: 2\n").len(), 3);
}

#[test]
fn configuration_file_ids_translate_to_editor_ids() {
    assert_eq!(file_preset_id("rust"), Some("Rust".to_string()));
    assert_eq!(file_preset_id("python-app"), Some("PythonApp".to_string()));
    assert_eq!(file_preset_id("go-app"), Some("GoApp".to_string()));
    assert_eq!(file_preset_id("docker"), Some("Docker".to_string()));
    assert_eq!(file_preset_id("Rust"), None);
    assert!(is_known_preset_id("GoApp"));
    assert!(!is_known_preset_id("go-app"));
    let config = PresetConfig::new("rust".to_string());
    match preset_config_to_choice("Rust", &config) {
        PresetChoice::Rust(_) => {}
        _ => panic!("the Rust preset"),
    }
}

#[test]
fn each_platform_gets_its_own_format() {
    for kind in [PresetKind::Rust, PresetKind::PythonApp, PresetKind::GoApp, PresetKind::Docker] {
        let config = kind.default_config(true);
        let github = kind.generate(&config, Platform::GitHub, "stable").ok().unwrap();
        let gitea = kind.generate(&config, Platform::Gitea, "stable").ok().unwrap();
        assert_eq!(github, gitea);
        assert!(github.contains("jobs:"));
        let jenkins = kind.generate(&config, Platform::Jenkins, "stable").ok().unwrap();
        assert!(jenkins.contains("pipeline {"));
        let circleci = kind.generate(&config, Platform::CircleCI, "stable").ok().unwrap();
        assert!(circleci.contains("version:"));
    }
}

#[test]
fn option_values_compare_by_content() {
    let a = OptionValue::Enum { selected: "ruff".to_string(), variants: vec!["flake8".to_string(), "ruff".to_string()] };
    let b = OptionValue::Enum { selected: "ruff".to_string(), variants: vec!["flake8".to_string(), "ruff".to_string()] };
    let c = OptionValue::Enum { selected: "ruff".to_string(), variants: vec!["ruff".to_string(), "flake8".to_string()] };
    assert!(a.same_as(&b));
    assert!(!a.same_as(&c));
    assert!(!a.same_as(&OptionValue::Bool(true)));
    assert!(OptionValue::String("x".to_string()).same_as(&OptionValue::String("x".to_string())));
    assert!(!OptionValue::Bool(false).same_as(&OptionValue::Bool(true)));
}

#[test]
fn existing_ci_files_are_read_by_their_path() {
    assert_eq!(ci_file_platform(".github/workflows/ci.yml", Some("ci.yml")), Some(Platform::GitHub));
    assert_eq!(ci_file_platform("repo/.gitlab-ci.yml", Some(".gitlab-ci.yml")), Some(Platform::GitLab));
    assert_eq!(ci_file_platform("Jenkinsfile", Some("Jenkinsfile")), None);
    assert_eq!(ci_file_platform("x/.gitlab-ci.yml.bak", Some(".gitlab-ci.yml.bak")), None);
    let mut detector = PresetDetector::new();
    detector.add_preset(PresetKind::Rust);
    detector.add_preset(PresetKind::GoApp);
    let w = CiDocument::GitHub(GoAppPreset::default().to_github());
    assert_eq!(detector.detect_in(&w), vec!["go-app"]);
    assert!(detector.detect_in(&CiDocument::Other).is_empty());
}

#[test]
fn presets_split_by_the_project() {
    let (matching, others) = build_registry().split_by_project(ProjectType::GoApp);
    assert_eq!(matching, vec![PresetKind::GoApp]);
    assert_eq!(others, vec![PresetKind::Rust, PresetKind::PythonApp, PresetKind::Docker]);
}

#[test]
fn platform_names_are_read_in_any_case() {
    assert_eq!(Platform::from_name("JENKINS"), Platform::Jenkins);
    assert_eq!(Platform::from_name("jen\u{212A}ins"), Platform::Jenkins);
    assert_eq!(Platform::from_name("GitLab"), Platform::GitLab);
    assert_eq!(Platform::from_name("gitlab\u{e9}"), Platform::GitHub);
    assert_eq!(Platform::from_name("nope"), Platform::GitHub);
}
