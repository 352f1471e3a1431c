use cci::rust_preset::RustPreset;

fn has_job(jobs: &[(String, cci::models::GitHubJob)], id: &str) -> bool {
    jobs.iter().any(|(k, _)| k == id)
}

#[test]
fn mod_test_default() {
    let preset = RustPreset::default();
    assert_eq!(preset.rust_version, "stable");
    // Defaults changed - all features are now enabled by default
    assert!(preset.enable_coverage);
    assert!(preset.enable_linter);
    assert!(preset.enable_security_scan);
    assert!(preset.enable_format_check);
    assert!(preset.build_release);
}

#[test]
fn mod_test_with_options() {
    let preset = RustPreset {
        rust_version: "1.75.0".to_string(),
        enable_coverage: true,
        enable_linter: true,
        enable_security_scan: false,
        enable_format_check: false,
        build_release: true,
    };

    assert_eq!(preset.rust_version, "1.75.0");
    assert!(preset.enable_coverage);
    assert!(preset.enable_linter);
    assert!(preset.build_release);
}

#[test]
fn mod_test_to_github_basic() {
    let preset = RustPreset {
        rust_version: "stable".to_string(),
        enable_coverage: false,
        enable_linter: false,
        enable_security_scan: false,
        enable_format_check: false,
        build_release: false,
    };
    let workflow = preset.to_github();

    assert_eq!(workflow.name, "CI");
    assert!(has_job(&workflow.jobs, "rust/test"));
    assert!(!has_job(&workflow.jobs, "rust/lint"));
}

#[test]
fn mod_test_to_github_with_lint() {
    let preset = RustPreset {
        rust_version: "stable".to_string(),
        enable_coverage: false,
        enable_linter: true,
        enable_security_scan: false,
        enable_format_check: false,
        build_release: false,
    };
    let workflow = preset.to_github();

    assert!(has_job(&workflow.jobs, "rust/test"));
    assert!(has_job(&workflow.jobs, "rust/lint"));
}

#[test]
fn mod_test_preset_info() {
    let preset = RustPreset::default();
    assert_eq!(preset.name(), "rust");
    assert!(!preset.description().is_empty());
}

#[test]
fn preset_test_default() {
    let preset = RustPreset::default();
    assert_eq!(preset.rust_version, "stable");
    // Defaults changed - all features are now enabled by default
    assert!(preset.enable_coverage);
    assert!(preset.enable_linter);
    assert!(preset.enable_security_scan);
    assert!(preset.enable_format_check);
    assert!(preset.build_release);
}

#[test]
fn preset_test_with_options() {
    let preset = RustPreset {
        rust_version: "1.75.0".to_string(),
        enable_coverage: true,
        enable_linter: true,
        enable_security_scan: false,
        enable_format_check: false,
        build_release: true,
    };

    assert_eq!(preset.rust_version, "1.75.0");
    assert!(preset.enable_coverage);
    assert!(preset.enable_linter);
    assert!(preset.build_release);
}

#[test]
fn preset_test_to_github_basic() {
    let preset = RustPreset {
        rust_version: "stable".to_string(),
        enable_coverage: false,
        enable_linter: false,
        enable_security_scan: false,
        enable_format_check: false,
        build_release: false,
    };
    let workflow = preset.to_github();

    assert_eq!(workflow.name, "CI");
    assert!(has_job(&workflow.jobs, "rust/test"));
    assert!(!has_job(&workflow.jobs, "rust/lint"));
}

#[test]
fn preset_test_to_github_with_lint() {
    let preset = RustPreset {
        rust_version: "stable".to_string(),
        enable_coverage: false,
        enable_linter: true,
        enable_security_scan: false,
        enable_format_check: false,
        build_release: false,
    };
    let workflow = preset.to_github();

    assert!(has_job(&workflow.jobs, "rust/test"));
    assert!(has_job(&workflow.jobs, "rust/lint"));
}

#[test]
fn preset_test_preset_info() {
    let preset = RustPreset::default();
    assert_eq!(preset.name(), "rust");
    assert!(!preset.description().is_empty());
}

#[test]
fn rust_jobs_in_identifier_order() {
    let preset = RustPreset::default();
    let workflow = preset.to_github();
    let ids: Vec<&str> = workflow.jobs.iter().map(|(k, _)| k.as_str()).collect();
    let mut sorted = ids.clone();
    sorted.sort();
    assert_eq!(ids, sorted);
}
