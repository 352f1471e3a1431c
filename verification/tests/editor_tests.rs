use cci::config::OptionValue;
use cci::detection::{DetectionResult, ProjectType};
use cci::editor::{EditorApp, EditorKey, EditorState, TreeItem};
use cci::presets::Platform;
use cci::ron_types::{GoAppConfig, PresetChoice, RustConfig};

fn open(project_type: ProjectType, version: Option<&str>) -> EditorState {
    let detection = DetectionResult {
        project_type,
        language_version: version.map(|v| v.to_string()),
        metadata: vec![],
    };
    match EditorState::from_detection(detection, None, ".".to_string()) {
        Ok(s) => s,
        Err(_) => panic!("the editor opens for every detection"),
    }
}

fn preset_items(state: &EditorState) -> Vec<&str> {
    state
        .tree_items
        .iter()
        .filter_map(|item| match item {
            TreeItem::Preset(preset_id) => Some(preset_id.as_str()),
            _ => None,
        })
        .collect()
}

#[test]
fn test_rust_library_enables_only_matching_presets() {
    let state = open(ProjectType::RustLibrary, Some("stable"));

    // All presets should be shown in the tree
    let items = preset_items(&state);

    assert_eq!(items.len(), 4); // All 4 presets
    assert!(items.contains(&"rust"));
    assert!(items.contains(&"python-app"));
    assert!(items.contains(&"go-app"));
    assert!(items.contains(&"docker"));

    // But only Rust options should be enabled by default
    let rust_config = state.preset_config("rust").unwrap();
    assert_eq!(rust_config.get_bool("enable_coverage"), true);
    assert_eq!(rust_config.get_bool("enable_linter"), true);

    let python_config = state.preset_config("python-app").unwrap();
    assert_eq!(python_config.get_bool("enable_linter"), false);
}

#[test]
fn test_rust_binary_enables_only_matching_presets() {
    let state = open(ProjectType::RustBinary, Some("stable"));

    let rust_config = state.preset_config("rust").unwrap();
    assert_eq!(rust_config.get_bool("enable_linter"), true);
    assert_eq!(rust_config.get_bool("build_release"), true);

    let python_config = state.preset_config("python-app").unwrap();
    assert_eq!(python_config.get_bool("enable_linter"), false);
}

#[test]
fn test_python_app_enables_only_matching_presets() {
    let state = open(ProjectType::PythonApp, Some("3.11"));

    let rust_config = state.preset_config("rust").unwrap();
    assert_eq!(rust_config.get_bool("enable_coverage"), false);

    let python_config = state.preset_config("python-app").unwrap();
    assert_eq!(python_config.get_bool("enable_linter"), true);
    assert_eq!(python_config.get_bool("enable_formatter"), true);
}

#[test]
fn test_go_app_enables_only_matching_presets() {
    let state = open(ProjectType::GoApp, Some("1.21"));

    let go_config = state.preset_config("go-app").unwrap();
    assert_eq!(go_config.get_bool("enable_linter"), true);
    assert_eq!(go_config.get_bool("enable_security"), true);
}

#[test]
fn test_docker_preset_shown_for_all_project_types() {
    let project_types = vec![
        ProjectType::RustLibrary,
        ProjectType::RustBinary,
        ProjectType::PythonApp,
        ProjectType::GoApp,
    ];

    for project_type in project_types {
        let state = open(project_type, Some("stable"));

        let has_docker = state
            .tree_items
            .iter()
            .any(|item| matches!(item, TreeItem::Preset(id) if id == "docker"));

        assert!(has_docker, "Docker preset should be shown for {:?}", project_type);
    }
}

#[test]
fn test_docker_enabled_with_docker_project_type() {
    let state = open(ProjectType::DockerImage, None);

    let docker_config = state.preset_config("docker").unwrap();
    assert_eq!(docker_config.get_bool("enable_cache"), true);
}

#[test]
fn test_docker_disabled_for_non_docker_project() {
    let state = open(ProjectType::RustLibrary, Some("stable"));

    let docker_config = state.preset_config("docker").unwrap();
    // Docker preset is available but not enabled by default for non-Docker projects
    assert_eq!(docker_config.get_bool("enable_cache"), false);
}

#[test]
fn test_docker_preset_available_for_all_projects() {
    // Docker preset should be available (but not enabled) for all project types
    let state = open(ProjectType::RustLibrary, Some("stable"));

    // Docker config should exist
    let docker_config = state.preset_config("docker");
    assert!(docker_config.is_some(), "Docker preset should be available");

    // But not enabled by default
    assert_eq!(docker_config.unwrap().get_bool("enable_cache"), false);
}

#[test]
fn test_manually_enabling_non_detected_preset_generates_yaml() {
    let mut state = open(ProjectType::RustLibrary, Some("stable"));

    // The YAML should be for Rust initially
    assert!(state.yaml_preview.contains("cargo"));

    // Now manually disable Rust and enable Python App
    state.set_option_value("rust", "enable_coverage", OptionValue::Bool(false));
    state.set_option_value("rust", "enable_linter", OptionValue::Bool(false));
    state.set_option_value("rust", "enable_formatter", OptionValue::Bool(false));
    state.set_option_value("rust", "enable_security", OptionValue::Bool(false));
    state.set_option_value("rust", "build_release", OptionValue::Bool(false));

    state.set_option_value("python-app", "enable_linter", OptionValue::Bool(true));
    state.set_option_value("python-app", "enable_formatter", OptionValue::Bool(true));

    state.regenerate_yaml();

    // The YAML should now be for Python, even though it's not the detected type
    assert!(
        state.yaml_preview.contains("python")
            || state.yaml_preview.contains("pytest")
            || state.yaml_preview.contains("Setup Python")
    );
    assert!(!state.yaml_preview.contains("cargo"));
}

#[test]
fn test_multiple_presets_first_enabled_wins() {
    let mut state = open(ProjectType::RustLibrary, Some("stable"));

    // Enable both Rust and Python (unusual but allowed)
    state.set_option_value("rust", "enable_linter", OptionValue::Bool(true));
    state.set_option_value("python-app", "enable_linter", OptionValue::Bool(true));

    state.regenerate_yaml();

    // The first preset with options enabled should be used (registry order)
    assert!(state.yaml_preview.contains("cargo"));
}

#[test]
fn matching_presets_come_first_and_are_unfolded() {
    let state = open(ProjectType::GoApp, Some("1.21"));
    let items = preset_items(&state);
    assert_eq!(items, vec!["go-app", "rust", "python-app", "docker"]);
    // The Go preset is unfolded: its two features follow it.
    assert!(matches!(&state.tree_items[1], TreeItem::Feature(p, f) if p == "go-app" && f == "linting"));
    assert!(matches!(&state.tree_items[2], TreeItem::Feature(p, f) if p == "go-app" && f == "security"));
    assert!(matches!(&state.tree_items[3], TreeItem::Preset(p) if p == "rust"));
    assert_eq!(state.tree_items.len(), 6);
    // The cursor starts on the Go preset, whose description is shown.
    assert_eq!(
        state.current_item_description,
        "CI pipeline for Go applications with testing and linting"
    );
}

#[test]
fn toggling_a_flag_twice_restores_it() {
    let mut state = open(ProjectType::RustLibrary, Some("stable"));
    assert_eq!(state.get_option_value("rust", "enable_linter"), Some(&OptionValue::Bool(true)));
    state.toggle_option("rust", "enable_linter");
    assert_eq!(state.get_option_value("rust", "enable_linter"), Some(&OptionValue::Bool(false)));
    state.toggle_option("rust", "enable_linter");
    assert_eq!(state.get_option_value("rust", "enable_linter"), Some(&OptionValue::Bool(true)));
}

#[test]
fn toggling_a_choice_moves_to_the_next_variant() {
    let mut state = open(ProjectType::PythonApp, Some("3.11"));
    state.toggle_option("python-app", "linter");
    match state.get_option_value("python-app", "linter") {
        Some(OptionValue::Enum { selected, variants }) => {
            assert_eq!(selected, "ruff");
            assert_eq!(variants, &vec!["flake8".to_string(), "ruff".to_string()]);
        }
        _ => panic!("the linter is a choice"),
    }
    state.toggle_option("python-app", "linter");
    match state.get_option_value("python-app", "linter") {
        Some(OptionValue::Enum { selected, .. }) => assert_eq!(selected, "flake8"),
        _ => panic!("the linter is a choice"),
    }
    // Unknown presets and options are left alone.
    state.toggle_option("nope", "linter");
    assert!(state.get_option_value("nope", "linter").is_none());
}

#[test]
fn cycling_platforms_five_times_returns() {
    let mut state = open(ProjectType::RustLibrary, Some("stable"));
    assert_eq!(state.target_platform, Platform::GitHub);
    state.cycle_platform();
    assert_eq!(state.target_platform, Platform::Gitea);
    state.cycle_platform();
    assert_eq!(state.target_platform, Platform::GitLab);
    assert!(state.yaml_preview.contains("rust/test"));
    state.cycle_platform();
    state.cycle_platform();
    assert_eq!(state.target_platform, Platform::Jenkins);
    assert!(state.yaml_preview.starts_with("pipeline {"));
    state.cycle_platform();
    assert_eq!(state.target_platform, Platform::GitHub);
}

#[test]
fn platform_menu_selects_and_closes() {
    let mut state = open(ProjectType::RustLibrary, Some("stable"));
    assert_eq!(state.platform_menu_cursor, 0);
    state.open_platform_menu();
    assert!(state.platform_menu_open);
    state.platform_menu_cursor = 2;
    state.select_platform_from_menu();
    assert!(!state.platform_menu_open);
    assert_eq!(state.target_platform, Platform::GitLab);
    state.open_platform_menu();
    state.platform_menu_cursor = 9;
    state.select_platform_from_menu();
    assert_eq!(state.target_platform, Platform::GitLab);
    state.open_platform_menu();
    state.close_platform_menu();
    assert!(!state.platform_menu_open);
}

#[test]
fn platform_from_name_any_case() {
    let detection = DetectionResult {
        project_type: ProjectType::GoApp,
        language_version: None,
        metadata: vec![],
    };
    let state = match EditorState::from_detection(detection, Some("GitLab".to_string()), ".".to_string()) {
        Ok(s) => s,
        Err(_) => panic!("opens"),
    };
    assert_eq!(state.target_platform, Platform::GitLab);
    assert_eq!(state.platform_menu_cursor, 2);
    assert_eq!(state.language_version, "stable");
    assert_eq!(Platform::from_name("JENKINS"), Platform::Jenkins);
    assert_eq!(Platform::from_name("bitbucket"), Platform::GitHub);
}

#[test]
fn scrolling_down_then_up_returns() {
    let mut state = open(ProjectType::RustLibrary, Some("stable"));
    assert_eq!(state.preview_scroll, 0);
    state.scroll_preview_up();
    assert_eq!(state.preview_scroll, 0);
    state.scroll_preview_down();
    state.scroll_preview_down();
    assert_eq!(state.preview_scroll, 2);
    state.scroll_preview_up();
    assert_eq!(state.preview_scroll, 1);
    state.preview_scroll = u16::MAX;
    state.scroll_preview_down();
    assert_eq!(state.preview_scroll, u16::MAX);
    state.regenerate_yaml();
    assert_eq!(state.preview_scroll, 0);
}

#[test]
fn folding_and_unfolding() {
    let mut state = open(ProjectType::RustLibrary, Some("stable"));
    let before = state.tree_items.len();
    // Unfold a feature of the Rust preset: its option follows it.
    state.toggle_feature_expand("rust", "testing");
    assert_eq!(state.tree_items.len(), before + 1);
    assert!(matches!(&state.tree_items[2], TreeItem::Option(p, f, o)
        if p == "rust" && f == "testing" && o == "enable_coverage"));
    // Folding the preset folds its features too.
    state.toggle_preset_expand("rust");
    assert_eq!(state.tree_items.len(), 4);
    state.toggle_preset_expand("rust");
    assert_eq!(state.tree_items.len(), before);
    assert!(state.expanded_features.is_empty());
}

#[test]
fn descriptions_follow_the_cursor() {
    let mut state = open(ProjectType::RustLibrary, Some("stable"));
    state.toggle_feature_expand("rust", "testing");
    state.tree_cursor = 1;
    state.update_current_item_description();
    assert_eq!(state.current_item_description, "Test coverage reporting");
    state.tree_cursor = 2;
    state.update_current_item_description();
    assert_eq!(state.current_item_description, "Enable code coverage reporting with tarpaulin");
    state.tree_cursor = 99;
    assert!(state.current_item().is_none());
    state.update_current_item_description();
    assert_eq!(state.current_item_description, "");
}

#[test]
fn switching_a_preset_as_a_whole() {
    let mut state = open(ProjectType::RustLibrary, Some("stable"));
    state.toggle_preset("rust");
    let rust = state.preset_config("rust").unwrap();
    assert!(!rust.get_bool("enable_coverage"));
    assert!(!rust.get_bool("build_release"));
    assert!(!rust.has_any_enabled());
    state.toggle_preset("rust");
    assert!(state.preset_config("rust").unwrap().get_bool("enable_linter"));
    // The Go preset has only flags; switching it on enables them all.
    state.toggle_preset("go-app");
    assert!(state.preset_config("go-app").unwrap().get_bool("enable_security"));
    state.toggle_preset("unknown");
}

#[test]
fn tool_choices_count_as_enabled_options() {
    let mut state = open(ProjectType::RustLibrary, Some("stable"));
    for id in ["enable_coverage", "enable_linter", "enable_security", "enable_formatter", "build_release"] {
        state.set_option_value("rust", id, OptionValue::Bool(false));
    }
    // The Python preset's tool choices count as enabled options.
    state.regenerate_yaml();
    assert!(state.yaml_preview.contains("pytest"));
    assert!(state.generation_error.is_none());
}

#[test]
fn editor_app_opens_in_current_directory() {
    let detection = DetectionResult {
        project_type: ProjectType::DockerImage,
        language_version: None,
        metadata: vec![],
    };
    let app = match EditorApp::new(detection, None) {
        Ok(a) => a,
        Err(_) => panic!("opens"),
    };
    assert_eq!(app.state().working_dir, ".");
    // The Python preset comes before the Docker preset and its tool choices
    // count as enabled options, so its pipeline is previewed.
    assert!(app.state().yaml_preview.contains("pytest"));
    assert!(app.into_state().preset_config("docker").unwrap().get_bool("enable_cache"));
}

#[test]
fn keys_move_fold_and_toggle() {
    let mut state = open(ProjectType::RustLibrary, Some("stable"));
    // The cursor starts on the Rust preset; moving down reaches its first feature.
    state.handle_key(EditorKey::Down);
    assert_eq!(state.tree_cursor, 1);
    assert_eq!(state.current_item_description, "Test coverage reporting");
    state.handle_key(EditorKey::Right);
    assert!(matches!(&state.tree_items[2], TreeItem::Option(_, _, o) if o == "enable_coverage"));
    state.handle_key(EditorKey::Down);
    state.handle_key(EditorKey::Toggle);
    assert_eq!(state.get_option_value("rust", "enable_coverage"), Some(&OptionValue::Bool(false)));
    state.handle_key(EditorKey::Up);
    state.handle_key(EditorKey::Left);
    assert_eq!(state.tree_items.len(), 9);
    state.handle_key(EditorKey::Up);
    state.handle_key(EditorKey::Up);
    assert_eq!(state.tree_cursor, 0);
    state.handle_key(EditorKey::ScrollDown);
    assert_eq!(state.preview_scroll, 1);
    state.handle_key(EditorKey::ScrollUp);
    assert_eq!(state.preview_scroll, 0);
    // The platform menu opens at the current platform.
    state.handle_key(EditorKey::Platform);
    assert!(state.platform_menu_open);
    state.handle_key(EditorKey::Down);
    state.handle_key(EditorKey::Down);
    state.handle_key(EditorKey::Toggle);
    assert!(!state.platform_menu_open);
    assert_eq!(state.target_platform, Platform::GitLab);
    state.handle_key(EditorKey::Write);
    assert!(state.should_write);
    state.handle_key(EditorKey::Quit);
    assert!(state.should_quit);
}

#[test]
fn configuration_file_into_editor_and_back() {
    let choices = vec![
        PresetChoice::GoApp(GoAppConfig { enable_linter: true, enable_security_scan: false }),
        PresetChoice::Rust(RustConfig {
            enable_coverage: false,
            enable_linter: false,
            enable_security_scan: false,
            enable_format_check: false,
            build_release: false,
        }),
    ];
    let state = EditorState::from_choices(&choices, ".".to_string());
    assert_eq!(state.language_version, "stable");
    assert_eq!(state.preset_configs.len(), 2);
    assert!(state.preset_config("go-app").unwrap().get_bool("enable_linter"));
    // The Rust preset comes first in the registry but enables nothing: the Go preset is previewed.
    assert!(state.yaml_preview.contains("go/test"));
    let saved = state.enabled_choices();
    assert_eq!(saved.len(), 1);
    match &saved[0] {
        PresetChoice::GoApp(g) => {
            assert!(g.enable_linter);
            assert!(!g.enable_security_scan);
        }
        _ => panic!("the Go preset is saved"),
    }
    // A preset listed twice keeps its last settings.
    let twice = vec![
        PresetChoice::GoApp(GoAppConfig { enable_linter: true, enable_security_scan: false }),
        PresetChoice::GoApp(GoAppConfig { enable_linter: false, enable_security_scan: true }),
    ];
    let state = EditorState::from_choices(&twice, ".".to_string());
    assert_eq!(state.preset_configs.len(), 1);
    assert!(!state.preset_config("go-app").unwrap().get_bool("enable_linter"));
}

#[test]
fn loading_then_saving_gives_the_file_back() {
    let rust = RustConfig {
        enable_coverage: true,
        enable_linter: false,
        enable_security_scan: true,
        enable_format_check: false,
        build_release: true,
    };
    let choices = vec![
        PresetChoice::Rust(rust),
        PresetChoice::GoApp(GoAppConfig { enable_linter: false, enable_security_scan: true }),
    ];
    let state = EditorState::from_choices(&choices, ".".to_string());
    let ids: Vec<&str> = state.preset_configs.iter().map(|c| c.preset_id().as_str()).collect();
    assert_eq!(ids, vec!["rust", "go-app"]);
    let saved = state.enabled_choices();
    assert_eq!(saved.len(), 2);
    match (&saved[0], &saved[1]) {
        (PresetChoice::Rust(r), PresetChoice::GoApp(g)) => {
            assert_eq!(*r, rust);
            assert!(!g.enable_linter);
            assert!(g.enable_security_scan);
        }
        _ => panic!("the Rust preset, then the Go preset"),
    }
}

#[test]
fn every_operation_keeps_one_configuration_per_preset() {
    let mut state = open(ProjectType::RustBinary, None);
    let ids = |s: &EditorState| -> Vec<String> { s.preset_configs.iter().map(|c| c.preset_id().clone()).collect() };
    let before = ids(&state);
    assert_eq!(before, vec!["rust", "python-app", "go-app", "docker"]);
    state.toggle_preset("rust");
    state.toggle_option("docker", "enable_cache");
    state.set_option_value("go-app", "enable_linter", OptionValue::Bool(true));
    state.handle_key(EditorKey::Down);
    state.handle_key(EditorKey::Toggle);
    state.cycle_platform();
    assert_eq!(ids(&state), before);
}

#[test]
fn toggling_a_choice_through_all_variants_returns() {
    let mut state = open(ProjectType::DockerImage, None);
    let selected = |s: &EditorState| match s.get_option_value("docker", "registry") {
        Some(OptionValue::Enum { selected, .. }) => selected.clone(),
        _ => panic!("the registry is a choice"),
    };
    assert_eq!(selected(&state), "none");
    state.toggle_option("docker", "registry");
    assert_eq!(selected(&state), "dockerhub");
    state.toggle_option("docker", "registry");
    assert_eq!(selected(&state), "github");
    state.toggle_option("docker", "registry");
    assert_eq!(selected(&state), "none");
}

#[test]
fn entries_at_their_defaults_are_told_apart() {
    let mut state = open(ProjectType::DockerImage, None);
    assert!(!state.is_option_non_default("docker", "enable_cache"));
    assert!(!state.is_option_non_default("docker", "image_name"));
    assert!(!state.has_feature_non_defaults("docker", "docker"));
    assert!(!state.has_preset_non_defaults("docker"));
    state.toggle_option("docker", "enable_cache");
    assert!(state.is_option_non_default("docker", "enable_cache"));
    assert!(state.has_feature_non_defaults("docker", "docker"));
    assert!(state.has_preset_non_defaults("docker"));
    assert!(!state.is_option_non_default("docker", "no_such_option"));
    assert!(!state.has_feature_non_defaults("docker", "no_such_feature"));
    assert!(!state.has_preset_non_defaults("no_such_preset"));
    state.set_option_value("docker", "image_name", OptionValue::String("other".to_string()));
    assert!(state.is_option_non_default("docker", "image_name"));
}

#[test]
fn the_kelvin_sign_lowers_to_k_in_a_platform_name() {
    let detection = DetectionResult { project_type: ProjectType::GoApp, language_version: None, metadata: vec![] };
    let state = match EditorState::from_detection(detection, Some("Jen\u{212A}ins".to_string()), ".".to_string()) {
        Ok(s) => s,
        Err(_) => panic!("the editor opens"),
    };
    assert_eq!(state.target_platform, Platform::Jenkins);
    assert_eq!(state.platform_menu_cursor, 4);
}
