//! The presets as a configuration file lists them, and their conversion to
//! and from the editor's configurations.
use crate::builders::enum_value;
use crate::config::{
    bool_of, enum_of, push_value, string_of_key, OptionValue, OptionView, PresetConfig,
    PresetConfigView,
};
use crate::docker_preset::{chosen_registry, registry_id, registry_ids, DockerRegistry};
use crate::python_preset::{
    chosen_formatter, chosen_linter, formatter_name, linter_name, PythonFormatter, PythonLinter,
};
use crate::text::str_eq;
use vstd::prelude::*;

verus! {

/// The Rust preset's settings in a configuration file.
#[derive(PartialEq, Eq, Structural, Clone, Copy, Debug)]
pub struct RustConfig {
    pub enable_coverage: bool,
    pub enable_linter: bool,
    pub enable_security_scan: bool,
    pub enable_format_check: bool,
    pub build_release: bool,
}

/// The Python preset's settings in a configuration file.
#[derive(PartialEq, Eq, Structural, Clone, Copy, Debug)]
pub struct PythonAppConfig {
    pub linter: Option<PythonLinter>,
    pub enable_type_check: bool,
    pub formatter: Option<PythonFormatter>,
}

/// The Go preset's settings in a configuration file.
#[derive(PartialEq, Eq, Structural, Clone, Copy, Debug)]
pub struct GoAppConfig {
    pub enable_linter: bool,
    pub enable_security_scan: bool,
}

/// The Docker preset's settings in a configuration file.
pub struct DockerConfig {
    pub image_name: String,
    pub registry: DockerRegistry,
    pub enable_cache: bool,
    pub push_on_tags_only: bool,
}

pub struct DockerConfigView {
    pub image_name: Seq<char>,
    pub registry: DockerRegistry,
    pub enable_cache: bool,
    pub push_on_tags_only: bool,
}

impl View for DockerConfig {
    type V = DockerConfigView;

    open spec fn view(&self) -> DockerConfigView {
        DockerConfigView {
            image_name: self.image_name@,
            registry: self.registry,
            enable_cache: self.enable_cache,
            push_on_tags_only: self.push_on_tags_only,
        }
    }
}

/// One preset of a configuration file.
pub enum PresetChoice {
    PythonApp(PythonAppConfig),
    Rust(RustConfig),
    GoApp(GoAppConfig),
    Docker(DockerConfig),
}

pub enum ChoiceView {
    PythonApp(PythonAppConfig),
    Rust(RustConfig),
    GoApp(GoAppConfig),
    Docker(DockerConfigView),
}

impl View for PresetChoice {
    type V = ChoiceView;

    open spec fn view(&self) -> ChoiceView {
        match self {
            PresetChoice::PythonApp(c) => ChoiceView::PythonApp(*c),
            PresetChoice::Rust(c) => ChoiceView::Rust(*c),
            PresetChoice::GoApp(c) => ChoiceView::GoApp(*c),
            PresetChoice::Docker(c) => ChoiceView::Docker(c@),
        }
    }
}

pub open spec fn linter_ids() -> Seq<Seq<char>> {
    seq!["flake8"@, "ruff"@]
}

pub open spec fn formatter_ids() -> Seq<Seq<char>> {
    seq!["black"@, "ruff"@]
}

/// The editor options of a preset of a configuration file, in the editor's order.
pub open spec fn choice_values(ch: ChoiceView) -> Seq<(Seq<char>, OptionView)> {
    match ch {
        ChoiceView::Rust(c) => seq![
            ("enable_coverage"@, OptionView::Bool(c.enable_coverage)),
            ("enable_linter"@, OptionView::Bool(c.enable_linter)),
            ("enable_security"@, OptionView::Bool(c.enable_security_scan)),
            ("enable_formatter"@, OptionView::Bool(c.enable_format_check)),
            ("build_release"@, OptionView::Bool(c.build_release)),
        ],
        ChoiceView::PythonApp(c) => seq![
            ("enable_linter"@, OptionView::Bool(c.linter is Some)),
            (
                "linter"@,
                OptionView::Enum {
                    selected: match c.linter {
                        Some(l) => linter_name(l),
                        None => "flake8"@,
                    },
                    variants: linter_ids(),
                },
            ),
            ("type_check"@, OptionView::Bool(c.enable_type_check)),
            ("enable_formatter"@, OptionView::Bool(c.formatter is Some)),
            (
                "formatter"@,
                OptionView::Enum {
                    selected: match c.formatter {
                        Some(f) => formatter_name(f),
                        None => "black"@,
                    },
                    variants: formatter_ids(),
                },
            ),
        ],
        ChoiceView::GoApp(c) => seq![
            ("enable_linter"@, OptionView::Bool(c.enable_linter)),
            ("enable_security"@, OptionView::Bool(c.enable_security_scan)),
        ],
        ChoiceView::Docker(c) => seq![
            ("image_name"@, OptionView::Str(c.image_name)),
            ("registry"@, OptionView::Enum { selected: registry_id(c.registry), variants: registry_ids() }),
            ("enable_cache"@, OptionView::Bool(c.enable_cache)),
            ("push_on_tags_only"@, OptionView::Bool(c.push_on_tags_only)),
        ],
    }
}

/// The identifier under which a configuration file names the preset.
pub open spec fn choice_id(ch: ChoiceView) -> Seq<char> {
    match ch {
        ChoiceView::Rust(_) => "Rust"@,
        ChoiceView::PythonApp(_) => "PythonApp"@,
        ChoiceView::GoApp(_) => "GoApp"@,
        ChoiceView::Docker(_) => "Docker"@,
    }
}

/// The identifier under which the editor knows the preset.
pub open spec fn choice_editor_id(ch: ChoiceView) -> Seq<char> {
    match ch {
        ChoiceView::Rust(_) => "rust"@,
        ChoiceView::PythonApp(_) => "python-app"@,
        ChoiceView::GoApp(_) => "go-app"@,
        ChoiceView::Docker(_) => "docker"@,
    }
}

/// The editor configuration of a preset of a configuration file; it carries
/// the editor's identifier of the preset.
pub open spec fn choice_config(ch: ChoiceView) -> PresetConfigView {
    PresetConfigView { preset_id: choice_editor_id(ch), values: choice_values(ch) }
}

/// The identifiers of the presets a configuration file can name.
pub open spec fn known_preset_id(id: Seq<char>) -> bool {
    id == "Rust"@ || id == "PythonApp"@ || id == "GoApp"@ || id == "Docker"@
}

/// Whether configuration files know a preset identifier.
pub fn is_known_preset_id(id: &str) -> (b: bool)
    ensures
        b == known_preset_id(id@),
{
    str_eq(id, "Rust") || str_eq(id, "PythonApp") || str_eq(id, "GoApp") || str_eq(id, "Docker")
}

/// The identifier a configuration file uses for the preset that the editor
/// knows as `editor_id`, where it has one.
pub open spec fn file_id_of(editor_id: Seq<char>) -> Option<Seq<char>> {
    if editor_id == "rust"@ {
        Some("Rust"@)
    } else if editor_id == "python-app"@ {
        Some("PythonApp"@)
    } else if editor_id == "go-app"@ {
        Some("GoApp"@)
    } else if editor_id == "docker"@ {
        Some("Docker"@)
    } else {
        None
    }
}

/// The editor's identifier of the preset that a configuration file names
/// `file_id`, where there is one.
pub open spec fn editor_id_of(file_id: Seq<char>) -> Option<Seq<char>> {
    if file_id == "Rust"@ {
        Some("rust"@)
    } else if file_id == "PythonApp"@ {
        Some("python-app"@)
    } else if file_id == "GoApp"@ {
        Some("go-app"@)
    } else if file_id == "Docker"@ {
        Some("docker"@)
    } else {
        None
    }
}

/// The identifier a configuration file uses for the preset that the editor
/// knows as `editor_id`; `None` for a preset that configuration files cannot name.
pub fn file_preset_id(editor_id: &str) -> (r: Option<String>)
    ensures
        r matches Some(s) ==> file_id_of(editor_id@) == Some(s@),
        r is None ==> file_id_of(editor_id@) is None,
{
    if str_eq(editor_id, "rust") {
        Some("Rust".to_owned())
    } else if str_eq(editor_id, "python-app") {
        Some("PythonApp".to_owned())
    } else if str_eq(editor_id, "go-app") {
        Some("GoApp".to_owned())
    } else if str_eq(editor_id, "docker") {
        Some("Docker".to_owned())
    } else {
        None
    }
}

/// The preset of a configuration file that an editor configuration describes.
pub open spec fn config_choice(id: Seq<char>, c: PresetConfigView) -> ChoiceView
    recommends
        known_preset_id(id),
{
    if id == "Rust"@ {
        ChoiceView::Rust(
            RustConfig {
                enable_coverage: bool_of(c, "enable_coverage"@),
                enable_linter: bool_of(c, "enable_linter"@),
                enable_security_scan: bool_of(c, "enable_security"@),
                enable_format_check: bool_of(c, "enable_formatter"@),
                build_release: bool_of(c, "build_release"@),
            },
        )
    } else if id == "PythonApp"@ {
        ChoiceView::PythonApp(
            PythonAppConfig {
                linter: chosen_linter(c),
                enable_type_check: bool_of(c, "type_check"@),
                formatter: chosen_formatter(c),
            },
        )
    } else if id == "GoApp"@ {
        ChoiceView::GoApp(
            GoAppConfig {
                enable_linter: bool_of(c, "enable_linter"@),
                enable_security_scan: bool_of(c, "enable_security"@),
            },
        )
    } else {
        ChoiceView::Docker(
            DockerConfigView {
                image_name: match string_of_key(c, "image_name"@) {
                    Some(s) => s,
                    None => "myapp"@,
                },
                registry: chosen_registry(c),
                enable_cache: bool_of(c, "enable_cache"@),
                push_on_tags_only: bool_of(c, "push_on_tags_only"@),
            },
        )
    }
}

impl PresetChoice {
    /// The preset's identifier and its editor configuration.
    pub fn to_preset_config(&self) -> (r: (String, PresetConfig))
        ensures
            r.0@ == choice_id(self@),
            r.1@ == choice_config(self@),
            editor_id_of(r.0@) == Some(r.1@.preset_id),
    {
        let mut v: Vec<(String, OptionValue)> = Vec::new();
        let id = match self {
            PresetChoice::Rust(c) => {
                push_value(&mut v, "enable_coverage", OptionValue::Bool(c.enable_coverage));
                push_value(&mut v, "enable_linter", OptionValue::Bool(c.enable_linter));
                push_value(&mut v, "enable_security", OptionValue::Bool(c.enable_security_scan));
                push_value(&mut v, "enable_formatter", OptionValue::Bool(c.enable_format_check));
                push_value(&mut v, "build_release", OptionValue::Bool(c.build_release));
                "rust"
            },
            PresetChoice::PythonApp(c) => {
                let linter = match c.linter {
                    Some(l) => l.name(),
                    None => "flake8",
                };
                let formatter = match c.formatter {
                    Some(f) => f.name(),
                    None => "black",
                };
                push_value(&mut v, "enable_linter", OptionValue::Bool(c.linter.is_some()));
                push_value(&mut v, "linter", enum_value(linter, PythonLinter::all_variants()));
                push_value(&mut v, "type_check", OptionValue::Bool(c.enable_type_check));
                push_value(&mut v, "enable_formatter", OptionValue::Bool(c.formatter.is_some()));
                push_value(&mut v, "formatter", enum_value(formatter, PythonFormatter::all_variants()));
                "python-app"
            },
            PresetChoice::GoApp(c) => {
                push_value(&mut v, "enable_linter", OptionValue::Bool(c.enable_linter));
                push_value(&mut v, "enable_security", OptionValue::Bool(c.enable_security_scan));
                "go-app"
            },
            PresetChoice::Docker(c) => {
                push_value(&mut v, "image_name", OptionValue::String(c.image_name.clone()));
                push_value(
                    &mut v,
                    "registry",
                    enum_value(c.registry.as_str(), DockerRegistry::all_variants()),
                );
                push_value(&mut v, "enable_cache", OptionValue::Bool(c.enable_cache));
                push_value(&mut v, "push_on_tags_only", OptionValue::Bool(c.push_on_tags_only));
                "docker"
            },
        };
        let config = PresetConfig::from_entries(id.to_owned(), v);
        assert(config@.values =~= choice_values(self@));
        let file_id = match self {
            PresetChoice::Rust(_) => "Rust",
            PresetChoice::PythonApp(_) => "PythonApp",
            PresetChoice::GoApp(_) => "GoApp",
            PresetChoice::Docker(_) => "Docker",
        };
        proof {
            lemma_distinct_ids();
        }
        (file_id.to_owned(), config)
    }
}

/// The preset's identifier and its editor configuration.
pub fn preset_choice_to_config(choice: &PresetChoice) -> (r: (String, PresetConfig))
    ensures
        r.0@ == choice_id(choice@),
        r.1@ == choice_config(choice@),
        editor_id_of(r.0@) == Some(r.1@.preset_id),
{
    choice.to_preset_config()
}

/// The preset of a configuration file that an editor configuration describes.
pub fn preset_config_to_choice(preset_id: &str, config: &PresetConfig) -> (r: PresetChoice)
    requires
        known_preset_id(preset_id@),
    ensures
        r@ == config_choice(preset_id@, config@),
{
    if str_eq(preset_id, "Rust") {
        PresetChoice::Rust(
            RustConfig {
                enable_coverage: config.get_bool("enable_coverage"),
                enable_linter: config.get_bool("enable_linter"),
                enable_security_scan: config.get_bool("enable_security"),
                enable_format_check: config.get_bool("enable_formatter"),
                build_release: config.get_bool("build_release"),
            },
        )
    } else if str_eq(preset_id, "PythonApp") {
        let p = crate::python_preset::PythonAppPreset::from_config(config, "");
        PresetChoice::PythonApp(
            PythonAppConfig {
                linter: p.linter,
                enable_type_check: p.enable_type_check,
                formatter: p.formatter,
            },
        )
    } else if str_eq(preset_id, "GoApp") {
        PresetChoice::GoApp(
            GoAppConfig {
                enable_linter: config.get_bool("enable_linter"),
                enable_security_scan: config.get_bool("enable_security"),
            },
        )
    } else {
        let d = crate::docker_preset::Docker::from_config(config, "");
        PresetChoice::Docker(
            DockerConfig {
                image_name: d.image_name,
                registry: d.registry,
                enable_cache: d.enable_cache,
                push_on_tags_only: d.push_on_tags_only,
            },
        )
    }
}


proof fn lemma_distinct_keys()
    ensures
        "enable_coverage"@ != "enable_linter"@,
        "enable_coverage"@ != "enable_security"@,
        "enable_coverage"@ != "enable_formatter"@,
        "enable_coverage"@ != "build_release"@,
        "enable_linter"@ != "enable_security"@,
        "enable_linter"@ != "enable_formatter"@,
        "enable_linter"@ != "build_release"@,
        "enable_security"@ != "enable_formatter"@,
        "enable_security"@ != "build_release"@,
        "enable_formatter"@ != "build_release"@,
        "enable_linter"@ != "linter"@,
        "enable_linter"@ != "type_check"@,
        "enable_linter"@ != "formatter"@,
        "linter"@ != "type_check"@,
        "linter"@ != "enable_formatter"@,
        "linter"@ != "formatter"@,
        "type_check"@ != "enable_formatter"@,
        "type_check"@ != "formatter"@,
        "enable_formatter"@ != "formatter"@,
        "image_name"@ != "registry"@,
        "image_name"@ != "enable_cache"@,
        "image_name"@ != "push_on_tags_only"@,
        "registry"@ != "enable_cache"@,
        "registry"@ != "push_on_tags_only"@,
        "enable_cache"@ != "push_on_tags_only"@,
{
    reveal_strlit("enable_coverage");
    reveal_strlit("enable_linter");
    reveal_strlit("enable_security");
    reveal_strlit("enable_formatter");
    reveal_strlit("build_release");
    reveal_strlit("linter");
    reveal_strlit("type_check");
    reveal_strlit("formatter");
    reveal_strlit("image_name");
    reveal_strlit("registry");
    reveal_strlit("enable_cache");
    reveal_strlit("push_on_tags_only");
    assert("enable_coverage"@[7] != "enable_security"@[7]);
    assert("enable_coverage"@.len() != "enable_linter"@.len());
    assert("enable_coverage"@.len() != "enable_formatter"@.len());
    assert("enable_coverage"@.len() != "build_release"@.len());
    assert("enable_linter"@.len() != "enable_security"@.len());
    assert("enable_linter"@.len() != "enable_formatter"@.len());
    assert("enable_linter"@[0] != "build_release"@[0]);
    assert("enable_security"@.len() != "enable_formatter"@.len());
    assert("enable_security"@.len() != "build_release"@.len());
    assert("enable_formatter"@.len() != "build_release"@.len());
    assert("enable_linter"@.len() != "linter"@.len());
    assert("enable_linter"@.len() != "type_check"@.len());
    assert("enable_linter"@.len() != "formatter"@.len());
    assert("linter"@.len() != "type_check"@.len());
    assert("linter"@.len() != "enable_formatter"@.len());
    assert("linter"@.len() != "formatter"@.len());
    assert("type_check"@.len() != "enable_formatter"@.len());
    assert("type_check"@.len() != "formatter"@.len());
    assert("enable_formatter"@.len() != "formatter"@.len());
    assert("image_name"@.len() != "registry"@.len());
    assert("image_name"@.len() != "enable_cache"@.len());
    assert("image_name"@.len() != "push_on_tags_only"@.len());
    assert("registry"@.len() != "enable_cache"@.len());
    assert("registry"@.len() != "push_on_tags_only"@.len());
    assert("enable_cache"@.len() != "push_on_tags_only"@.len());
}

/// The preset identifiers differ from one another, in either scheme.
pub proof fn lemma_distinct_ids()
    ensures
        "rust"@ != "python-app"@,
        "rust"@ != "go-app"@,
        "rust"@ != "docker"@,
        "python-app"@ != "go-app"@,
        "python-app"@ != "docker"@,
        "go-app"@ != "docker"@,
        "Rust"@ != "PythonApp"@,
        "Rust"@ != "GoApp"@,
        "Rust"@ != "Docker"@,
        "PythonApp"@ != "GoApp"@,
        "PythonApp"@ != "Docker"@,
        "GoApp"@ != "Docker"@,
{
    reveal_strlit("rust");
    reveal_strlit("python-app");
    reveal_strlit("go-app");
    reveal_strlit("docker");
    reveal_strlit("Rust");
    reveal_strlit("PythonApp");
    reveal_strlit("GoApp");
    reveal_strlit("Docker");
    assert("rust"@.len() != "python-app"@.len());
    assert("rust"@.len() != "go-app"@.len());
    assert("rust"@.len() != "docker"@.len());
    assert("python-app"@.len() != "go-app"@.len());
    assert("python-app"@.len() != "docker"@.len());
    assert("go-app"@[0] != "docker"@[0]);
    assert("Rust"@.len() != "PythonApp"@.len());
    assert("Rust"@.len() != "GoApp"@.len());
    assert("Rust"@.len() != "Docker"@.len());
    assert("PythonApp"@.len() != "GoApp"@.len());
    assert("PythonApp"@.len() != "Docker"@.len());
    assert("GoApp"@.len() != "Docker"@.len());
}

/// A configuration file and the editor name each preset by identifiers that
/// translate into one another.
pub proof fn law_id_translation(ch: ChoiceView)
    ensures
        file_id_of(choice_editor_id(ch)) == Some(choice_id(ch)),
        editor_id_of(choice_id(ch)) == Some(choice_editor_id(ch)),
        choice_config(ch).preset_id == choice_editor_id(ch),
{
    lemma_distinct_ids();
}

/// Writing a preset of a configuration file into the editor and reading it
/// back gives the same preset.
pub proof fn law_choice_round_trip(ch: ChoiceView)
    ensures
        known_preset_id(choice_id(ch)),
        config_choice(choice_id(ch), choice_config(ch)) == ch,
{
    lemma_distinct_keys();
    lemma_distinct_ids();
    reveal_with_fuel(crate::config::key_index, 6);
    match ch {
        ChoiceView::PythonApp(c) => {
            crate::python_preset::law_tool_toggle_and_identifiers(PythonLinter::Flake8, PythonFormatter::Black);
            match c.linter {
                Some(l) => {
                    crate::python_preset::law_tool_toggle_and_identifiers(l, PythonFormatter::Black);
                },
                None => {},
            }
            match c.formatter {
                Some(f) => {
                    crate::python_preset::law_tool_toggle_and_identifiers(PythonLinter::Flake8, f);
                },
                None => {},
            }
        },
        ChoiceView::Docker(c) => {
            crate::docker_preset::law_registry_identifiers(c.registry);
        },
        _ => {},
    }
}


/// Saving an editor configuration as it starts, whether or not the preset
/// matched the project, and loading it again gives the same configuration.
pub proof fn law_default_config_round_trip(k: crate::presets::PresetKind, detected: bool)
    ensures
        file_id_of(crate::presets::kind_id(k)) is Some,
        known_preset_id(file_id_of(crate::presets::kind_id(k))->0),
        choice_config(
            config_choice(file_id_of(crate::presets::kind_id(k))->0, crate::presets::kind_default_config(k, detected)),
        ) == crate::presets::kind_default_config(k, detected),
{
    lemma_distinct_keys();
    lemma_distinct_ids();
    reveal_with_fuel(crate::config::key_index, 6);
    let c = config_choice(file_id_of(crate::presets::kind_id(k))->0, crate::presets::kind_default_config(k, detected));
    assert(choice_editor_id(c) == crate::presets::kind_id(k));
    crate::python_preset::law_tool_toggle_and_identifiers(PythonLinter::Flake8, PythonFormatter::Black);
    crate::docker_preset::law_registry_identifiers(DockerRegistry::NoRegistry);
    assert(choice_values(c) =~= crate::presets::kind_default_config(k, detected).values);
}

/// Each setting of a configuration file means the same in the editor as in
/// the file: the preset that the loaded editor configuration builds has the
/// file's settings, field by field (the Clippy flag stays the Clippy flag, the
/// rustfmt flag the rustfmt flag); and saving an editor configuration writes
/// the settings of the preset it builds.
pub proof fn law_settings_keep_their_meaning(ch: ChoiceView, cfg: PresetConfigView, version: Seq<char>)
    ensures
        match ch {
            ChoiceView::Rust(c) => {
                let p = crate::rust_preset::rust_from_config(choice_config(ch), version);
                &&& p.enable_coverage == c.enable_coverage
                &&& p.enable_linter == c.enable_linter
                &&& p.enable_security_scan == c.enable_security_scan
                &&& p.enable_format_check == c.enable_format_check
                &&& p.build_release == c.build_release
                &&& crate::config::lookup(choice_config(ch).values, "enable_linter"@) == Some(
                    OptionView::Bool(c.enable_linter),
                )
                &&& crate::config::lookup(choice_config(ch).values, "enable_formatter"@) == Some(
                    OptionView::Bool(c.enable_format_check),
                )
            },
            ChoiceView::PythonApp(c) => {
                let p = crate::python_preset::python_from_config(choice_config(ch), version);
                &&& p.linter == c.linter
                &&& p.enable_type_check == c.enable_type_check
                &&& p.formatter == c.formatter
            },
            ChoiceView::GoApp(c) => {
                let p = crate::go_preset::go_from_config(choice_config(ch), version);
                &&& p.enable_linter == c.enable_linter
                &&& p.enable_security_scan == c.enable_security_scan
            },
            ChoiceView::Docker(c) => {
                let p = crate::docker_preset::docker_from_config(choice_config(ch));
                &&& p.image_name == c.image_name
                &&& p.registry == c.registry
                &&& p.enable_cache == c.enable_cache
                &&& p.push_on_tags_only == c.push_on_tags_only
            },
        },
        ({
            let p = crate::rust_preset::rust_from_config(cfg, version);
            config_choice("Rust"@, cfg) == ChoiceView::Rust(
                RustConfig {
                    enable_coverage: p.enable_coverage,
                    enable_linter: p.enable_linter,
                    enable_security_scan: p.enable_security_scan,
                    enable_format_check: p.enable_format_check,
                    build_release: p.build_release,
                },
            )
        }),
        ({
            let p = crate::python_preset::python_from_config(cfg, version);
            config_choice("PythonApp"@, cfg) == ChoiceView::PythonApp(
                PythonAppConfig { linter: p.linter, enable_type_check: p.enable_type_check, formatter: p.formatter },
            )
        }),
        ({
            let p = crate::go_preset::go_from_config(cfg, version);
            config_choice("GoApp"@, cfg) == ChoiceView::GoApp(
                GoAppConfig { enable_linter: p.enable_linter, enable_security_scan: p.enable_security_scan },
            )
        }),
        ({
            let p = crate::docker_preset::docker_from_config(cfg);
            config_choice("Docker"@, cfg) == ChoiceView::Docker(
                DockerConfigView {
                    image_name: p.image_name,
                    registry: p.registry,
                    enable_cache: p.enable_cache,
                    push_on_tags_only: p.push_on_tags_only,
                },
            )
        }),
{
    lemma_distinct_ids();
    law_choice_round_trip(ch);
    lemma_distinct_keys();
    reveal_with_fuel(crate::config::key_index, 6);
}

} // verus!
