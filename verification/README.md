# cci

Generates CI/CD pipeline configurations (GitHub Actions, Gitea Actions, GitLab CI,
CircleCI, Jenkins) for Rust, Python, Go and Docker projects, from a detected project
or from a RON configuration file, with an interactive terminal editor.

The library under `src/` is written in Verus. Its functions carry contracts that Verus
proves, except a few trusted items whose contracts are taken on faith: the Cargo.toml
parse by `cargo_toml` (`detection::parse_cargo_manifest`), the YAML rendering by
`serde_yaml` (`yaml::render_yaml`, `yaml::yaml_value`), and the collection of
characters into a `String` (`text::string_of`). The modules:

- `detection` — recognising a project from a snapshot of its top-level files.
- `rust_preset`, `python_preset`, `go_preset`, `docker_preset` — each preset's
  pipeline for every platform, stated as exact models of the generated documents.
- `models`, `documents`, `yaml` — the pipeline models, their YAML documents, and the
  rendering of a document by `serde_yaml`.
- `presets` — platforms, the preset registry, generation for a platform, and the
  presets found in an existing CI file.
- `config`, `ron_types` — editor configurations and configuration-file presets.
- `editor` — the editor's state machine: tree, toggles, platform menu, preview.
- `diff`, `preview`, `text`, `builders`, `matching`, `error` — supporting pieces.

Laws that span functions are public proof functions named `law_*`.

`app/` holds the command line, file and terminal I/O, and drawing; `tests/` the tests.
