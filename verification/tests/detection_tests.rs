use cci::detection::{
    extract_base_image, parse_go_version, DetectionResult, DetectorRegistry, DockerDetector,
    GoDetector, ProjectEntry, ProjectFiles, ProjectType, PythonDetector, RustDetector,
};
use cci::error::CciError;
use cci::presets::PresetDetector;

fn file(name: &str, content: &str) -> ProjectEntry {
    ProjectEntry { name: name.to_string(), is_dir: false, content: Some(content.to_string()) }
}

fn project(entries: Vec<ProjectEntry>) -> ProjectFiles {
    ProjectFiles { entries }
}

fn detected(r: Result<Option<DetectionResult>, CciError>) -> DetectionResult {
    match r {
        Ok(Some(d)) => d,
        _ => panic!("expected a detection"),
    }
}

#[test]
fn test_extract_base_image() {
    let dockerfile = r#"
# This is a comment
FROM ubuntu:22.04
RUN apt-get update
        "#;

    let base = extract_base_image(dockerfile);
    assert_eq!(base, Some("ubuntu:22.04".to_string()));
}

#[test]
fn test_extract_base_image_multistage() {
    let dockerfile = r#"
FROM golang:1.21 AS builder
WORKDIR /app
COPY . .
RUN go build

FROM alpine:latest
COPY --from=builder /app/app /app
        "#;

    // Should extract the first FROM
    let base = extract_base_image(dockerfile);
    assert_eq!(base, Some("golang:1.21".to_string()));
}

#[test]
fn extract_base_image_any_case_and_none() {
    assert_eq!(extract_base_image("from debian:12"), Some("debian:12".to_string()));
    assert_eq!(extract_base_image("  FROM node:20 AS b"), Some("node:20".to_string()));
    assert_eq!(extract_base_image("FROM\tnode:20"), None);
    assert_eq!(extract_base_image("RUN echo\n# FROM nothing"), None);
    assert_eq!(extract_base_image(""), None);
}

#[test]
fn test_detector_creation() {
    let detector = PresetDetector::new();
    assert_eq!(detector.list_presets().len(), 0);
}

#[test]
fn test_detect_dockerfile() {
    let files = project(vec![file(
        "Dockerfile",
        r#"
FROM rust:latest
WORKDIR /app
COPY . .
RUN cargo build --release
        "#,
    )]);

    let detector = DockerDetector;
    let result = detected(detector.detect(&files));

    assert_eq!(result.project_type, ProjectType::DockerImage);
    assert_eq!(result.get_metadata("dockerfile").unwrap(), "Dockerfile");
    assert_eq!(result.get_metadata("base_image").unwrap(), "rust:latest");
}

#[test]
fn test_detect_dockerfile_variations() {
    let files = project(vec![
        file("Dockerfile.dev", "FROM node:18"),
        file("Dockerfile.prod", "FROM node:18-alpine"),
    ]);

    let detector = DockerDetector;
    let result = detected(detector.detect(&files));

    assert_eq!(result.project_type, ProjectType::DockerImage);
    assert_eq!(result.get_metadata("dockerfile_count").unwrap(), "2");
    assert_eq!(result.get_metadata("dockerfiles").unwrap(), "Dockerfile.dev, Dockerfile.prod");
}

#[test]
fn test_detect_docker_compose() {
    let files = project(vec![file(
        "docker-compose.yml",
        r#"
version: '3'
services:
  web:
    build: .
        "#,
    )]);

    let detector = DockerDetector;
    let result = detected(detector.detect(&files));

    assert_eq!(result.project_type, ProjectType::DockerImage);
    assert_eq!(result.get_metadata("has_compose").unwrap(), "yes");
    assert_eq!(result.get_metadata("compose_file").unwrap(), "docker-compose.yml");
}

#[test]
fn test_detect_dockerfile_and_compose() {
    let files = project(vec![
        file("Dockerfile", "FROM python:3.11"),
        file("docker-compose.yml", "version: '3'"),
    ]);

    let detector = DockerDetector;
    let result = detected(detector.detect(&files));

    assert_eq!(result.project_type, ProjectType::DockerImage);
    assert_eq!(result.get_metadata("dockerfile").unwrap(), "Dockerfile");
}

#[test]
fn test_no_dockerfile() {
    let files = project(vec![]);
    let detector = DockerDetector;
    let result = detector.detect(&files);

    assert!(matches!(result, Ok(None)));
}

#[test]
fn test_registry_rust_detection() {
    let files = project(vec![file(
        "Cargo.toml",
        r#"
[package]
name = "test"
version = "0.1.0"
edition = "2021"

[lib]
        "#,
    )]);

    let registry = DetectorRegistry::new();
    let result = registry.detect(&files);
    assert!(result.is_ok());
}

#[test]
fn test_registry_no_match() {
    let files = project(vec![]);
    let registry = DetectorRegistry::new();
    let result = registry.detect(&files);

    assert!(result.is_err());
}

#[test]
fn registry_names_and_first_match() {
    let registry = DetectorRegistry::new();
    assert_eq!(registry.detector_names(), vec!["Rust", "Python", "Go", "Docker"]);
    // A Rust project with a Dockerfile is a Rust project: the Rust detector comes first.
    let files = project(vec![
        file("Dockerfile", "FROM rust:1"),
        file("Cargo.toml", "[package]\nname = \"x\"\nversion = \"0.1.0\"\n"),
    ]);
    let result = registry.detect(&files).unwrap();
    assert_eq!(result.project_type, ProjectType::RustBinary);
}

#[test]
fn test_detect_rust_library() {
    let files = project(vec![file(
        "Cargo.toml",
        r#"
[package]
name = "test-lib"
version = "0.1.0"
edition = "2021"

[lib]
name = "test_lib"
        "#,
    )]);

    let detector = RustDetector;
    let result = detected(detector.detect(&files));

    assert_eq!(result.project_type, ProjectType::RustLibrary);
    assert_eq!(result.get_metadata("name").unwrap(), "test-lib");
}

#[test]
fn test_detect_rust_binary() {
    let files = project(vec![file(
        "Cargo.toml",
        r#"
[package]
name = "test-bin"
version = "0.1.0"
edition = "2021"

[[bin]]
name = "test-bin"
        "#,
    )]);

    let detector = RustDetector;
    let result = detected(detector.detect(&files));

    assert_eq!(result.project_type, ProjectType::RustBinary);
}

#[test]
fn test_detect_rust_workspace() {
    let files = project(vec![file(
        "Cargo.toml",
        r#"
[workspace]
members = ["crate1", "crate2"]
        "#,
    )]);

    let detector = RustDetector;
    let result = detected(detector.detect(&files));

    assert_eq!(result.project_type, ProjectType::RustWorkspace);
    assert_eq!(result.get_metadata("member_count").unwrap(), "2");
}

#[test]
fn test_no_cargo_toml() {
    let files = project(vec![]);
    let detector = RustDetector;
    let result = detector.detect(&files);

    assert!(matches!(result, Ok(None)));
}

#[test]
fn broken_cargo_toml_is_an_error() {
    let files = project(vec![file("Cargo.toml", "[package\nname = ")]);
    let result = RustDetector.detect(&files);
    assert!(matches!(result, Err(CciError::CargoToml(_))));
}

#[test]
fn go_module_version() {
    assert_eq!(parse_go_version("module x\n\ngo 1.22\n"), Some("1.22".to_string()));
    assert_eq!(parse_go_version("module x\n"), None);
    let files = project(vec![file("go.mod", "module example.com/x\n\ngo 1.21\n")]);
    let result = detected(GoDetector.detect(&files));
    assert_eq!(result.project_type, ProjectType::GoLibrary);
    assert_eq!(result.language_version, Some("1.21".to_string()));
}

#[test]
fn python_project_markers() {
    let files = project(vec![file("requirements.txt", "pytest\n")]);
    let result = detected(PythonDetector.detect(&files));
    assert!(
        result.project_type == ProjectType::PythonApp
            || result.project_type == ProjectType::PythonLibrary
    );
    assert!(matches!(PythonDetector.detect(&project(vec![])), Ok(None)));
}
