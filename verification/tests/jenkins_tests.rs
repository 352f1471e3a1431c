use cci::models::{jenkins_to_string, JenkinsConfig, JenkinsStage};

#[test]
fn test_jenkins_to_string_basic() {
    let config = JenkinsConfig {
        agent: "docker".to_string(),
        environment: vec![],
        stages: vec![JenkinsStage {
            name: "Build".to_string(),
            steps: vec!["sh 'cargo build'".to_string()],
        }],
    };

    let result = jenkins_to_string(&config);
    assert!(result.contains("pipeline {"));
    assert!(result.contains("agent {"));
    assert!(result.contains("label 'docker'"));
    assert!(result.contains("stage('Build')"));
    assert!(result.contains("sh 'cargo build'"));
}

#[test]
fn test_jenkins_to_string_with_environment() {
    let env = vec![
        ("RUST_VERSION".to_string(), "1.70".to_string()),
        ("CARGO_HOME".to_string(), "/tmp/cargo".to_string()),
    ];

    let config = JenkinsConfig { agent: "any".to_string(), environment: env, stages: vec![] };

    let result = jenkins_to_string(&config);
    assert!(result.contains("environment {"));
    assert!(result.contains("RUST_VERSION = '1.70'"));
    assert!(result.contains("CARGO_HOME = '/tmp/cargo'"));
}

#[test]
fn test_jenkins_to_string_multiple_stages() {
    let config = JenkinsConfig {
        agent: "linux".to_string(),
        environment: vec![],
        stages: vec![
            JenkinsStage { name: "Test".to_string(), steps: vec!["sh 'cargo test'".to_string()] },
            JenkinsStage {
                name: "Deploy".to_string(),
                steps: vec!["sh 'docker build .'".to_string(), "sh 'docker push'".to_string()],
            },
        ],
    };

    let result = jenkins_to_string(&config);
    assert!(result.contains("stage('Test')"));
    assert!(result.contains("sh 'cargo test'"));
    assert!(result.contains("stage('Deploy')"));
    assert!(result.contains("sh 'docker build .'"));
    assert!(result.contains("sh 'docker push'"));
}

#[test]
fn jenkins_text_exact() {
    let config = JenkinsConfig {
        agent: "any".to_string(),
        environment: vec![("A".to_string(), "1".to_string())],
        stages: vec![JenkinsStage { name: "Test".to_string(), steps: vec!["sh 'make'".to_string()] }],
    };
    let expected = "pipeline {\n    agent {\n        label 'any'\n    }\n\n    environment {\n        A = '1'\n    }\n\n    stages {\n        stage('Test') {\n            steps {\n                sh 'make'\n            }\n        }\n    }\n}\n";
    assert_eq!(jenkins_to_string(&config), expected);
}

#[test]
fn jenkins_without_environment_has_no_block() {
    let config = JenkinsConfig { agent: "any".to_string(), environment: vec![], stages: vec![] };
    let result = jenkins_to_string(&config);
    assert!(!result.contains("environment"));
    assert_eq!(result, "pipeline {\n    agent {\n        label 'any'\n    }\n\n    stages {\n    }\n}\n");
}
