use dependency_blame::cli::args::{Cli, Commands, OutputFormat};
use dependency_blame::cli::commands::{execute, Action};
use dependency_blame::dependency::{DependencyQuery, DependencyType, EcosystemType};
use dependency_blame::ecosystems::registry::{
    create_default_registry, Adapter, EcosystemRegistry, ProjectDirectory,
};
use dependency_blame::ecosystems::rust::RustAdapter;
use dependency_blame::ecosystems::traits::ManifestFile;
use dependency_blame::error::DependencyBlameError;
use dependency_blame::git_analyzer::{
    CommitInfo, CommitSnapshot, ManifestHistory, ManifestState,
};
use dependency_blame::orchestrator::DependencyOrchestrator;
use dependency_blame::usage_scanner::SourceFile;

fn directory(entries: &[&str]) -> ProjectDirectory {
    ProjectDirectory {
        path: "/project".to_string(),
        entries: entries.iter().map(|e| e.to_string()).collect(),
    }
}

fn manifest(name: &str, content: &str) -> ManifestFile {
    ManifestFile { path: name.to_string(), file_name: name.to_string(), content: content.to_string() }
}

fn snapshot(hash: &str, text: Option<&str>) -> CommitSnapshot {
    CommitSnapshot {
        commit: CommitInfo {
            commit_hash: hash.to_string(),
            author_name: Some("Ada".to_string()),
            author_email: Some("ada@example.org".to_string()),
            seconds: 10,
            message: Some("add things".to_string()),
        },
        manifest: match text {
            Some(t) => ManifestState::Text(t.to_string()),
            None => ManifestState::Missing,
        },
    }
}

fn source(path: &str, extension: &str, content: &str) -> SourceFile {
    SourceFile {
        path: path.to_string(),
        extension: Some(extension.to_string()),
        content: content.to_string(),
    }
}

fn query(name: &str, git: bool, scan: bool) -> DependencyQuery {
    DependencyQuery::with_options(name.to_string(), "/project".to_string(), git, scan)
}

#[test]
fn list_reports_the_node_dependency() {
    let orchestrator = DependencyOrchestrator::new(create_default_registry());
    let deps = orchestrator
        .list_all_dependencies(
            &directory(&["package.json", "index.js"]),
            &manifest("package.json", "{\"dependencies\":{\"left-pad\":\"^1.0.0\"}}"),
        )
        .unwrap();
    assert_eq!(deps.len(), 1);
    assert_eq!(deps[0].name, "left-pad");
    assert_eq!(deps[0].version, "^1.0.0");
    assert_eq!(deps[0].dependency_type, DependencyType::Direct);
    assert_eq!(deps[0].ecosystem, EcosystemType::Node);
}

#[test]
fn list_fails_in_the_order_of_the_steps() {
    let orchestrator = DependencyOrchestrator::new(create_default_registry());
    let cargo = manifest("Cargo.toml", "[dependencies]\nserde = \"1\"\n");
    assert!(matches!(
        orchestrator.list_all_dependencies(&directory(&["README.md"]), &cargo),
        Err(DependencyBlameError::EcosystemDetectionFailed(_))
    ));
    match orchestrator.list_all_dependencies(&directory(&["Cargo.toml", "package.json"]), &manifest("package.json", "{}")) {
        Err(DependencyBlameError::DependencyFileNotFound(name)) => assert_eq!(name, "Cargo.toml"),
        other => panic!("expected a missing file, got {:?}", other),
    }
    let empty = DependencyOrchestrator::new(EcosystemRegistry::new());
    assert!(matches!(
        empty.list_all_dependencies(&directory(&["Cargo.toml"]), &cargo),
        Err(DependencyBlameError::UnsupportedEcosystem)
    ));
    assert!(matches!(
        orchestrator.list_all_dependencies(&directory(&["Cargo.toml"]), &manifest("Cargo.toml", "[")),
        Err(DependencyBlameError::ParseError { .. })
    ));
}

#[test]
fn list_uses_the_adapter_of_the_detected_ecosystem_only() {
    let mut registry = EcosystemRegistry::new();
    registry.register(Adapter::Rust(RustAdapter::new()));
    let orchestrator = DependencyOrchestrator::new(registry);
    let deps = orchestrator
        .list_all_dependencies(
            &directory(&["Cargo.toml"]),
            &manifest("Cargo.toml", "[dependencies]\nserde = \"1\"\n"),
        )
        .unwrap();
    assert_eq!(deps.len(), 1);
    assert!(matches!(
        orchestrator.list_all_dependencies(&directory(&["go.mod"]), &manifest("go.mod", "")),
        Err(DependencyBlameError::UnsupportedEcosystem)
    ));
}

#[test]
fn analysis_puts_dependency_history_and_usage_together() {
    let orchestrator = DependencyOrchestrator::new(create_default_registry());
    let history = Some(ManifestHistory {
        file_path: "Cargo.toml".to_string(),
        commits: vec![
            snapshot("c1", None),
            snapshot("c2", Some("[dependencies]\nserde = \"1\"\n")),
            snapshot("c3", Some("[dependencies]\nserde = \"1\"\nregex = \"1\"\n")),
        ],
    });
    let sources = vec![
        source("src/lib.rs", "rs", "use serde::Serialize;\nuse regex::Regex;\n"),
        source("build.py", "py", "import serde\n"),
    ];
    let analysis = orchestrator
        .analyze(
            &query("regex", true, true),
            &directory(&["Cargo.toml", "src"]),
            &ManifestFile {
                path: "/project/Cargo.toml".to_string(),
                file_name: "Cargo.toml".to_string(),
                content: "[dependencies]\nserde = \"1\"\nregex = \"1\"\n".to_string(),
            },
            &history,
            &sources,
        )
        .unwrap();
    assert_eq!(analysis.dependency.name, "regex");
    assert_eq!(analysis.dependency.version, "1");
    let git = analysis.git_info.unwrap();
    assert_eq!(git.commit_hash, "c3");
    assert_eq!(git.author, "Ada <ada@example.org>");
    assert_eq!(git.file_path, "Cargo.toml");
    assert!(analysis.usage_info.is_used());
    assert_eq!(analysis.usage_info.usage_count(), 1);
    assert_eq!(analysis.usage_info.import_locations()[0].file_path, "src/lib.rs");
    assert_eq!(analysis.usage_info.import_locations()[0].line_number, 2);
    assert_eq!(analysis.usage_info.import_locations()[0].line_content, "use regex::Regex;");
}

#[test]
fn analysis_skips_what_the_query_does_not_ask_for() {
    let orchestrator = DependencyOrchestrator::new(create_default_registry());
    let history = Some(ManifestHistory {
        file_path: "Cargo.toml".to_string(),
        commits: vec![snapshot("c1", Some("serde"))],
    });
    let sources = vec![source("src/lib.rs", "rs", "use serde::Serialize;\n")];
    let dir = directory(&["Cargo.toml"]);
    let file = manifest("Cargo.toml", "[dependencies]\nserde = \"1\"\n");
    let bare = orchestrator.analyze(&query("serde", false, false), &dir, &file, &history, &sources).unwrap();
    assert!(bare.git_info.is_none());
    assert!(!bare.usage_info.is_used());
    assert_eq!(bare.usage_info.usage_count(), 0);
    let only_git = orchestrator.analyze(&query("serde", true, false), &dir, &file, &history, &sources).unwrap();
    assert_eq!(only_git.git_info.unwrap().commit_hash, "c1");
    assert!(!only_git.usage_info.is_used());
    let only_scan = orchestrator.analyze(&query("serde", false, true), &dir, &file, &history, &sources).unwrap();
    assert!(only_scan.git_info.is_none());
    assert_eq!(only_scan.usage_info.usage_count(), 1);
}

#[test]
fn analysis_goes_on_without_a_history() {
    let orchestrator = DependencyOrchestrator::new(create_default_registry());
    let analysis = orchestrator
        .analyze(
            &query("requests", true, true),
            &directory(&["requirements.txt"]),
            &manifest("requirements.txt", "requests>=2\n"),
            &None,
            &vec![source("app.py", "py", "import requests\n")],
        )
        .unwrap();
    assert!(analysis.git_info.is_none());
    assert_eq!(analysis.dependency.version, ">=2");
    assert_eq!(analysis.usage_info.usage_count(), 1);
}

#[test]
fn analysis_of_an_undeclared_dependency_fails() {
    let orchestrator = DependencyOrchestrator::new(create_default_registry());
    match orchestrator.analyze(
        &query("tokio", true, true),
        &directory(&["Cargo.toml"]),
        &manifest("Cargo.toml", "[dependencies]\nserde = \"1\"\n"),
        &None,
        &Vec::new(),
    ) {
        Err(DependencyBlameError::DependencyNotFound(name)) => assert_eq!(name, "tokio"),
        other => panic!("expected a missing dependency, got {:?}", other.map(|a| a.dependency)),
    }
}

#[test]
fn analysis_passes_earlier_failures_on() {
    let orchestrator = DependencyOrchestrator::new(create_default_registry());
    let q = query("serde", true, true);
    assert!(matches!(
        orchestrator.analyze(&q, &directory(&[]), &manifest("Cargo.toml", ""), &None, &Vec::new()),
        Err(DependencyBlameError::EcosystemDetectionFailed(_))
    ));
    assert!(matches!(
        orchestrator.analyze(&q, &directory(&["Cargo.toml"]), &manifest("Cargo.toml", "]["), &None, &Vec::new()),
        Err(DependencyBlameError::ParseError { .. })
    ));
    assert!(matches!(
        orchestrator.analyze(&q, &directory(&["Cargo.toml"]), &manifest("other.toml", ""), &None, &Vec::new()),
        Err(DependencyBlameError::DependencyFileNotFound(_))
    ));
    let empty = DependencyOrchestrator::new(EcosystemRegistry::new());
    assert!(matches!(
        empty.analyze(&q, &directory(&["Cargo.toml"]), &manifest("Cargo.toml", ""), &None, &Vec::new()),
        Err(DependencyBlameError::UnsupportedEcosystem)
    ));
}

#[test]
fn query_defaults_ask_for_everything() {
    let q = DependencyQuery::new("serde".to_string(), ".".to_string());
    assert_eq!(q.dependency_name, "serde");
    assert_eq!(q.repo_path, ".");
    assert!(q.include_git_history);
    assert!(q.scan_usage);
    let chosen = DependencyQuery::with_options("a".to_string(), "b".to_string(), false, true);
    assert_eq!(chosen.dependency_name, "a");
    assert_eq!(chosen.repo_path, "b");
    assert!(!chosen.include_git_history);
    assert!(chosen.scan_usage);
}

#[test]
fn command_line_turns_flags_into_a_query() {
    let cli = Cli {
        command: Commands::Analyze {
            dependency: "serde".to_string(),
            repo: "/repo".to_string(),
            format: OutputFormat::Json,
            no_git: true,
            no_scan: false,
        },
    };
    match execute(cli) {
        Action::Analyze { query, format } => {
            assert_eq!(query.dependency_name, "serde");
            assert_eq!(query.repo_path, "/repo");
            assert!(!query.include_git_history);
            assert!(query.scan_usage);
            assert_eq!(format, OutputFormat::Json);
        }
        other => panic!("expected an analysis, got {:?}", other),
    }
    let both = Cli {
        command: Commands::Analyze {
            dependency: "x".to_string(),
            repo: ".".to_string(),
            format: OutputFormat::Text,
            no_git: false,
            no_scan: true,
        },
    };
    match execute(both) {
        Action::Analyze { query, format } => {
            assert!(query.include_git_history);
            assert!(!query.scan_usage);
            assert_eq!(format, OutputFormat::Text);
        }
        other => panic!("expected an analysis, got {:?}", other),
    }
}

#[test]
fn command_line_list_and_tui() {
    let list = Cli { command: Commands::List { repo: "/r".to_string(), format: OutputFormat::Text } };
    match execute(list) {
        Action::List { repo, format } => {
            assert_eq!(repo, "/r");
            assert_eq!(format, OutputFormat::Text);
        }
        other => panic!("expected a listing, got {:?}", other),
    }
    let tui = Cli { command: Commands::Tui { repo: "/t".to_string() } };
    match execute(tui) {
        Action::Tui { repo } => assert_eq!(repo, "/t"),
        other => panic!("expected the interactive mode, got {:?}", other),
    }
}

#[test]
fn lookup_fails_where_the_analysis_fails() {
    let orchestrator = DependencyOrchestrator::new(create_default_registry());
    let dir = directory(&["Cargo.toml"]);
    let file = manifest("Cargo.toml", "[dependencies]\nserde = { version = \"1\" }\n");
    let found = orchestrator.find_dependency(&query("serde", true, true), &dir, &file).unwrap();
    assert_eq!(found.name, "serde");
    assert_eq!(found.version, "1");
    assert_eq!(found.dependency_type, DependencyType::Direct);
    match orchestrator.find_dependency(&query("tokio", false, false), &dir, &file) {
        Err(DependencyBlameError::DependencyNotFound(name)) => assert_eq!(name, "tokio"),
        other => panic!("expected a missing dependency, got {:?}", other),
    }
    assert!(matches!(
        orchestrator.find_dependency(&query("serde", true, true), &directory(&[]), &file),
        Err(DependencyBlameError::EcosystemDetectionFailed(_))
    ));
    assert!(matches!(
        orchestrator.find_dependency(&query("serde", true, true), &dir, &manifest("Cargo.toml", "[")),
        Err(DependencyBlameError::ParseError { .. })
    ));
}
