use dependency_blame::dependency::{
    Dependency, DependencyType, EcosystemType, ImportLocation, UsageInfo,
};
use dependency_blame::ecosystems::registry::{
    create_default_registry, Adapter, EcosystemRegistry,
};
use dependency_blame::error::DependencyBlameError;
use dependency_blame::usage_scanner::{SourceFile, UsageScanner};

fn dependency(name: &str, ecosystem: EcosystemType) -> Dependency {
    Dependency {
        name: name.to_string(),
        version: "*".to_string(),
        ecosystem,
        dependency_type: DependencyType::Direct,
    }
}

fn source(path: &str, extension: Option<&str>, content: &str) -> SourceFile {
    SourceFile {
        path: path.to_string(),
        extension: extension.map(|e| e.to_string()),
        content: content.to_string(),
    }
}

fn pairs(info: &UsageInfo) -> Vec<(String, usize)> {
    let mut all: Vec<(String, usize)> = info
        .import_locations()
        .iter()
        .map(|l| (l.file_path.clone(), l.line_number))
        .collect();
    all.sort();
    all
}

#[test]
fn usage_info_without_locations_is_unused() {
    let info = UsageInfo::new();
    assert!(!info.is_used());
    assert_eq!(info.usage_count(), 0);
    assert!(info.import_locations().is_empty());
    let by_default = UsageInfo::default();
    assert!(!by_default.is_used());
    assert_eq!(by_default.usage_count(), 0);
    let empty = UsageInfo::with_locations(Vec::new());
    assert!(!empty.is_used());
    assert_eq!(empty.usage_count(), 0);
}

#[test]
fn usage_info_counts_its_locations() {
    let locations = vec![
        ImportLocation { file_path: "a.rs".to_string(), line_number: 3, line_content: "use x;".to_string() },
        ImportLocation { file_path: "b.rs".to_string(), line_number: 1, line_content: "use x;".to_string() },
    ];
    let info = UsageInfo::with_locations(locations);
    assert!(info.is_used());
    assert_eq!(info.usage_count(), 2);
    assert_eq!(info.import_locations().len(), 2);
    assert_eq!(info.import_locations()[0].file_path, "a.rs");
    assert_eq!(info.import_locations()[1].line_number, 1);
    let copy = info.clone();
    assert_eq!(copy.is_used(), info.usage_count() > 0);
    assert_eq!(copy.usage_count(), copy.import_locations().len());
    assert_eq!(copy.import_locations()[0].line_content, "use x;");
}

#[test]
fn file_scan_reports_lines_in_ascending_order() {
    let file = source(
        "src/main.rs",
        Some("rs"),
        "use std::fmt;\n   use serde::Serialize;  \r\nfn main() {}\n\tuse serde_json::Value;",
    );
    let found = UsageScanner::scan_file(
        &file,
        &dependency("serde", EcosystemType::Rust),
        &Adapter::of(EcosystemType::Rust),
    );
    let lines: Vec<(usize, String)> =
        found.iter().map(|l| (l.line_number, l.line_content.clone())).collect();
    assert_eq!(
        lines,
        vec![
            (2, "use serde::Serialize;".to_string()),
            (4, "use serde_json::Value;".to_string()),
        ]
    );
    assert!(found.iter().all(|l| l.file_path == "src/main.rs"));
}

#[test]
fn file_scan_of_an_empty_file_finds_nothing() {
    let file = source("a.py", Some("py"), "");
    let found = UsageScanner::scan_file(
        &file,
        &dependency("requests", EcosystemType::Python),
        &Adapter::of(EcosystemType::Python),
    );
    assert!(found.is_empty());
}

#[test]
fn candidates_are_chosen_by_extension() {
    let node = Adapter::of(EcosystemType::Node);
    assert!(UsageScanner::is_candidate(&node, &Some("ts".to_string())));
    assert!(UsageScanner::is_candidate(&node, &Some("cjs".to_string())));
    assert!(!UsageScanner::is_candidate(&node, &Some("rs".to_string())));
    assert!(!UsageScanner::is_candidate(&node, &Some("TS".to_string())));
    assert!(!UsageScanner::is_candidate(&node, &Some("".to_string())));
    assert!(!UsageScanner::is_candidate(&node, &None));
    let python = Adapter::of(EcosystemType::Python);
    assert!(UsageScanner::is_candidate(&python, &Some("pyw".to_string())));
    assert!(!UsageScanner::is_candidate(&python, &Some("js".to_string())));
}

#[test]
fn scan_reads_only_files_of_the_ecosystem() {
    let files = vec![
        source("a.py", Some("py"), "import requests\n"),
        source("b.js", Some("js"), "const r = require('requests');\n"),
        source("Makefile", None, "import requests\n"),
        source("c.pyw", Some("pyw"), "x = 1\nfrom requests import get\n"),
    ];
    let scanner = UsageScanner::new(create_default_registry());
    let info = scanner.scan_usage(&files, &dependency("requests", EcosystemType::Python)).unwrap();
    assert!(info.is_used());
    assert_eq!(info.usage_count(), 2);
    assert_eq!(pairs(&info), vec![("a.py".to_string(), 1), ("c.pyw".to_string(), 2)]);
}

#[test]
fn scan_without_matches_is_unused() {
    let files = vec![source("main.go", Some("go"), "package main\nimport \"fmt\"\n")];
    let scanner = UsageScanner::new(create_default_registry());
    let info = scanner
        .scan_usage(&files, &dependency("github.com/pkg/errors", EcosystemType::Go))
        .unwrap();
    assert!(!info.is_used());
    assert_eq!(info.usage_count(), 0);
    let nothing = scanner.scan_usage(&Vec::new(), &dependency("x", EcosystemType::Go)).unwrap();
    assert!(!nothing.is_used());
}

#[test]
fn scan_needs_an_adapter_of_the_ecosystem() {
    let scanner = UsageScanner::new(EcosystemRegistry::new());
    let files = vec![source("a.rs", Some("rs"), "use serde::Serialize;\n")];
    assert!(matches!(
        scanner.scan_usage(&files, &dependency("serde", EcosystemType::Rust)),
        Err(DependencyBlameError::UnsupportedEcosystem)
    ));
}

#[test]
fn scanning_twice_gives_the_same_result() {
    let files = vec![
        source("a.rs", Some("rs"), "use serde::Serialize;\nuse regex::Regex;\nuse serde::de;\n"),
        source("b.rs", Some("rs"), "fn f() {}\nuse serde_json::Value;\n"),
    ];
    let scanner = UsageScanner::new(create_default_registry());
    let dep = dependency("serde", EcosystemType::Rust);
    let first = scanner.scan_usage(&files, &dep).unwrap();
    let second = scanner.scan_usage(&files, &dep).unwrap();
    assert_eq!(first.usage_count(), 3);
    assert_eq!(first.usage_count(), second.usage_count());
    assert_eq!(pairs(&first), pairs(&second));
}

#[test]
fn scan_does_not_depend_on_the_order_of_the_files() {
    let a = source("a.rs", Some("rs"), "use serde::Serialize;\n\nuse serde::de;\n");
    let b = source("b.rs", Some("rs"), "fn f() {}\nuse serde_json::Value;\n");
    let c = source("c.txt", Some("txt"), "use serde::Serialize;\n");
    let scanner = UsageScanner::new(create_default_registry());
    let dep = dependency("serde", EcosystemType::Rust);
    let forward = scanner.scan_usage(&vec![a.clone(), b.clone(), c.clone()], &dep).unwrap();
    let backward = scanner.scan_usage(&vec![c, b, a], &dep).unwrap();
    assert_eq!(forward.usage_count(), backward.usage_count());
    assert_eq!(pairs(&forward), pairs(&backward));
    assert_eq!(
        pairs(&forward),
        vec![("a.rs".to_string(), 1), ("a.rs".to_string(), 3), ("b.rs".to_string(), 2)]
    );
}
