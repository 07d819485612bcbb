use dependency_blame::dependency::EcosystemType;
use dependency_blame::ecosystems::go::scanner::GoScanner;
use dependency_blame::ecosystems::node::scanner::NodeScanner;
use dependency_blame::ecosystems::python::scanner::PythonScanner;
use dependency_blame::ecosystems::rust::scanner::RustScanner;
use dependency_blame::ecosystems::traits::ImportScanner;

fn strings(items: &[&str]) -> Vec<String> {
    items.iter().map(|s| s.to_string()).collect()
}

#[test]
fn rust_imports_use_then_extern_crate() {
    let content = "extern crate libc;\nuse serde::Serialize;\n    use std::fmt;\nfn main() { let user = 1; }\n// use nothing\nuse regex::{Regex, Captures};\n";
    assert_eq!(
        RustScanner.extract_imports(content).unwrap(),
        strings(&["serde", "std", "regex", "libc"])
    );
}

#[test]
fn rust_package_name_and_normalization() {
    assert_eq!(RustScanner.extract_package_name("serde::de::Error"), "serde");
    assert_eq!(RustScanner.extract_package_name("serde"), "serde");
    assert_eq!(RustScanner.extract_package_name("::serde"), "");
    assert_eq!(RustScanner.normalize_package_name("  Serde-JSON "), "serde_json");
    assert_eq!(RustScanner.normalize_package_name("tokio"), "tokio");
}

#[test]
fn rust_dependency_with_hyphen_matches_import_with_underscore() {
    assert!(RustScanner.is_dependency_imported("use serde_json::Value;", "serde-json"));
    assert!(RustScanner.is_dependency_imported("use serde::Serialize;", "serde"));
    assert!(!RustScanner.is_dependency_imported("use regex::Regex;", "serde"));
    assert!(!RustScanner.is_dependency_imported("let x = 1;", "serde"));
}

#[test]
fn matching_tolerates_partial_names_both_ways() {
    assert!(RustScanner.is_dependency_imported("use serde::Serialize;", "serde_json"));
    assert!(RustScanner.is_dependency_imported("use serde_json::Value;", "serde"));
    assert!(RustScanner.is_dependency_imported("use std::io;", "io") == false);
    assert!(RustScanner.is_dependency_imported("use tokio::io;", "io"));
}

#[test]
fn matching_is_symmetric_on_examples() {
    let pairs = [("serde", "serde_json"), ("regex", "serde"), ("a-b", "a_b"), ("tokio", "tokio")];
    for (a, b) in pairs {
        let a_line = format!("use {};", a.replace('-', "_"));
        let b_line = format!("use {};", b.replace('-', "_"));
        assert_eq!(
            RustScanner.is_dependency_imported(&a_line, b),
            RustScanner.is_dependency_imported(&b_line, a)
        );
    }
}

#[test]
fn matching_through_use_statements_is_symmetric() {
    let names = ["a", "ab", "abc", "b", "serde", "serde_json", "json", "x9", "_", "s", "tokio"];
    for a in names {
        for b in names {
            let a_line = format!("use {};", a);
            let b_line = format!("use {};", b);
            assert_eq!(RustScanner.extract_imports(&a_line).unwrap(), strings(&[a]));
            assert_eq!(
                RustScanner.is_dependency_imported(&a_line, b),
                RustScanner.is_dependency_imported(&b_line, a)
            );
            assert_eq!(
                RustScanner.is_dependency_imported(&a_line, b),
                a.contains(b) || b.contains(a)
            );
        }
    }
}

#[test]
fn built_in_patterns_compile() {
    let patterns = [
        dependency_blame::ecosystems::rust::scanner::USE_PATTERN,
        dependency_blame::ecosystems::rust::scanner::EXTERN_CRATE_PATTERN,
        dependency_blame::ecosystems::node::scanner::REQUIRE_PATTERN,
        dependency_blame::ecosystems::node::scanner::IMPORT_FROM_PATTERN,
        dependency_blame::ecosystems::node::scanner::DYNAMIC_IMPORT_PATTERN,
        dependency_blame::ecosystems::python::scanner::IMPORT_PATTERN,
        dependency_blame::ecosystems::python::scanner::FROM_IMPORT_PATTERN,
        dependency_blame::ecosystems::go::scanner::SINGLE_IMPORT_PATTERN,
        dependency_blame::ecosystems::go::scanner::BLOCK_IMPORT_PATTERN,
        dependency_blame::ecosystems::go::parser::REQUIRE_PATTERN,
        dependency_blame::ecosystems::go::parser::BLOCK_ENTRY_PATTERN,
    ];
    for pattern in patterns {
        assert!(dependency_blame::pattern::Pattern::compile(pattern).is_ok(), "{}", pattern);
    }
    let go = dependency_blame::ecosystems::go::parser::read_go_module("require a.b/c v1\n");
    assert!(go.is_ok());
    assert!(GoScanner.extract_imports("import \"fmt\"").is_ok());
}

#[test]
fn compiled_pattern_is_searched_in_many_texts() {
    let pattern = dependency_blame::pattern::Pattern::compile(r"(\w+)=(\d+)?").ok().unwrap();
    assert_eq!(
        pattern.search("a=1 b= c=22"),
        vec![
            vec![Some("a=1".to_string()), Some("a".to_string()), Some("1".to_string())],
            vec![Some("b=".to_string()), Some("b".to_string()), None],
            vec![Some("c=22".to_string()), Some("c".to_string()), Some("22".to_string())],
        ]
    );
    assert!(pattern.search("nothing").is_empty());
    assert!(pattern.search("").is_empty());
    assert!(dependency_blame::pattern::Pattern::compile(r"(").is_err());
}

#[test]
fn node_imports_by_syntax() {
    let content = "import React from 'react';\nconst fs = require(\"fs\");\nconst x = await import('./lazy');\n  import { a } from \"@scope/pkg/sub\";\nconst y = require( 'lodash/get' );\n";
    assert_eq!(
        NodeScanner.extract_imports(content).unwrap(),
        strings(&["fs", "lodash/get", "react", "@scope/pkg/sub", "./lazy"])
    );
}

#[test]
fn node_package_name_reduction() {
    assert_eq!(NodeScanner.extract_package_name("lodash/get"), "lodash");
    assert_eq!(NodeScanner.extract_package_name("lodash"), "lodash");
    assert_eq!(NodeScanner.extract_package_name("@scope/pkg/sub/path"), "@scope/pkg");
    assert_eq!(NodeScanner.extract_package_name("@scope/pkg"), "@scope/pkg");
    assert_eq!(NodeScanner.extract_package_name("@scope"), "@scope");
    assert_eq!(NodeScanner.extract_package_name("./local/file"), "./local/file");
    assert_eq!(NodeScanner.extract_package_name("/abs/file"), "/abs/file");
    assert_eq!(NodeScanner.extract_package_name(""), "");
}

#[test]
fn node_normalization_reduces_then_lowers() {
    assert_eq!(NodeScanner.normalize_package_name("Lodash/Get"), "lodash");
    assert_eq!(NodeScanner.normalize_package_name("@Scope/Pkg/sub"), "@scope/pkg");
    assert_eq!(NodeScanner.normalize_package_name(" React "), "react");
}

#[test]
fn node_dependency_is_found_through_subpath() {
    assert!(NodeScanner.is_dependency_imported("const g = require('lodash/get');", "lodash"));
    assert!(NodeScanner.is_dependency_imported("import x from '@scope/pkg/sub';", "@scope/pkg"));
    assert!(!NodeScanner.is_dependency_imported("import x from 'react';", "lodash"));
}

#[test]
fn python_imports_import_then_from() {
    let content = "from flask import Flask\nimport os.path\n  import requests\nx = 'import nothing'\nfrom .local import y\nimport numpy as np\n";
    assert_eq!(
        PythonScanner.extract_imports(content).unwrap(),
        strings(&["os", "requests", "numpy", "flask"])
    );
}

#[test]
fn python_from_import_of_a_dotted_module_gives_its_first_segment() {
    assert_eq!(
        PythonScanner.extract_imports("from requests.adapters import HTTPAdapter").unwrap(),
        strings(&["requests"])
    );
    assert_eq!(
        PythonScanner.extract_imports("  from a.b.c_d.e0 import f, g\nfrom x import y\n").unwrap(),
        strings(&["a", "x"])
    );
    assert_eq!(
        PythonScanner.extract_imports("from . import x\nfrom .a import b\nfrom a. import b\n")
            .unwrap(),
        strings(&[])
    );
    assert_eq!(
        PythonScanner.extract_imports("from a.b import c\nimport d.e\n").unwrap(),
        strings(&["d", "a"])
    );
    assert!(PythonScanner
        .is_dependency_imported("from requests.adapters import HTTPAdapter", "requests"));
    assert!(!PythonScanner
        .is_dependency_imported("from requests.adapters import HTTPAdapter", "adapters"));
}

#[test]
fn python_package_name_and_normalization() {
    assert_eq!(PythonScanner.extract_package_name("os.path"), "os");
    assert_eq!(PythonScanner.extract_package_name("requests"), "requests");
    assert_eq!(PythonScanner.normalize_package_name(" Scikit-Learn "), "scikit_learn");
    assert!(PythonScanner.is_dependency_imported("import scikit_learn", "scikit-learn"));
    assert!(!PythonScanner.is_dependency_imported("import os", "requests"));
}

#[test]
fn go_single_import_with_version_suffix() {
    assert!(GoScanner.is_dependency_imported(
        "import \"github.com/pkg/errors/v2\"",
        "github.com/pkg/errors"
    ));
    assert_eq!(
        GoScanner.extract_imports("import \"github.com/pkg/errors/v2\"").unwrap(),
        strings(&["github.com/pkg/errors/v2"])
    );
    assert_eq!(
        GoScanner.extract_package_name("github.com/pkg/errors/v2"),
        "github.com/pkg/errors/v2"
    );
}

#[test]
fn go_package_name_reduction() {
    assert_eq!(GoScanner.extract_package_name("fmt"), "fmt");
    assert_eq!(GoScanner.extract_package_name("net/http"), "net/http");
    assert_eq!(GoScanner.extract_package_name("golang.org/x"), "golang.org/x");
    assert_eq!(
        GoScanner.extract_package_name("github.com/user/repo/pkg/sub"),
        "github.com/user/repo"
    );
    assert_eq!(GoScanner.extract_package_name("github.com/user/repo"), "github.com/user/repo");
    assert_eq!(
        GoScanner.extract_package_name("github.com/user/repo/sub/v2"),
        "github.com/user/repo/sub"
    );
    assert_eq!(GoScanner.extract_package_name("github.com/user/v2"), "github.com/user/v2");
    assert_eq!(
        GoScanner.extract_package_name("github.com/user/repo/v123"),
        "github.com/user/repo"
    );
    assert_eq!(
        GoScanner.extract_package_name("github.com/user/repo/v\u{e9}"),
        "github.com/user/repo/v\u{e9}"
    );
    assert_eq!(
        GoScanner.extract_package_name("github.com/user/repo/v\u{e9}\u{e9}"),
        "github.com/user/repo"
    );
}

#[test]
fn go_import_block() {
    let content = "package main\n\nimport (\n\t\"fmt\"\n\t\"github.com/pkg/errors\"\n\talias \"example.org/x/y\"\n)\n\nimport \"os\"\n\nfunc main() {\n\t\"not an import\"\n}\n";
    assert_eq!(
        GoScanner.extract_imports(content).unwrap(),
        strings(&["fmt", "github.com/pkg/errors", "os"])
    );
}

#[test]
fn go_normalization_trims_and_lowers() {
    assert_eq!(GoScanner.normalize_package_name(" GitHub.com/Pkg/Errors "), "github.com/pkg/errors");
    assert!(!GoScanner.is_dependency_imported("import \"fmt\"", "github.com/pkg/errors"));
}

#[test]
fn scanners_know_their_extensions() {
    assert_eq!(RustScanner.file_extensions(), vec!["rs"]);
    assert_eq!(NodeScanner.file_extensions(), vec!["js", "ts", "jsx", "tsx", "mjs", "cjs"]);
    assert_eq!(PythonScanner.file_extensions(), vec!["py", "pyw"]);
    assert_eq!(GoScanner.file_extensions(), vec!["go"]);
    assert_eq!(RustScanner.ecosystem_type(), EcosystemType::Rust);
    assert_eq!(NodeScanner.ecosystem_type(), EcosystemType::Node);
    assert_eq!(PythonScanner.ecosystem_type(), EcosystemType::Python);
    assert_eq!(GoScanner.ecosystem_type(), EcosystemType::Go);
}
