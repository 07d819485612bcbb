use dependency_blame::dependency::{
    Dependency, DependencyType, EcosystemType, ImportLocation, UsageInfo,
};
use dependency_blame::error::DependencyBlameError;
use dependency_blame::manifest::ManifestValue;
use dependency_blame::presentation::{
    dependencies_in_group, dependency_group, listed_locations, omitted_locations, short_hash,
    DependencyGroup,
};
use dependency_blame::pattern::{
    captured, captured_texts, collect_captures, first_captured, Pattern,
};
use dependency_blame::text::{
    before_first, contains, find_char, find_text, join_first, lines, matches_at, replace_char,
    same_text, slice_chars, split, str_is, to_chars, trim,
};

fn chars(s: &str) -> Vec<char> {
    s.chars().collect()
}

fn text(v: &[char]) -> String {
    v.iter().collect()
}

fn texts(v: &[Vec<char>]) -> Vec<String> {
    v.iter().map(|p| text(p)).collect()
}

#[test]
fn ecosystem_and_kind_names() {
    assert_eq!(EcosystemType::Rust.as_str(), "Rust");
    assert_eq!(EcosystemType::Node.as_str(), "Node.js");
    assert_eq!(EcosystemType::Python.as_str(), "Python");
    assert_eq!(EcosystemType::Go.as_str(), "Go");
    assert_eq!(DependencyType::Direct.as_str(), "Direct");
    assert_eq!(DependencyType::Dev.as_str(), "Development");
    assert_eq!(DependencyType::Optional.as_str(), "Optional");
    assert_eq!(DependencyType::Peer.as_str(), "Peer");
    assert_eq!(DependencyType::Build.as_str(), "Build");
}

#[test]
fn records_are_copied_field_by_field() {
    let dep = Dependency {
        name: "serde".to_string(),
        version: "1.0".to_string(),
        ecosystem: EcosystemType::Rust,
        dependency_type: DependencyType::Build,
    };
    let copy = dep.duplicate();
    assert_eq!(copy.name, "serde");
    assert_eq!(copy.version, "1.0");
    assert_eq!(copy.ecosystem, EcosystemType::Rust);
    assert_eq!(copy.dependency_type, DependencyType::Build);
    let location = ImportLocation {
        file_path: "a.rs".to_string(),
        line_number: 7,
        line_content: "use serde;".to_string(),
    };
    let other = location.duplicate();
    assert_eq!(other.file_path, "a.rs");
    assert_eq!(other.line_number, 7);
    assert_eq!(other.line_content, "use serde;");
}

#[test]
fn error_messages() {
    assert_eq!(
        DependencyBlameError::GitRepoNotFound("/x".to_string()).message(),
        "Git repository not found at path: /x"
    );
    assert_eq!(
        DependencyBlameError::DependencyFileNotFound("go.mod".to_string()).message(),
        "Dependency file not found: go.mod"
    );
    assert_eq!(
        DependencyBlameError::ParseError { file: "a.toml".to_string(), reason: "bad".to_string() }
            .message(),
        "Failed to parse dependency file 'a.toml': bad"
    );
    assert_eq!(
        DependencyBlameError::DependencyNotFound("serde".to_string()).message(),
        "Dependency 'serde' not found in project"
    );
    assert_eq!(DependencyBlameError::UnsupportedEcosystem.message(), "Unsupported ecosystem");
    assert_eq!(
        DependencyBlameError::EcosystemDetectionFailed("/p".to_string()).message(),
        "Could not detect ecosystem from path: /p"
    );
    assert_eq!(
        DependencyBlameError::GitError("g".to_string()).message(),
        "Git operation failed: g"
    );
    assert_eq!(DependencyBlameError::IoError("i".to_string()).message(), "IO error: i");
    assert_eq!(DependencyBlameError::JsonError("j".to_string()).message(), "JSON error: j");
    assert_eq!(DependencyBlameError::TomlError("t".to_string()).message(), "TOML error: t");
    assert_eq!(DependencyBlameError::RegexError("r".to_string()).message(), "Regex error: r");
    assert_eq!(DependencyBlameError::Other("plain".to_string()).message(), "plain");
}

#[test]
fn characters_of_a_string() {
    assert_eq!(to_chars("a\u{e9}\u{1f600}b"), vec!['a', '\u{e9}', '\u{1f600}', 'b']);
    assert!(to_chars("").is_empty());
    assert!(str_is("abc", &chars("abc")));
    assert!(!str_is("abc", &chars("abd")));
    assert!(!str_is("abc", &chars("ab")));
    assert!(same_text(&chars(""), &chars("")));
    assert!(!same_text(&chars("a"), &chars("")));
}

#[test]
fn searching_in_text() {
    assert_eq!(find_text(&chars("abcabc"), &chars("bc")), Some(1));
    assert_eq!(find_text(&chars("abcabc"), &chars("")), Some(0));
    assert_eq!(find_text(&chars(""), &chars("")), Some(0));
    assert_eq!(find_text(&chars("abc"), &chars("abcd")), None);
    assert_eq!(find_text(&chars("abc"), &chars("c")), Some(2));
    assert_eq!(find_text(&chars("\u{e9}\u{e9}x"), &chars("x")), Some(2));
    assert!(contains(&chars("hello"), &chars("ell")));
    assert!(!contains(&chars("hello"), &chars("elo")));
    assert!(matches_at(&chars("abc"), &chars("bc"), 1));
    assert!(!matches_at(&chars("abc"), &chars("bc"), 2));
    assert!(!matches_at(&chars("abc"), &chars("bc"), 9));
    assert_eq!(find_char(&chars("a/b/c"), 0, '/'), 1);
    assert_eq!(find_char(&chars("a/b/c"), 2, '/'), 3);
    assert_eq!(find_char(&chars("a/b/c"), 4, '/'), 5);
}

#[test]
fn trimming() {
    assert_eq!(text(&trim(&chars("  a b \t\n"))), "a b");
    assert_eq!(text(&trim(&chars("\u{a0}x\u{2003}"))), "x");
    assert_eq!(text(&trim(&chars("   "))), "");
    assert_eq!(text(&trim(&chars(""))), "");
    assert_eq!(text(&trim(&chars("x"))), "x");
    assert_eq!(text(&slice_chars(&chars("hello"), 1, 3)), "el");
    assert_eq!(text(&slice_chars(&chars("hello"), 2, 2)), "");
}

#[test]
fn white_space_is_the_unicode_property() {
    let listed = |c: char| -> bool {
        let code = c as u32;
        (0x0009..=0x000D).contains(&code)
            || [0x0020, 0x0085, 0x00A0, 0x1680, 0x2028, 0x2029, 0x202F, 0x205F, 0x3000]
                .contains(&code)
            || (0x2000..=0x200A).contains(&code)
    };
    let mut white = 0;
    for code in 0..=0x10FFFFu32 {
        if let Some(c) = char::from_u32(code) {
            let trimmed_away = trim(&vec![c]).is_empty();
            assert_eq!(trimmed_away, listed(c), "U+{:04X}", code);
            assert_eq!(trimmed_away, c.is_whitespace(), "U+{:04X}", code);
            if trimmed_away {
                white += 1;
            }
        }
    }
    assert_eq!(white, 25);
}

#[test]
fn splitting_into_lines() {
    assert_eq!(texts(&lines(&chars("a\nb\r\nc"))), vec!["a", "b", "c"]);
    assert_eq!(texts(&lines(&chars("a\n"))), vec!["a"]);
    assert_eq!(texts(&lines(&chars("a\n\nb"))), vec!["a", "", "b"]);
    assert_eq!(texts(&lines(&chars("\n"))), vec![""]);
    assert_eq!(texts(&lines(&chars("a\r"))), vec!["a\r"]);
    assert_eq!(texts(&lines(&chars("a\rb\n"))), vec!["a\rb"]);
    assert_eq!(texts(&lines(&chars("\r\n\r\n"))), vec!["", ""]);
    assert!(lines(&chars("")).is_empty());
    for sample in ["", "x", "x\n", "\n\nx", "a\r\nb\rc\n\r", "a\r\r\nb"] {
        let expected: Vec<String> = sample.lines().map(|l| l.to_string()).collect();
        assert_eq!(texts(&lines(&chars(sample))), expected);
    }
}

#[test]
fn splitting_and_joining() {
    assert_eq!(texts(&split(&chars("a/b/c"), '/')), vec!["a", "b", "c"]);
    assert_eq!(texts(&split(&chars("abc"), '/')), vec!["abc"]);
    assert_eq!(texts(&split(&chars(""), '/')), vec![""]);
    assert_eq!(texts(&split(&chars("/a/"), '/')), vec!["", "a", ""]);
    let parts = split(&chars("a/b/c/d"), '/');
    assert_eq!(text(&join_first(&parts, 3, '/')), "a/b/c");
    assert_eq!(text(&join_first(&parts, 1, '/')), "a");
    assert_eq!(text(&join_first(&parts, 0, '/')), "");
    assert_eq!(text(&join_first(&parts, 4, '/')), "a/b/c/d");
    assert_eq!(text(&replace_char(&chars("a-b-c"), '-', '_')), "a_b_c");
    assert_eq!(text(&before_first(&chars("a::b::c"), &chars("::"))), "a");
    assert_eq!(text(&before_first(&chars("abc"), &chars("::"))), "abc");
}

#[test]
fn manifest_values_are_read_by_kind() {
    let doc = ManifestValue::Table(vec![
        ("name".to_string(), ManifestValue::Text("demo".to_string())),
        ("list".to_string(), ManifestValue::List(vec![ManifestValue::Other])),
        ("name".to_string(), ManifestValue::Text("second".to_string())),
    ]);
    assert_eq!(doc.get("name").unwrap().as_str(), Some("demo"));
    assert!(doc.get("missing").is_none());
    assert_eq!(doc.get("list").unwrap().as_array().unwrap().len(), 1);
    assert!(doc.get("list").unwrap().as_str().is_none());
    assert!(doc.get("list").unwrap().as_table().is_none());
    assert_eq!(doc.as_table().unwrap().len(), 3);
    assert!(doc.as_array().is_none());
    assert!(ManifestValue::Other.get("name").is_none());
    assert!(ManifestValue::Text("x".to_string()).get("x").is_none());
}

#[test]
fn patterns_are_searched_in_order() {
    let found = collect_captures(&vec![r"b(\d)", r"a(\d)"], "a1 b2 a3 b4").unwrap();
    assert_eq!(found, vec!["2", "4", "1", "3"]);
    let none = collect_captures(&vec![r"x(\d)"], "a1").unwrap();
    assert!(none.is_empty());
    let without_group = collect_captures(&vec![r"a\d"], "a1").unwrap();
    assert!(without_group.is_empty());
    let optional = collect_captures(&vec![r"a(\d)?"], "a a7").unwrap();
    assert_eq!(optional, vec!["7"]);
}

#[test]
fn pattern_that_does_not_compile_is_an_error() {
    assert!(Pattern::compile(r"a(\d)").is_ok());
    assert!(matches!(Pattern::compile(r"a(\d"), Err(DependencyBlameError::RegexError(_))));
    match collect_captures(&vec![r"a(\d)", r"b("], "a1") {
        Err(DependencyBlameError::RegexError(message)) => assert!(!message.is_empty()),
        other => panic!("expected a pattern failure, got {:?}", other),
    }
}

#[test]
fn capture_groups_of_matches() {
    let matches = vec![
        vec![Some("ab".to_string()), Some("a".to_string()), None],
        vec![Some("cd".to_string()), None, Some("d".to_string())],
    ];
    assert_eq!(captured(&matches[0], 1), Some("a"));
    assert_eq!(captured(&matches[0], 2), None);
    assert_eq!(captured(&matches[0], 3), None);
    assert_eq!(first_captured(&matches, 0), Some("ab"));
    assert_eq!(first_captured(&matches, 2), None);
    assert_eq!(first_captured(&Vec::new(), 0), None);
    assert_eq!(captured_texts(&matches, 1), vec!["a"]);
    assert_eq!(captured_texts(&matches, 2), vec!["d"]);
    assert_eq!(captured_texts(&matches, 0), vec!["ab", "cd"]);
    assert!(captured_texts(&matches, 5).is_empty());
}

#[test]
fn listing_groups_dependencies_by_kind() {
    let kinds = [
        DependencyType::Build,
        DependencyType::Direct,
        DependencyType::Dev,
        DependencyType::Peer,
        DependencyType::Direct,
        DependencyType::Optional,
    ];
    let deps: Vec<Dependency> = kinds
        .iter()
        .enumerate()
        .map(|(i, kind)| Dependency {
            name: format!("d{}", i),
            version: "1".to_string(),
            ecosystem: EcosystemType::Node,
            dependency_type: *kind,
        })
        .collect();
    let names = |group| -> Vec<String> {
        dependencies_in_group(&deps, group).iter().map(|d| d.name.clone()).collect()
    };
    assert_eq!(names(DependencyGroup::Direct), vec!["d1", "d4"]);
    assert_eq!(names(DependencyGroup::Development), vec!["d2"]);
    assert_eq!(names(DependencyGroup::Other), vec!["d0", "d3", "d5"]);
    assert_eq!(dependency_group(DependencyType::Peer), DependencyGroup::Other);
    assert!(dependencies_in_group(&Vec::new(), DependencyGroup::Direct).is_empty());
}

#[test]
fn report_lists_at_most_ten_locations() {
    let locations = |n: usize| -> UsageInfo {
        UsageInfo::with_locations(
            (0..n)
                .map(|i| ImportLocation {
                    file_path: "a".to_string(),
                    line_number: i + 1,
                    line_content: String::new(),
                })
                .collect(),
        )
    };
    assert_eq!(listed_locations(&locations(0)), 0);
    assert_eq!(omitted_locations(&locations(0)), 0);
    assert_eq!(listed_locations(&locations(10)), 10);
    assert_eq!(omitted_locations(&locations(10)), 0);
    assert_eq!(listed_locations(&locations(11)), 10);
    assert_eq!(omitted_locations(&locations(11)), 1);
    assert_eq!(listed_locations(&locations(3)), 3);
}

#[test]
fn commit_is_named_by_eight_characters() {
    assert_eq!(short_hash("0123456789abcdef"), "01234567");
    assert_eq!(short_hash("01234567"), "01234567");
    assert_eq!(short_hash("abc"), "abc");
    assert_eq!(short_hash(""), "");
}
