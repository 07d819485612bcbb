use dependency_blame::git_analyzer::{
    CommitChange, CommitInfo, CommitSnapshot, GitAnalyzer, ManifestChange, ManifestState, SearchStep,
};

fn commit(hash: &str) -> CommitInfo {
    CommitInfo {
        commit_hash: hash.to_string(),
        author_name: Some("Ada".to_string()),
        author_email: Some("ada@example.org".to_string()),
        seconds: 1_700_000_000,
        message: Some(format!("  commit {}\n", hash)),
    }
}

fn with_text(hash: &str, text: &str) -> CommitSnapshot {
    CommitSnapshot { commit: commit(hash), manifest: ManifestState::Text(text.to_string()) }
}

fn without_file(hash: &str) -> CommitSnapshot {
    CommitSnapshot { commit: commit(hash), manifest: ManifestState::Missing }
}

#[test]
fn commit_record_is_filled_from_the_commit() {
    let info = GitAnalyzer::extract_commit_info(&commit("abc123"), "Cargo.toml");
    assert_eq!(info.commit_hash, "abc123");
    assert_eq!(info.author, "Ada <ada@example.org>");
    assert_eq!(info.date, 1_700_000_000);
    assert_eq!(info.message, "commit abc123");
    assert_eq!(info.file_path, "Cargo.toml");
    assert_eq!(info.line_number, None);
}

#[test]
fn commit_record_has_defaults_for_missing_texts() {
    let bare = CommitInfo {
        commit_hash: "f00".to_string(),
        author_name: None,
        author_email: None,
        seconds: -5,
        message: None,
    };
    let info = GitAnalyzer::extract_commit_info(&bare, "go.mod");
    assert_eq!(info.author, "Unknown <unknown@unknown.com>");
    assert_eq!(info.message, "No commit message");
    assert_eq!(info.date, -5);
}

#[test]
fn dependency_of_the_initial_commit_is_introduced_there() {
    let history = vec![
        with_text("c1", "[dependencies]\nserde = \"1\"\n"),
        with_text("c2", "[dependencies]\nserde = \"1\"\nregex = \"1\"\n"),
        with_text("c3", "[dependencies]\nserde = \"1.0.100\"\n"),
    ];
    let found = GitAnalyzer::find_dependency_introduction(&history, "Cargo.toml", "serde").unwrap();
    assert_eq!(found.commit_hash, "c1");
}

#[test]
fn dependency_that_never_appears_has_no_introduction() {
    let history = vec![
        without_file("c1"),
        with_text("c2", "[dependencies]\nregex = \"1\"\n"),
        CommitSnapshot { commit: commit("c3"), manifest: ManifestState::NotAFile },
    ];
    assert!(GitAnalyzer::find_dependency_introduction(&history, "Cargo.toml", "serde").is_none());
    assert!(GitAnalyzer::find_dependency_introduction(&Vec::new(), "Cargo.toml", "serde").is_none());
}

#[test]
fn introduction_is_the_first_commit_that_holds_the_name() {
    let history = vec![
        without_file("c1"),
        with_text("c2", "[dependencies]\n"),
        with_text("c3", "[dependencies]\nserde = \"1\"\n"),
        with_text("c4", "[dependencies]\nserde = \"1\"\nregex = \"1\"\n"),
    ];
    let found = GitAnalyzer::find_dependency_introduction(&history, "Cargo.toml", "serde").unwrap();
    assert_eq!(found.commit_hash, "c3");
    assert_eq!(found.file_path, "Cargo.toml");
    assert_eq!(found.message, "commit c3");
    let regex = GitAnalyzer::find_dependency_introduction(&history, "Cargo.toml", "regex").unwrap();
    assert_eq!(regex.commit_hash, "c4");
}

#[test]
fn removed_and_added_again_counts_from_the_first_time() {
    let history = vec![
        with_text("c1", "serde"),
        with_text("c2", "nothing"),
        with_text("c3", "serde again"),
    ];
    let found = GitAnalyzer::find_dependency_introduction(&history, "Cargo.toml", "serde").unwrap();
    assert_eq!(found.commit_hash, "c1");
}

#[test]
fn name_is_looked_for_as_plain_text() {
    let history = vec![with_text("c1", "# xserdey is no dependency"), with_text("c2", "serde_json = \"1\"")];
    let found = GitAnalyzer::find_dependency_introduction(&history, "Cargo.toml", "serde").unwrap();
    assert_eq!(found.commit_hash, "c1");
    assert!(GitAnalyzer::manifest_declares(&ManifestState::Text("abc".to_string()), "bc"));
    assert!(GitAnalyzer::manifest_declares(&ManifestState::Text("abc".to_string()), ""));
    assert!(!GitAnalyzer::manifest_declares(&ManifestState::Text("abc".to_string()), "abcd"));
    assert!(!GitAnalyzer::manifest_declares(&ManifestState::Missing, ""));
    assert!(!GitAnalyzer::manifest_declares(&ManifestState::NotAFile, "a"));
}

#[test]
fn search_stops_at_the_introducing_commit() {
    let mut search = GitAnalyzer::new("Cargo.toml", "serde");
    assert!(search.introduction().is_none());
    assert_eq!(search.observe(&without_file("c1")), SearchStep::Continue);
    assert_eq!(search.observe(&with_text("c2", "regex")), SearchStep::Continue);
    assert!(search.introduction().is_none());
    assert_eq!(search.observe(&with_text("c3", "serde")), SearchStep::Stop);
    assert_eq!(search.introduction().unwrap().commit_hash, "c3");
    assert_eq!(search.observe(&with_text("c4", "serde")), SearchStep::Stop);
    assert_eq!(search.observe(&with_text("c5", "none")), SearchStep::Stop);
    assert_eq!(search.introduction().unwrap().commit_hash, "c3");
}

#[test]
fn search_keeps_the_commit_before_the_introduction() {
    let mut search = GitAnalyzer::new("Cargo.toml", "serde");
    assert!(search.predecessor().is_none());
    search.observe(&without_file("c1"));
    assert_eq!(search.predecessor().map(|h| h.as_str()), Some("c1"));
    search.observe(&CommitSnapshot { commit: commit("c2"), manifest: ManifestState::NotAFile });
    assert_eq!(search.predecessor().map(|h| h.as_str()), Some("c1"));
    search.observe(&with_text("c3", "regex"));
    assert_eq!(search.predecessor().map(|h| h.as_str()), Some("c3"));
    search.observe(&with_text("c4", "serde"));
    assert_eq!(search.predecessor().map(|h| h.as_str()), Some("c3"));
    search.observe(&with_text("c5", "regex"));
    assert_eq!(search.predecessor().map(|h| h.as_str()), Some("c3"));
    assert_eq!(search.introduction().unwrap().commit_hash, "c4");
}

#[test]
fn search_stops_at_once_when_the_root_has_the_dependency() {
    let mut search = GitAnalyzer::new("package.json", "left-pad");
    assert_eq!(search.observe(&with_text("root", "{\"left-pad\":\"1\"}")), SearchStep::Stop);
    let found = search.introduction().unwrap();
    assert_eq!(found.commit_hash, "root");
    assert_eq!(found.file_path, "package.json");
    assert!(search.predecessor().is_none());
}

#[test]
fn stepwise_search_agrees_with_the_search_over_the_whole_history() {
    let history = vec![
        without_file("c1"),
        with_text("c2", "a"),
        with_text("c3", "a b"),
        with_text("c4", "b"),
    ];
    for name in ["a", "b", "c"] {
        let mut search = GitAnalyzer::new("m", name);
        for snapshot in &history {
            if search.observe(snapshot) == SearchStep::Stop {
                break;
            }
        }
        let whole = GitAnalyzer::find_dependency_introduction(&history, "m", name);
        assert_eq!(
            search.introduction().map(|i| i.commit_hash.clone()),
            whole.map(|i| i.commit_hash)
        );
    }
}

#[test]
fn history_keeps_the_commits_that_modified_the_manifest() {
    let changes = vec![
        CommitChange { commit: commit("c4"), change: ManifestChange::Child { touched: true } },
        CommitChange { commit: commit("c3"), change: ManifestChange::Child { touched: false } },
        CommitChange { commit: commit("c2"), change: ManifestChange::Child { touched: true } },
        CommitChange { commit: commit("c1"), change: ManifestChange::Root { present: true } },
    ];
    let history = GitAnalyzer::get_dependency_history(&changes, "Cargo.toml");
    let hashes: Vec<String> = history.iter().map(|i| i.commit_hash.clone()).collect();
    assert_eq!(hashes, vec!["c4".to_string(), "c2".to_string(), "c1".to_string()]);
    assert!(history.iter().all(|i| i.file_path == "Cargo.toml"));
}

#[test]
fn root_commit_without_the_manifest_did_not_modify_it() {
    let changes = vec![
        CommitChange { commit: commit("c2"), change: ManifestChange::Child { touched: false } },
        CommitChange { commit: commit("c1"), change: ManifestChange::Root { present: false } },
    ];
    assert!(GitAnalyzer::get_dependency_history(&changes, "Cargo.toml").is_empty());
    assert!(GitAnalyzer::commit_modified_file(&ManifestChange::Root { present: true }));
    assert!(!GitAnalyzer::commit_modified_file(&ManifestChange::Root { present: false }));
    assert!(GitAnalyzer::commit_modified_file(&ManifestChange::Child { touched: true }));
    assert!(!GitAnalyzer::commit_modified_file(&ManifestChange::Child { touched: false }));
}
