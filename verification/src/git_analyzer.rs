//! Finding in a repository's history the commit that introduced a
//! dependency, and the commits that changed a manifest.
//!
//! The library does not open repositories. A caller walks the history and
//! hands over, commit by commit, what the commit shows of the manifest.

use crate::dependency::GitInfo;
use crate::text::{contains, contains_text, from_chars, to_chars, trim, trimmed};
use vstd::prelude::*;
use vstd::string::StringExecFns;

verus! {

/// A commit as the repository records it. Name, email and message are
/// absent where the repository holds no readable text for them.
#[derive(Debug, Clone)]
pub struct CommitInfo {
    pub commit_hash: String,
    pub author_name: Option<String>,
    pub author_email: Option<String>,
    /// The commit time in seconds since the Unix epoch, UTC.
    pub seconds: i64,
    pub message: Option<String>,
}

/// What a commit's tree shows at the manifest's path.
#[derive(Debug, Clone)]
pub enum ManifestState {
    /// The tree has no entry at the path.
    Missing,
    /// The tree has an entry at the path that is no file.
    NotAFile,
    /// The text of the file at the path.
    Text(String),
}

/// A commit together with what it shows of the manifest.
#[derive(Debug, Clone)]
pub struct CommitSnapshot {
    pub commit: CommitInfo,
    pub manifest: ManifestState,
}

/// The history of a manifest as read from a repository: the manifest's
/// path within the repository and the commits, oldest first.
#[derive(Debug, Clone)]
pub struct ManifestHistory {
    pub file_path: String,
    pub commits: Vec<CommitSnapshot>,
}

/// How a commit relates to the manifest, compared with its first parent.
#[derive(Debug, Clone, Copy, PartialEq, Eq, Structural)]
pub enum ManifestChange {
    /// The commit has no parent; `present` tells whether its tree holds the
    /// manifest.
    Root { present: bool },
    /// The commit has a parent; `touched` tells whether the difference to
    /// its first parent touches the manifest's path.
    Child { touched: bool },
}

/// A commit together with how it relates to the manifest.
#[derive(Debug, Clone)]
pub struct CommitChange {
    pub commit: CommitInfo,
    pub change: ManifestChange,
}

/// What a `GitInfo` says, with its texts as sequences of characters.
pub struct GitInfoView {
    pub commit_hash: Seq<char>,
    pub author: Seq<char>,
    pub date: i64,
    pub message: Seq<char>,
    pub file_path: Seq<char>,
    pub line_number: Option<usize>,
}

impl View for GitInfo {
    type V = GitInfoView;

    open spec fn view(&self) -> GitInfoView {
        GitInfoView {
            commit_hash: self.commit_hash@,
            author: self.author@,
            date: self.date,
            message: self.message@,
            file_path: self.file_path@,
            line_number: self.line_number,
        }
    }
}

/// The views of a sequence of records, in order.
pub open spec fn git_info_views(infos: Seq<GitInfo>) -> Seq<GitInfoView> {
    Seq::new(infos.len(), |i: int| infos[i]@)
}

/// The text of an optional string, or a default.
pub open spec fn text_or(value: Option<String>, default: Seq<char>) -> Seq<char> {
    match value {
        Some(s) => s@,
        None => default,
    }
}

/// The record of a commit for a manifest path: the author as
/// `name <email>`, with `Unknown` and `unknown@unknown.com` in place of an
/// absent name and email; the message trimmed, with `No commit message` in
/// place of an absent one; no line number.
pub open spec fn commit_record(commit: CommitInfo, file_path: Seq<char>) -> GitInfoView {
    GitInfoView {
        commit_hash: commit.commit_hash@,
        author: text_or(commit.author_name, "Unknown"@) + " <"@ + text_or(
            commit.author_email,
            "unknown@unknown.com"@,
        ) + ">"@,
        date: commit.seconds,
        message: trimmed(text_or(commit.message, "No commit message"@)),
        file_path: file_path,
        line_number: None,
    }
}

/// Whether a commit's manifest declares the dependency: the manifest is a
/// file whose text holds the dependency's name.
pub open spec fn declares(manifest: ManifestState, dependency_name: Seq<char>) -> bool {
    match manifest {
        ManifestState::Text(text) => contains_text(text@, dependency_name),
        _ => false,
    }
}

/// The position of the first commit whose manifest declares the
/// dependency, or the number of commits where there is none.
pub open spec fn first_declaring(history: Seq<CommitSnapshot>, dependency_name: Seq<char>) -> int
    decreases history.len(),
{
    if history.len() == 0 {
        0
    } else if declares(history[0].manifest, dependency_name) {
        0
    } else {
        1 + first_declaring(history.drop_first(), dependency_name)
    }
}

/// The commit that introduced a dependency: the first commit, in the order
/// of the history, whose manifest declares it.
pub open spec fn introduction(
    history: Seq<CommitSnapshot>,
    file_path: Seq<char>,
    dependency_name: Seq<char>,
) -> Option<GitInfoView> {
    let at = first_declaring(history, dependency_name);
    if 0 <= at < history.len() {
        Some(commit_record(history[at].commit, file_path))
    } else {
        None
    }
}

/// `first_declaring` is the least position whose manifest declares the
/// dependency.
pub proof fn lemma_first_declaring(history: Seq<CommitSnapshot>, dependency_name: Seq<char>)
    ensures
        0 <= first_declaring(history, dependency_name) <= history.len(),
        forall|k: int|
            0 <= k < first_declaring(history, dependency_name) ==> !declares(
                (#[trigger] history[k]).manifest,
                dependency_name,
            ),
        first_declaring(history, dependency_name) < history.len() ==> declares(
            history[first_declaring(history, dependency_name)].manifest,
            dependency_name,
        ),
    decreases history.len(),
{
    if history.len() > 0 && !declares(history[0].manifest, dependency_name) {
        lemma_first_declaring(history.drop_first(), dependency_name);
        assert forall|k: int| 0 <= k < first_declaring(history, dependency_name) implies !declares(
            (#[trigger] history[k]).manifest,
            dependency_name,
        ) by {
            if k > 0 {
                assert(history[k] == history.drop_first()[k - 1]);
            }
        }
    }
}

/// A position that declares the dependency and has no declaring position
/// before it is the first declaring position.
pub proof fn lemma_first_declaring_is(
    history: Seq<CommitSnapshot>,
    dependency_name: Seq<char>,
    at: int,
)
    requires
        0 <= at <= history.len(),
        forall|k: int| 0 <= k < at ==> !declares((#[trigger] history[k]).manifest, dependency_name),
        at < history.len() ==> declares(history[at].manifest, dependency_name),
    ensures
        first_declaring(history, dependency_name) == at,
{
    lemma_first_declaring(history, dependency_name);
    let first = first_declaring(history, dependency_name);
    if first < at {
        assert(!declares(history[first].manifest, dependency_name));
    }
    if at < first {
        assert(!declares(history[at].manifest, dependency_name));
    }
}

/// A dependency that the initial commit's manifest already declares was
/// introduced by the initial commit, whatever later commits hold.
pub proof fn lemma_introduced_by_initial_commit(
    history: Seq<CommitSnapshot>,
    file_path: Seq<char>,
    dependency_name: Seq<char>,
)
    requires
        history.len() > 0,
        declares(history[0].manifest, dependency_name),
    ensures
        introduction(history, file_path, dependency_name) == Some(
            commit_record(history[0].commit, file_path),
        ),
{
}

/// A dependency whose name appears in no commit's manifest has no
/// introducing commit.
pub proof fn lemma_never_declared_never_introduced(
    history: Seq<CommitSnapshot>,
    file_path: Seq<char>,
    dependency_name: Seq<char>,
)
    requires
        forall|k: int|
            0 <= k < history.len() ==> !declares((#[trigger] history[k]).manifest, dependency_name),
    ensures
        introduction(history, file_path, dependency_name) is None,
{
    lemma_first_declaring_is(history, dependency_name, history.len() as int);
}

/// The introducing commit is the earliest that declares the dependency:
/// its manifest declares it and no earlier commit's manifest does. This
/// holds also where the dependency was removed and added again later.
pub proof fn lemma_introduction_is_earliest(
    history: Seq<CommitSnapshot>,
    file_path: Seq<char>,
    dependency_name: Seq<char>,
    at: int,
)
    requires
        0 <= at < history.len(),
        declares(history[at].manifest, dependency_name),
        forall|k: int| 0 <= k < at ==> !declares((#[trigger] history[k]).manifest, dependency_name),
    ensures
        introduction(history, file_path, dependency_name) == Some(
            commit_record(history[at].commit, file_path),
        ),
{
    lemma_first_declaring_is(history, dependency_name, at);
}

/// Whether a commit's manifest shows that the dependency is absent: the
/// tree has no manifest, or the manifest is a file without the name.
pub open spec fn lacks(manifest: ManifestState, dependency_name: Seq<char>) -> bool {
    match manifest {
        ManifestState::Missing => true,
        ManifestState::NotAFile => false,
        ManifestState::Text(text) => !contains_text(text@, dependency_name),
    }
}

/// The hash of the last of the first `end` commits whose manifest shows
/// that the dependency is absent, if there is one.
pub open spec fn last_lacking(
    history: Seq<CommitSnapshot>,
    dependency_name: Seq<char>,
    end: int,
) -> Option<Seq<char>>
    decreases end,
{
    if end <= 0 || end > history.len() {
        None
    } else if lacks(history[end - 1].manifest, dependency_name) {
        Some(history[end - 1].commit.commit_hash@)
    } else {
        last_lacking(history, dependency_name, end - 1)
    }
}

/// The commit before the introduction: the last commit, before the one
/// that introduced the dependency, whose manifest shows that the
/// dependency is absent. Where no commit introduced the dependency, it is
/// the last such commit of the history.
pub open spec fn predecessor(history: Seq<CommitSnapshot>, dependency_name: Seq<char>) -> Option<
    Seq<char>,
> {
    last_lacking(history, dependency_name, first_declaring(history, dependency_name))
}

/// `last_lacking` looks at the first `end` commits only.
pub proof fn lemma_last_lacking_prefix(
    first: Seq<CommitSnapshot>,
    second: Seq<CommitSnapshot>,
    dependency_name: Seq<char>,
    end: int,
)
    requires
        0 <= end <= first.len(),
        end <= second.len(),
        forall|k: int| 0 <= k < end ==> first[k] == second[k],
    ensures
        last_lacking(first, dependency_name, end) == last_lacking(second, dependency_name, end),
    decreases end,
{
    if end > 0 {
        lemma_last_lacking_prefix(first, second, dependency_name, end - 1);
    }
}

/// Once a commit that declares the dependency has been seen, later
/// commits do not change which commit introduced it: a walk may stop there.
pub proof fn lemma_introduction_is_settled(
    seen: Seq<CommitSnapshot>,
    later: Seq<CommitSnapshot>,
    file_path: Seq<char>,
    dependency_name: Seq<char>,
)
    requires
        introduction(seen, file_path, dependency_name) is Some,
    ensures
        introduction(seen + later, file_path, dependency_name) == introduction(
            seen,
            file_path,
            dependency_name,
        ),
{
    lemma_first_declaring(seen, dependency_name);
    let at = first_declaring(seen, dependency_name);
    let all = seen + later;
    assert(all[at] == seen[at]);
    assert forall|k: int| 0 <= k < at implies !declares(
        (#[trigger] all[k]).manifest,
        dependency_name,
    ) by {
        assert(all[k] == seen[k]);
    }
    lemma_first_declaring_is(all, dependency_name, at);
}

/// Whether a commit modified the manifest: a commit without parent does
/// where its tree holds the manifest, any other commit where the difference to
/// its first parent touches it.
pub open spec fn modifies(change: ManifestChange) -> bool {
    match change {
        ManifestChange::Root { present } => present,
        ManifestChange::Child { touched } => touched,
    }
}

/// The records of the commits that modified the manifest, in the order of
/// the walk.
pub open spec fn modifications(changes: Seq<CommitChange>, file_path: Seq<char>) -> Seq<
    GitInfoView,
>
    decreases changes.len(),
{
    if changes.len() == 0 {
        Seq::empty()
    } else {
        let before = modifications(changes.drop_last(), file_path);
        if modifies(changes.last().change) {
            before.push(commit_record(changes.last().commit, file_path))
        } else {
            before
        }
    }
}

/// What the walk over a history tells the caller to do next.
#[derive(Debug, Clone, Copy, PartialEq, Eq, Structural)]
pub enum SearchStep {
    /// Hand over the next commit.
    Continue,
    /// The introducing commit is found; no later commit can change it.
    Stop,
}

/// The search for the commit that introduced a dependency into a
/// manifest. Commits are handed over in chronological order, oldest first.
/// The search keeps the last commit seen without the dependency and the
/// first commit with it.
pub struct GitAnalyzer {
    file_path: String,
    dependency_name: String,
    last_commit_without_dep: Option<String>,
    first_commit_with_dep: Option<GitInfo>,
    seen: Ghost<Seq<CommitSnapshot>>,
}

impl GitAnalyzer {
    #[verifier::type_invariant]
    spec fn consistent(self) -> bool {
        &&& match self.first_commit_with_dep {
            Some(info) => Some(info@) == introduction(
                self.seen@,
                self.file_path@,
                self.dependency_name@,
            ),
            None => introduction(self.seen@, self.file_path@, self.dependency_name@) is None,
        }
        &&& match self.last_commit_without_dep {
            Some(hash) => Some(hash@) == predecessor(self.seen@, self.dependency_name@),
            None => predecessor(self.seen@, self.dependency_name@) is None,
        }
    }

    /// The commits handed over so far, oldest first.
    pub closed spec fn history(self) -> Seq<CommitSnapshot> {
        self.seen@
    }

    /// The path of the manifest.
    pub closed spec fn manifest_path(self) -> Seq<char> {
        self.file_path@
    }

    /// The name of the dependency.
    pub closed spec fn dependency(self) -> Seq<char> {
        self.dependency_name@
    }

    /// The record of a commit for a manifest path.
    pub fn extract_commit_info(commit: &CommitInfo, file_path: &str) -> (info: GitInfo)
        ensures
            info@ == commit_record(*commit, file_path@),
    {
        let name: &str = match &commit.author_name {
            Some(name) => name.as_str(),
            None => "Unknown",
        };
        let email: &str = match &commit.author_email {
            Some(email) => email.as_str(),
            None => "unknown@unknown.com",
        };
        let message: &str = match &commit.message {
            Some(message) => message.as_str(),
            None => "No commit message",
        };
        GitInfo {
            commit_hash: commit.commit_hash.clone(),
            author: String::from_str(name).concat(" <").concat(email).concat(">"),
            date: commit.seconds,
            message: from_chars(&trim(&to_chars(message))),
            file_path: String::from_str(file_path),
            line_number: None,
        }
    }

    /// Whether a commit's manifest declares a dependency.
    pub fn manifest_declares(manifest: &ManifestState, dependency_name: &str) -> (r: bool)
        ensures
            r == declares(*manifest, dependency_name@),
    {
        match manifest {
            ManifestState::Text(text) => contains(
                &to_chars(text.as_str()),
                &to_chars(dependency_name),
            ),
            _ => false,
        }
    }

    /// Whether a commit modified the manifest.
    pub fn commit_modified_file(change: &ManifestChange) -> (r: bool)
        ensures
            r == modifies(*change),
    {
        match change {
            ManifestChange::Root { present } => *present,
            ManifestChange::Child { touched } => *touched,
        }
    }

    /// A search that has seen no commit yet.
    pub fn new(file_path: &str, dependency_name: &str) -> (analyzer: GitAnalyzer)
        ensures
            analyzer.history() == Seq::<CommitSnapshot>::empty(),
            analyzer.manifest_path() == file_path@,
            analyzer.dependency() == dependency_name@,
    {
        GitAnalyzer {
            file_path: String::from_str(file_path),
            dependency_name: String::from_str(dependency_name),
            last_commit_without_dep: None,
            first_commit_with_dep: None,
            seen: Ghost(Seq::empty()),
        }
    }

    /// Takes the next commit of the history. The search stops at the first
    /// commit whose manifest declares the dependency.
    pub fn observe(&mut self, snapshot: &CommitSnapshot) -> (step: SearchStep)
        ensures
            final(self).history() == old(self).history().push(*snapshot),
            final(self).manifest_path() == old(self).manifest_path(),
            final(self).dependency() == old(self).dependency(),
            (step == SearchStep::Stop) == (introduction(
                final(self).history(),
                final(self).manifest_path(),
                final(self).dependency(),
            ) is Some),
    {
        proof {
            use_type_invariant(&*self);
        }
        let ghost before = self.seen@;
        let ghost name = self.dependency_name@;
        let ghost after = before.push(*snapshot);
        proof {
            lemma_first_declaring(before, name);
            lemma_first_declaring(after, name);
        }
        if self.first_commit_with_dep.is_some() {
            proof {
                let at = first_declaring(before, name);
                assert(after[at] == before[at]);
                assert forall|k: int| 0 <= k < at implies !declares(
                    (#[trigger] after[k]).manifest,
                    name,
                ) by {
                    assert(after[k] == before[k]);
                }
                lemma_first_declaring_is(after, name, at);
                lemma_last_lacking_prefix(before, after, name, at);
            }
            self.seen = Ghost(after);
            return SearchStep::Stop;
        }
        proof {
            assert forall|k: int| 0 <= k < before.len() implies !declares(
                (#[trigger] after[k]).manifest,
                name,
            ) by {
                assert(after[k] == before[k]);
                assert(!declares(before[k].manifest, name));
            }
            lemma_last_lacking_prefix(before, after, name, before.len() as int);
        }
        if GitAnalyzer::manifest_declares(&snapshot.manifest, self.dependency_name.as_str()) {
            let info = GitAnalyzer::extract_commit_info(&snapshot.commit, self.file_path.as_str());
            proof {
                lemma_first_declaring_is(after, name, before.len() as int);
            }
            *self = GitAnalyzer {
                file_path: self.file_path.clone(),
                dependency_name: self.dependency_name.clone(),
                last_commit_without_dep: self.last_commit_without_dep.clone(),
                first_commit_with_dep: Some(info),
                seen: Ghost(after),
            };
            SearchStep::Stop
        } else {
            proof {
                lemma_first_declaring_is(after, name, after.len() as int);
            }
            let last_commit_without_dep = match &snapshot.manifest {
                ManifestState::NotAFile => self.last_commit_without_dep.clone(),
                _ => Some(snapshot.commit.commit_hash.clone()),
            };
            *self = GitAnalyzer {
                file_path: self.file_path.clone(),
                dependency_name: self.dependency_name.clone(),
                last_commit_without_dep,
                first_commit_with_dep: None,
                seen: Ghost(after),
            };
            SearchStep::Continue
        }
    }

    /// The commit before the introduction, by its hash, as far as the
    /// commits handed over show it.
    pub fn predecessor(&self) -> (r: Option<&String>)
        ensures
            match r {
                Some(hash) => Some(hash@) == predecessor(self.history(), self.dependency()),
                None => predecessor(self.history(), self.dependency()) is None,
            },
    {
        proof {
            use_type_invariant(self);
        }
        self.last_commit_without_dep.as_ref()
    }

    /// The commit that introduced the dependency, as far as the commits
    /// handed over show it.
    pub fn introduction(&self) -> (r: Option<&GitInfo>)
        ensures
            match r {
                Some(info) => Some(info@) == introduction(
                    self.history(),
                    self.manifest_path(),
                    self.dependency(),
                ),
                None => introduction(self.history(), self.manifest_path(), self.dependency())
                    is None,
            },
    {
        proof {
            use_type_invariant(self);
        }
        self.first_commit_with_dep.as_ref()
    }

    /// The commit that introduced a dependency into a manifest: the first
    /// commit of the history, which is given oldest first, whose manifest
    /// text holds the dependency's name.
    pub fn find_dependency_introduction(
        history: &Vec<CommitSnapshot>,
        dependency_file: &str,
        dependency_name: &str,
    ) -> (r: Option<GitInfo>)
        ensures
            match r {
                Some(info) => Some(info@) == introduction(
                    history@,
                    dependency_file@,
                    dependency_name@,
                ),
                None => introduction(history@, dependency_file@, dependency_name@) is None,
            },
    {
        let mut i: usize = 0;
        while i < history.len()
            invariant
                i <= history.len(),
                forall|k: int|
                    0 <= k < i ==> !declares((#[trigger] history@[k]).manifest, dependency_name@),
            decreases history.len() - i,
        {
            if GitAnalyzer::manifest_declares(&history[i].manifest, dependency_name) {
                proof {
                    lemma_first_declaring_is(history@, dependency_name@, i as int);
                }
                return Some(GitAnalyzer::extract_commit_info(&history[i].commit, dependency_file));
            }
            i += 1;
        }
        proof {
            lemma_first_declaring_is(history@, dependency_name@, history@.len() as int);
        }
        None
    }

    /// The commits that modified a manifest, in the order of the walk,
    /// which follows first parents from the head and so runs newest first.
    pub fn get_dependency_history(changes: &Vec<CommitChange>, dependency_file: &str) -> (r: Vec<
        GitInfo,
    >)
        ensures
            git_info_views(r@) == modifications(changes@, dependency_file@),
    {
        let mut history: Vec<GitInfo> = Vec::new();
        let mut i: usize = 0;
        assert(git_info_views(history@) =~= Seq::empty());
        while i < changes.len()
            invariant
                i <= changes.len(),
                git_info_views(history@) == modifications(
                    changes@.take(i as int),
                    dependency_file@,
                ),
            decreases changes.len() - i,
        {
            let ghost before = git_info_views(history@);
            proof {
                assert(changes@.take(i + 1).drop_last() =~= changes@.take(i as int));
            }
            if GitAnalyzer::commit_modified_file(&changes[i].change) {
                let info = GitAnalyzer::extract_commit_info(&changes[i].commit, dependency_file);
                history.push(info);
                assert(git_info_views(history@) =~= before.push(info@));
            }
            i += 1;
        }
        assert(changes@.take(changes@.len() as int) =~= changes@);
        history
    }
}

} // verus!
