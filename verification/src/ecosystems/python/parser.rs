//! Reading `requirements.txt` and `pyproject.toml`.

use crate::dependency::{
    Dependency, DependencyType, DependencyView, EcosystemType, dependency_views,
};
use crate::ecosystems::tables::{VersionRule, append_table, table_dependencies};
use crate::ecosystems::traits::{DependencyParser, ManifestFile, parse_view};
use crate::error::{DependencyBlameError, ErrorView};
use crate::manifest::{ManifestValue, descend, entry_of, parse_toml, pointee, toml_document};
use crate::text::{
    contains_text, find_text, first_position, from_chars, lemma_first_position, lines, lines_of,
    slice_chars, str_is, str_views, texts, to_chars, trim, trimmed,
};
use vstd::prelude::*;
use vstd::string::StringExecFns;

verus! {

/// The parser of `requirements.txt` and `pyproject.toml`.
#[derive(Debug, Clone, Copy)]
pub struct PythonParser;

/// The version operators of a requirement line, in the order in which they
/// are looked for.
pub open spec fn version_operators() -> Seq<Seq<char>> {
    seq!["=="@, ">="@, "<="@, "~="@, ">"@, "<"@, "!="@]
}

/// A requirement line split at the first occurrence of the first of the
/// given operators that occurs in it: the name is what stands before,
/// the version is the operator and what follows, both trimmed. Where none
/// of the operators occurs, the name is the trimmed part before the first
/// `[`, or the whole trimmed line where there is none, and the version is
/// `*`.
pub open spec fn split_requirement(line: Seq<char>, operators: Seq<Seq<char>>) -> (
    Seq<char>,
    Seq<char>,
)
    decreases operators.len(),
{
    if operators.len() == 0 {
        if contains_text(line, "["@) {
            (trimmed(line.subrange(0, first_position(line, "["@))), "*"@)
        } else {
            (trimmed(line), "*"@)
        }
    } else if contains_text(line, operators[0]) {
        let at = first_position(line, operators[0]);
        (trimmed(line.subrange(0, at)), trimmed(line.subrange(at, line.len() as int)))
    } else {
        split_requirement(line, operators.drop_first())
    }
}

/// The name and the version that a requirement line gives.
pub open spec fn requirement_of(line: Seq<char>) -> (Seq<char>, Seq<char>) {
    split_requirement(line, version_operators())
}

/// The dependency that a requirement line declares.
pub open spec fn requirement_dependency(line: Seq<char>) -> DependencyView {
    DependencyView {
        name: requirement_of(line).0,
        version: requirement_of(line).1,
        ecosystem: EcosystemType::Python,
        dependency_type: DependencyType::Direct,
    }
}

/// Operators that do not occur in the line can be skipped.
pub proof fn lemma_split_requirement_skip(line: Seq<char>, operators: Seq<Seq<char>>, n: int)
    requires
        0 <= n <= operators.len(),
        forall|k: int| 0 <= k < n ==> !contains_text(line, operators[k]),
    ensures
        split_requirement(line, operators) == split_requirement(
            line,
            operators.subrange(n, operators.len() as int),
        ),
    decreases n,
{
    if n == 0 {
        assert(operators.subrange(0, operators.len() as int) =~= operators);
    } else {
        lemma_split_requirement_skip(line, operators.drop_first(), n - 1);
        assert(operators.drop_first().subrange(n - 1, operators.drop_first().len() as int)
            =~= operators.subrange(n, operators.len() as int));
    }
}

/// Splits a requirement line into the package's name and its version.
pub fn parse_requirement_line(line: &str) -> (r: (String, String))
    ensures
        r.0@ == requirement_of(line@).0,
        r.1@ == requirement_of(line@).1,
{
    let chars = to_chars(line);
    let operators = vec!["==", ">=", "<=", "~=", ">", "<", "!="];
    let ghost ops = version_operators();
    assert(str_views(operators@) =~= ops);
    let mut i: usize = 0;
    while i < operators.len()
        invariant
            i <= operators.len(),
            chars@ == line@,
            str_views(operators@) == ops,
            ops == version_operators(),
            forall|k: int| 0 <= k < i ==> !contains_text(line@, ops[k]),
        decreases operators.len() - i,
    {
        let operator = to_chars(operators[i]);
        assert(operator@ == ops[i as int]);
        match find_text(&chars, &operator) {
            Some(at) => {
                proof {
                    lemma_first_position(chars@, operator@, at as int);
                    lemma_split_requirement_skip(line@, ops, i as int);
                    assert(ops.subrange(i as int, ops.len() as int)[0] == ops[i as int]);
                }
                let name = from_chars(&trim(&slice_chars(&chars, 0, at)));
                let version = from_chars(&trim(&slice_chars(&chars, at, chars.len())));
                return (name, version);
            },
            None => {},
        }
        i += 1;
    }
    proof {
        lemma_split_requirement_skip(line@, ops, ops.len() as int);
        assert(ops.subrange(ops.len() as int, ops.len() as int) =~= Seq::empty());
    }
    let bracket = to_chars("[");
    match find_text(&chars, &bracket) {
        Some(at) => {
            proof {
                lemma_first_position(chars@, bracket@, at as int);
            }
            (from_chars(&trim(&slice_chars(&chars, 0, at))), String::from_str("*"))
        },
        None => (from_chars(&trim(&chars)), String::from_str("*")),
    }
}

/// Whether a trimmed line of a requirement list declares nothing: it is
/// empty or a comment.
pub open spec fn is_blank_or_comment(line: Seq<char>) -> bool {
    line.len() == 0 || line[0] == '#'
}

/// The dependencies that the lines of a requirement list declare: one for
/// each line that, trimmed, is neither empty nor a comment.
pub open spec fn requirement_lines(lines: Seq<Seq<char>>) -> Seq<DependencyView>
    decreases lines.len(),
{
    if lines.len() == 0 {
        Seq::empty()
    } else {
        let before = requirement_lines(lines.drop_last());
        let line = trimmed(lines.last());
        if is_blank_or_comment(line) {
            before
        } else {
            before.push(requirement_dependency(line))
        }
    }
}

/// What a requirement list declares.
pub open spec fn requirements_dependencies(content: Seq<char>) -> Seq<DependencyView> {
    requirement_lines(lines_of(content))
}

/// Collects the dependencies of a requirement list.
pub fn read_requirements(content: &str) -> (deps: Vec<Dependency>)
    ensures
        dependency_views(deps@) == requirements_dependencies(content@),
{
    let all = lines(&to_chars(content));
    let mut deps: Vec<Dependency> = Vec::new();
    assert(dependency_views(deps@) =~= Seq::empty());
    let mut i: usize = 0;
    while i < all.len()
        invariant
            i <= all.len(),
            dependency_views(deps@) == requirement_lines(texts(all@).take(i as int)),
        decreases all.len() - i,
    {
        let ghost before = dependency_views(deps@);
        proof {
            assert(texts(all@).take(i + 1).drop_last() =~= texts(all@).take(i as int));
            assert(texts(all@).take(i + 1).last() == all@[i as int]@);
        }
        let line = trim(&all[i]);
        if !(line.len() == 0 || line[0] == '#') {
            let text = from_chars(&line);
            let (name, version) = parse_requirement_line(text.as_str());
            let dep = Dependency {
                name,
                version,
                ecosystem: EcosystemType::Python,
                dependency_type: DependencyType::Direct,
            };
            deps.push(dep);
            assert(dependency_views(deps@) =~= before.push(dep@));
        }
        i += 1;
    }
    assert(texts(all@).take(texts(all@).len() as int) =~= texts(all@));
    deps
}

/// The dependencies that a list of requirement strings declares: one for
/// each item that is a string.
pub open spec fn listed_requirements(items: Seq<ManifestValue>) -> Seq<DependencyView>
    decreases items.len(),
{
    if items.len() == 0 {
        Seq::empty()
    } else {
        let before = listed_requirements(items.drop_last());
        match items.last() {
            ManifestValue::Text(s) => before.push(requirement_dependency(s@)),
            _ => before,
        }
    }
}

/// The dependencies of a list of requirement strings that may be absent
/// or no list.
pub open spec fn project_requirements(value: Option<ManifestValue>) -> Seq<DependencyView> {
    match value {
        Some(ManifestValue::List(items)) => listed_requirements(items@),
        _ => Seq::empty(),
    }
}

/// What a decoded `pyproject.toml` declares: the entries of
/// `tool.poetry.dependencies` but `python` as direct, then those of
/// `tool.poetry.dev-dependencies` as development dependencies, then the
/// requirement strings of `project.dependencies` as direct dependencies.
pub open spec fn pyproject_dependencies(doc: ManifestValue) -> Seq<DependencyView> {
    let poetry = entry_of(doc.entry("tool"@), "poetry"@);
    table_dependencies(
        entry_of(poetry, "dependencies"@),
        EcosystemType::Python,
        DependencyType::Direct,
        VersionRule::Detailed,
        Some("python"@),
    ) + table_dependencies(
        entry_of(poetry, "dev-dependencies"@),
        EcosystemType::Python,
        DependencyType::Dev,
        VersionRule::Plain,
        None,
    ) + project_requirements(entry_of(doc.entry("project"@), "dependencies"@))
}

/// Appends to `deps` the dependencies of a list of requirement strings.
pub fn append_requirements(deps: &mut Vec<Dependency>, value: Option<&ManifestValue>)
    ensures
        dependency_views(final(deps)@) == dependency_views(old(deps)@) + project_requirements(
            pointee(value),
        ),
{
    let ghost start = dependency_views(deps@);
    assert(start + Seq::<DependencyView>::empty() =~= start);
    let items = match value {
        Some(v) => match v.as_array() {
            Some(items) => items,
            None => {
                return ;
            },
        },
        None => {
            return ;
        },
    };
    let mut i: usize = 0;
    while i < items.len()
        invariant
            i <= items.len(),
            dependency_views(deps@) == start + listed_requirements(items@.take(i as int)),
        decreases items.len() - i,
    {
        let ghost before = dependency_views(deps@);
        let ghost listed = listed_requirements(items@.take(i as int));
        proof {
            assert(items@.take(i + 1).drop_last() =~= items@.take(i as int));
        }
        match items[i].as_str() {
            Some(text) => {
                let (name, version) = parse_requirement_line(text);
                let dep = Dependency {
                    name,
                    version,
                    ecosystem: EcosystemType::Python,
                    dependency_type: DependencyType::Direct,
                };
                deps.push(dep);
                proof {
                    assert(dependency_views(deps@) =~= before.push(dep@));
                    assert(start + listed.push(dep@) =~= (start + listed).push(dep@));
                }
            },
            None => {},
        }
        i += 1;
    }
    assert(items@.take(items@.len() as int) =~= items@);
}

/// Collects the dependencies of a decoded `pyproject.toml`.
pub fn read_pyproject(doc: &ManifestValue) -> (deps: Vec<Dependency>)
    ensures
        dependency_views(deps@) == pyproject_dependencies(*doc),
{
    let mut deps: Vec<Dependency> = Vec::new();
    assert(dependency_views(deps@) =~= Seq::empty());
    let poetry = descend(doc.get("tool"), "poetry");
    append_table(
        &mut deps,
        descend(poetry, "dependencies"),
        EcosystemType::Python,
        DependencyType::Direct,
        VersionRule::Detailed,
        Some("python"),
    );
    append_table(
        &mut deps,
        descend(poetry, "dev-dependencies"),
        EcosystemType::Python,
        DependencyType::Dev,
        VersionRule::Plain,
        None,
    );
    append_requirements(&mut deps, descend(doc.get("project"), "dependencies"));
    assert(dependency_views(deps@) =~= pyproject_dependencies(*doc));
    deps
}

/// What a `pyproject.toml` declares, or the failure of its decoding.
pub open spec fn pyproject_outcome(file: ManifestFile) -> Result<Seq<DependencyView>, ErrorView> {
    match toml_document(file.content@) {
        Ok(doc) => Ok(pyproject_dependencies(doc)),
        Err(reason) => Err(ErrorView::ParseError { file: file.path@, reason: reason@ }),
    }
}

impl PythonParser {
    /// Reads a requirement list.
    pub fn parse_requirements_txt(&self, file: &ManifestFile) -> (r: Result<
        Vec<Dependency>,
        DependencyBlameError,
    >)
        ensures
            parse_view(r) == Ok::<Seq<DependencyView>, ErrorView>(
                requirements_dependencies(file.content@),
            ),
    {
        Ok(read_requirements(file.content.as_str()))
    }

    /// Reads a structured manifest.
    pub fn parse_pyproject_toml(&self, file: &ManifestFile) -> (r: Result<
        Vec<Dependency>,
        DependencyBlameError,
    >)
        ensures
            parse_view(r) == pyproject_outcome(*file),
    {
        match parse_toml(file.content.as_str()) {
            Ok(doc) => Ok(read_pyproject(&doc)),
            Err(reason) => Err(
                DependencyBlameError::ParseError { file: file.path.clone(), reason },
            ),
        }
    }
}

impl DependencyParser for PythonParser {
    open spec fn ecosystem(&self) -> EcosystemType {
        EcosystemType::Python
    }

    open spec fn supported(&self) -> Seq<Seq<char>> {
        seq!["requirements.txt"@, "pyproject.toml"@]
    }

    /// A file named `requirements.txt` is a requirement list, one named
    /// `pyproject.toml` a structured manifest; no other file is read.
    open spec fn declared(&self, file: ManifestFile) -> Result<Seq<DependencyView>, ErrorView> {
        if file.file_name@ == "requirements.txt"@ {
            Ok(requirements_dependencies(file.content@))
        } else if file.file_name@ == "pyproject.toml"@ {
            pyproject_outcome(file)
        } else {
            Err(ErrorView::ParseError { file: file.path@, reason: "Unsupported file type"@ })
        }
    }

    fn ecosystem_type(&self) -> (e: EcosystemType)
        ensures
            e == EcosystemType::Python,
    {
        EcosystemType::Python
    }

    fn supported_files(&self) -> (names: Vec<&'static str>)
        ensures
            str_views(names@) == seq!["requirements.txt"@, "pyproject.toml"@],
    {
        let names = vec!["requirements.txt", "pyproject.toml"];
        assert(str_views(names@) =~= seq!["requirements.txt"@, "pyproject.toml"@]);
        names
    }

    fn parse_dependencies(&self, file: &ManifestFile) -> (r: Result<
        Vec<Dependency>,
        DependencyBlameError,
    >)
        ensures
            file.file_name@ == "requirements.txt"@ ==> parse_view(r) == Ok::<
                Seq<DependencyView>,
                ErrorView,
            >(requirements_dependencies(file.content@)),
            file.file_name@ != "requirements.txt"@ && file.file_name@ == "pyproject.toml"@
                ==> parse_view(r) == pyproject_outcome(*file),
            file.file_name@ != "requirements.txt"@ && file.file_name@ != "pyproject.toml"@
                ==> parse_view(r) == Err::<Seq<DependencyView>, ErrorView>(
                ErrorView::ParseError { file: file.path@, reason: "Unsupported file type"@ },
            ),
    {
        if str_is(file.file_name.as_str(), &to_chars("requirements.txt")) {
            self.parse_requirements_txt(file)
        } else if str_is(file.file_name.as_str(), &to_chars("pyproject.toml")) {
            self.parse_pyproject_toml(file)
        } else {
            Err(
                DependencyBlameError::ParseError {
                    file: file.path.clone(),
                    reason: String::from_str("Unsupported file type"),
                },
            )
        }
    }
}

} // verus!
