//! What an ecosystem supplies: a parser for its manifests and a scanner for
//! the imports in its source files.

use crate::dependency::{Dependency, DependencyView, EcosystemType, dependency_views};
use crate::error::{DependencyBlameError, ErrorView};
use crate::pattern::captures_view;
use crate::text::{
    contains, contains_text, occurs_at, path_file_name, str_is, str_views, string_views, to_chars,
};
use vstd::prelude::*;
use vstd::string::StringExecFns;

verus! {

/// A manifest as read from disk. `file_name` is the last component of
/// `path`.
#[derive(Debug, Clone)]
pub struct ManifestFile {
    pub path: String,
    pub file_name: String,
    pub content: String,
}

impl ManifestFile {
    /// The manifest at a path with the given text. Its file name is the
    /// path's file name, or empty where the path has none. What the file
    /// name of a path is depends on the platform; on every platform it is a
    /// part of the path.
    pub fn from_path(path: &str, content: &str) -> (file: ManifestFile)
        ensures
            file.path@ == path@,
            file.content@ == content@,
            contains_text(path@, file.file_name@),
    {
        let file_name = match path_file_name(path) {
            Some(name) => name,
            None => {
                proof {
                    reveal_strlit("");
                    assert(path@.subrange(0, 0) =~= ""@);
                    assert(occurs_at(path@, ""@, 0));
                }
                String::from_str("")
            },
        };
        ManifestFile { path: String::from_str(path), file_name, content: String::from_str(content) }
    }
}

/// The outcome of parsing, over views.
pub open spec fn parse_view(r: Result<Vec<Dependency>, DependencyBlameError>) -> Result<
    Seq<DependencyView>,
    ErrorView,
> {
    match r {
        Ok(deps) => Ok(dependency_views(deps@)),
        Err(e) => Err(e@),
    }
}

/// The first dependency with the given name, if one is declared.
pub open spec fn first_named(deps: Seq<DependencyView>, name: Seq<char>) -> Option<
    DependencyView,
>
    decreases deps.len(),
{
    if deps.len() == 0 {
        None
    } else if deps[0].name == name {
        Some(deps[0])
    } else {
        first_named(deps.drop_first(), name)
    }
}

/// Skipping dependencies with other names does not change the first with
/// the given name.
pub proof fn lemma_first_named_skip(deps: Seq<DependencyView>, name: Seq<char>, n: int)
    requires
        0 <= n <= deps.len(),
        forall|k: int| 0 <= k < n ==> deps[k].name != name,
    ensures
        first_named(deps, name) == first_named(deps.subrange(n, deps.len() as int), name),
    decreases n,
{
    if n == 0 {
        assert(deps.subrange(0, deps.len() as int) =~= deps);
    } else {
        lemma_first_named_skip(deps.drop_first(), name, n - 1);
        assert(deps.drop_first().subrange(n - 1, deps.drop_first().len() as int)
            =~= deps.subrange(n, deps.len() as int));
    }
}

/// The outcome of looking one dependency up, over views.
pub open spec fn find_view(r: Result<Option<Dependency>, DependencyBlameError>) -> Result<
    Option<DependencyView>,
    ErrorView,
> {
    match r {
        Ok(Some(dep)) => Ok(Some(dep@)),
        Ok(None) => Ok(None),
        Err(e) => Err(e@),
    }
}

/// Reads the dependencies that a manifest declares.
pub trait DependencyParser {
    /// The ecosystem this parser belongs to.
    spec fn ecosystem(&self) -> EcosystemType;

    /// The file names of the manifests this parser reads.
    spec fn supported(&self) -> Seq<Seq<char>>;

    /// What the manifest declares, in the order of the manifest's sections,
    /// or why it cannot be read.
    spec fn declared(&self, file: ManifestFile) -> Result<Seq<DependencyView>, ErrorView>;

    fn ecosystem_type(&self) -> (e: EcosystemType)
        ensures
            e == self.ecosystem(),
    ;

    fn supported_files(&self) -> (names: Vec<&'static str>)
        ensures
            str_views(names@) == self.supported(),
    ;

    /// Parses a manifest.
    fn parse_dependencies(&self, file: &ManifestFile) -> (r: Result<
        Vec<Dependency>,
        DependencyBlameError,
    >)
        ensures
            parse_view(r) == self.declared(*file),
    ;

    /// Whether this parser reads the file at the given path: the path's
    /// file name is one that the parser reads. A path without a file name
    /// counts as the empty name. What the file name of a path is depends on
    /// the platform; on every platform it is a part of the path.
    fn can_parse(&self, file_path: &str) -> (r: bool)
        ensures
            r ==> exists|k: int|
                0 <= k < self.supported().len() && contains_text(
                    file_path@,
                    #[trigger] self.supported()[k],
                ),
    {
        let r = match path_file_name(file_path) {
            Some(name) => {
                let r = self.can_parse_file_name(name.as_str());
                proof {
                    if r {
                        let k = choose|k: int|
                            0 <= k < self.supported().len() && self.supported()[k] == name@;
                        assert(contains_text(file_path@, self.supported()[k]));
                    }
                }
                r
            },
            None => {
                let r = self.can_parse_file_name("");
                proof {
                    reveal_strlit("");
                    if r {
                        let k = choose|k: int|
                            0 <= k < self.supported().len() && self.supported()[k] == ""@;
                        assert(file_path@.subrange(0, 0) =~= ""@);
                        assert(occurs_at(file_path@, ""@, 0));
                        assert(contains_text(file_path@, self.supported()[k]));
                    }
                }
                r
            },
        };
        r
    }

    /// Whether this parser reads manifests with the given file name.
    fn can_parse_file_name(&self, file_name: &str) -> (r: bool)
        ensures
            r == self.supported().contains(file_name@),
    {
        let names = self.supported_files();
        let wanted = to_chars(file_name);
        let mut i: usize = 0;
        while i < names.len()
            invariant
                i <= names.len(),
                wanted@ == file_name@,
                str_views(names@) == self.supported(),
                forall|k: int| 0 <= k < i ==> names@[k]@ != file_name@,
            decreases names.len() - i,
        {
            if str_is(names[i], &wanted) {
                assert(str_views(names@)[i as int] == file_name@);
                return true;
            }
            i += 1;
        }
        assert forall|k: int| 0 <= k < self.supported().len() implies self.supported()[k]
            != file_name@ by {
            assert(str_views(names@)[k] == names@[k]@);
        }
        false
    }

    /// The first dependency of the manifest with exactly the given name.
    fn find_dependency(&self, file: &ManifestFile, dep_name: &str) -> (r: Result<
        Option<Dependency>,
        DependencyBlameError,
    >)
        ensures
            find_view(r) == match self.declared(*file) {
                Ok(deps) => Ok(first_named(deps, dep_name@)),
                Err(e) => Err(e),
            },
    {
        let deps = match self.parse_dependencies(file) {
            Ok(deps) => deps,
            Err(e) => {
                return Err(e);
            },
        };
        let wanted = to_chars(dep_name);
        let mut i: usize = 0;
        while i < deps.len()
            invariant
                i <= deps.len(),
                wanted@ == dep_name@,
                self.declared(*file) == Ok::<Seq<DependencyView>, ErrorView>(
                    dependency_views(deps@),
                ),
                forall|k: int| 0 <= k < i ==> dependency_views(deps@)[k].name != dep_name@,
            decreases deps.len() - i,
        {
            if str_is(deps[i].name.as_str(), &wanted) {
                proof {
                    let views = dependency_views(deps@);
                    lemma_first_named_skip(views, dep_name@, i as int);
                    assert(views.subrange(i as int, views.len() as int)[0] == views[i as int]);
                }
                return Ok(Some(deps[i].duplicate()));
            }
            i += 1;
        }
        proof {
            let views = dependency_views(deps@);
            lemma_first_named_skip(views, dep_name@, views.len() as int);
        }
        Ok(None)
    }
}

/// Two normalized names match when either is a part of the other.
pub open spec fn names_match(a: Seq<char>, b: Seq<char>) -> bool {
    contains_text(a, b) || contains_text(b, a)
}

/// Some name of the sequence matches `name`.
pub open spec fn some_name_matches(names: Seq<Seq<char>>, name: Seq<char>) -> bool {
    exists|k: int| 0 <= k < names.len() && names_match(#[trigger] names[k], name)
}

/// Finds the imports in source text and matches them against dependency
/// names.
pub trait ImportScanner {
    /// The ecosystem this scanner belongs to.
    spec fn ecosystem(&self) -> EcosystemType;

    /// The extensions of the source files this scanner reads.
    spec fn extensions(&self) -> Seq<Seq<char>>;

    /// The import targets in a source text, in order of occurrence, or the
    /// failure of a search pattern.
    spec fn imports(&self, content: Seq<char>) -> Result<Seq<Seq<char>>, ErrorView>;

    /// The canonical form of a package name.
    spec fn normalized(&self, name: Seq<char>) -> Seq<char>;

    /// The package that an import target belongs to.
    spec fn package_name(&self, import: Seq<char>) -> Seq<char>;

    fn ecosystem_type(&self) -> (e: EcosystemType)
        ensures
            e == self.ecosystem(),
    ;

    fn file_extensions(&self) -> (extensions: Vec<&'static str>)
        ensures
            str_views(extensions@) == self.extensions(),
    ;

    /// Extracts the import targets of a source text.
    fn extract_imports(&self, content: &str) -> (r: Result<Vec<String>, DependencyBlameError>)
        ensures
            captures_view(r) == self.imports(content@),
    ;

    /// Normalizes a package name for matching.
    fn normalize_package_name(&self, name: &str) -> (r: String)
        ensures
            r@ == self.normalized(name@),
    ;

    /// Reduces an import target to its package.
    fn extract_package_name(&self, import: &str) -> (r: String)
        ensures
            r@ == self.package_name(import@),
    ;

    /// Whether the content imports the dependency: some import of the
    /// content and the dependency name match once both are normalized. A
    /// content whose imports cannot be extracted imports nothing.
    fn is_dependency_imported(&self, content: &str, dependency_name: &str) -> (r: bool)
        ensures
            r == match self.imports(content@) {
                Ok(imports) => some_name_matches(
                    Seq::new(imports.len(), |k: int| self.normalized(imports[k])),
                    self.normalized(dependency_name@),
                ),
                Err(_) => false,
            },
    {
        match self.extract_imports(content) {
            Ok(imports) => {
                let dep = to_chars(self.normalize_package_name(dependency_name).as_str());
                let ghost names = Seq::new(
                    imports@.len(),
                    |k: int| self.normalized(string_views(imports@)[k]),
                );
                let mut i: usize = 0;
                while i < imports.len()
                    invariant
                        i <= imports.len(),
                        dep@ == self.normalized(dependency_name@),
                        self.imports(content@) == Ok::<Seq<Seq<char>>, ErrorView>(
                            string_views(imports@),
                        ),
                        names == Seq::new(
                            imports@.len(),
                            |k: int| self.normalized(string_views(imports@)[k]),
                        ),
                        forall|k: int| 0 <= k < i ==> !names_match(#[trigger] names[k], dep@),
                    decreases imports.len() - i,
                {
                    let imp = to_chars(self.normalize_package_name(imports[i].as_str()).as_str());
                    assert(imp@ == names[i as int]);
                    if contains(&imp, &dep) || contains(&dep, &imp) {
                        return true;
                    }
                    i += 1;
                }
                false
            },
            Err(_) => false,
        }
    }
}

/// Whether a content imports a dependency, as a scanner judges it: some
/// import of the content and the dependency name match once both are
/// normalized. This is what `ImportScanner::is_dependency_imported`
/// computes.
pub open spec fn is_imported<S: ImportScanner + ?Sized>(
    scanner: &S,
    content: Seq<char>,
    dependency_name: Seq<char>,
) -> bool {
    match scanner.imports(content) {
        Ok(imports) => some_name_matches(
            Seq::new(imports.len(), |k: int| scanner.normalized(imports[k])),
            scanner.normalized(dependency_name),
        ),
        Err(_) => false,
    }
}

/// Matching is symmetric: where one name matches another, the other
/// matches the one.
pub proof fn lemma_names_match_symmetric(a: Seq<char>, b: Seq<char>)
    ensures
        names_match(a, b) == names_match(b, a),
{
}

/// Through a scanner, matching is symmetric: of two contents of which the
/// one imports `first` and nothing else and the other imports `second` and
/// nothing else, the one imports the dependency `second` exactly when the
/// other imports the dependency `first`.
pub proof fn lemma_import_matching_is_symmetric<S: ImportScanner + ?Sized>(
    scanner: &S,
    first_content: Seq<char>,
    first: Seq<char>,
    second_content: Seq<char>,
    second: Seq<char>,
)
    requires
        scanner.imports(first_content) == Ok::<Seq<Seq<char>>, ErrorView>(seq![first]),
        scanner.imports(second_content) == Ok::<Seq<Seq<char>>, ErrorView>(seq![second]),
    ensures
        is_imported(scanner, first_content, second) == is_imported(scanner, second_content, first),
{
    let first_names = Seq::new(1, |k: int| scanner.normalized(seq![first][k]));
    let second_names = Seq::new(1, |k: int| scanner.normalized(seq![second][k]));
    assert(seq![first].len() == 1 && seq![second].len() == 1);
    assert(first_names[0] == scanner.normalized(first));
    assert(second_names[0] == scanner.normalized(second));
    assert(some_name_matches(first_names, scanner.normalized(second)) == names_match(
        scanner.normalized(first),
        scanner.normalized(second),
    ));
    assert(some_name_matches(second_names, scanner.normalized(first)) == names_match(
        scanner.normalized(second),
        scanner.normalized(first),
    ));
}

/// One ecosystem: its parser and its scanner.
pub trait EcosystemAdapter {
    type Parser: DependencyParser;

    type Scanner: ImportScanner;

    /// The ecosystem this adapter stands for.
    spec fn ecosystem(&self) -> EcosystemType;

    fn parser(&self) -> (parser: &Self::Parser)
        ensures
            parser.ecosystem() == self.ecosystem(),
    ;

    fn scanner(&self) -> (scanner: &Self::Scanner)
        ensures
            scanner.ecosystem() == self.ecosystem(),
    ;

    fn ecosystem_type(&self) -> (e: EcosystemType)
        ensures
            e == self.ecosystem(),
    ;
}

} // verus!
