//! The registry of ecosystems: which adapters are at hand, which ecosystem
//! a project directory belongs to, and which manifest is read for it.

use crate::dependency::{Dependency, DependencyView, EcosystemType};
use crate::ecosystems::go::GoAdapter;
use crate::ecosystems::go::parser::GoParser;
use crate::ecosystems::go::scanner::GoScanner;
use crate::ecosystems::node::NodeAdapter;
use crate::ecosystems::node::parser::NodeParser;
use crate::ecosystems::node::scanner::NodeScanner;
use crate::ecosystems::python::PythonAdapter;
use crate::ecosystems::python::parser::PythonParser;
use crate::ecosystems::python::scanner::PythonScanner;
use crate::ecosystems::rust::RustAdapter;
use crate::ecosystems::rust::parser::RustParser;
use crate::ecosystems::rust::scanner::RustScanner;
use crate::ecosystems::traits::{DependencyParser, EcosystemAdapter, ImportScanner, ManifestFile};
use crate::error::{DependencyBlameError, ErrorView};
use crate::text::{contains_text, occurs_at, path_file_name, str_is, to_chars};
use vstd::prelude::*;
use vstd::string::StringExecFns;

verus! {

/// The adapter of one of the built-in ecosystems. It is the parser and the
/// scanner of its ecosystem at once.
#[derive(Debug, Clone, Copy)]
pub enum Adapter {
    Rust(RustAdapter),
    Node(NodeAdapter),
    Python(PythonAdapter),
    Go(GoAdapter),
}

impl Adapter {
    /// The ecosystem of the adapter.
    pub open spec fn tag(self) -> EcosystemType {
        match self {
            Adapter::Rust(_) => EcosystemType::Rust,
            Adapter::Node(_) => EcosystemType::Node,
            Adapter::Python(_) => EcosystemType::Python,
            Adapter::Go(_) => EcosystemType::Go,
        }
    }

    /// The adapter of an ecosystem.
    pub closed spec fn of_tag(ecosystem: EcosystemType) -> Adapter {
        match ecosystem {
            EcosystemType::Rust => Adapter::Rust(RustAdapter::unit()),
            EcosystemType::Node => Adapter::Node(NodeAdapter::unit()),
            EcosystemType::Python => Adapter::Python(PythonAdapter::unit()),
            EcosystemType::Go => Adapter::Go(GoAdapter::unit()),
        }
    }

    /// The adapter of an ecosystem belongs to that ecosystem.
    pub proof fn lemma_tag_of(ecosystem: EcosystemType)
        ensures
            Adapter::of_tag(ecosystem).tag() == ecosystem,
    {
    }

    /// An ecosystem has one adapter only.
    pub proof fn lemma_of_tag(adapter: Adapter)
        ensures
            adapter == Adapter::of_tag(adapter.tag()),
    {
        match adapter {
            Adapter::Rust(a) => RustAdapter::lemma_unit(a),
            Adapter::Node(a) => NodeAdapter::lemma_unit(a),
            Adapter::Python(a) => PythonAdapter::lemma_unit(a),
            Adapter::Go(a) => GoAdapter::lemma_unit(a),
        }
    }

    /// The adapter of an ecosystem.
    pub fn of(ecosystem: EcosystemType) -> (adapter: Adapter)
        ensures
            adapter == Adapter::of_tag(ecosystem),
            adapter.tag() == ecosystem,
    {
        match ecosystem {
            EcosystemType::Rust => Adapter::Rust(RustAdapter::new()),
            EcosystemType::Node => Adapter::Node(NodeAdapter::new()),
            EcosystemType::Python => Adapter::Python(PythonAdapter::new()),
            EcosystemType::Go => Adapter::Go(GoAdapter::new()),
        }
    }
}

/// The file names of the manifests of an ecosystem.
pub open spec fn manifest_names(ecosystem: EcosystemType) -> Seq<Seq<char>> {
    match ecosystem {
        EcosystemType::Rust => RustParser.supported(),
        EcosystemType::Node => NodeParser.supported(),
        EcosystemType::Python => PythonParser.supported(),
        EcosystemType::Go => GoParser.supported(),
    }
}

impl DependencyParser for Adapter {
    open spec fn ecosystem(&self) -> EcosystemType {
        self.tag()
    }

    open spec fn supported(&self) -> Seq<Seq<char>> {
        manifest_names(self.tag())
    }

    open spec fn declared(&self, file: ManifestFile) -> Result<Seq<DependencyView>, ErrorView> {
        match self.tag() {
            EcosystemType::Rust => RustParser.declared(file),
            EcosystemType::Node => NodeParser.declared(file),
            EcosystemType::Python => PythonParser.declared(file),
            EcosystemType::Go => GoParser.declared(file),
        }
    }

    fn ecosystem_type(&self) -> (e: EcosystemType) {
        match self {
            Adapter::Rust(_) => EcosystemType::Rust,
            Adapter::Node(_) => EcosystemType::Node,
            Adapter::Python(_) => EcosystemType::Python,
            Adapter::Go(_) => EcosystemType::Go,
        }
    }

    fn supported_files(&self) -> (names: Vec<&'static str>) {
        match self {
            Adapter::Rust(_) => RustParser.supported_files(),
            Adapter::Node(_) => NodeParser.supported_files(),
            Adapter::Python(_) => PythonParser.supported_files(),
            Adapter::Go(_) => GoParser.supported_files(),
        }
    }

    fn parse_dependencies(&self, file: &ManifestFile) -> (r: Result<
        Vec<Dependency>,
        DependencyBlameError,
    >) {
        match self {
            Adapter::Rust(_) => RustParser.parse_dependencies(file),
            Adapter::Node(_) => NodeParser.parse_dependencies(file),
            Adapter::Python(_) => PythonParser.parse_dependencies(file),
            Adapter::Go(_) => GoParser.parse_dependencies(file),
        }
    }
}

impl ImportScanner for Adapter {
    open spec fn ecosystem(&self) -> EcosystemType {
        self.tag()
    }

    open spec fn extensions(&self) -> Seq<Seq<char>> {
        match self.tag() {
            EcosystemType::Rust => RustScanner.extensions(),
            EcosystemType::Node => NodeScanner.extensions(),
            EcosystemType::Python => PythonScanner.extensions(),
            EcosystemType::Go => GoScanner.extensions(),
        }
    }

    open spec fn imports(&self, content: Seq<char>) -> Result<Seq<Seq<char>>, ErrorView> {
        match self.tag() {
            EcosystemType::Rust => RustScanner.imports(content),
            EcosystemType::Node => NodeScanner.imports(content),
            EcosystemType::Python => PythonScanner.imports(content),
            EcosystemType::Go => GoScanner.imports(content),
        }
    }

    open spec fn normalized(&self, name: Seq<char>) -> Seq<char> {
        match self.tag() {
            EcosystemType::Rust => RustScanner.normalized(name),
            EcosystemType::Node => NodeScanner.normalized(name),
            EcosystemType::Python => PythonScanner.normalized(name),
            EcosystemType::Go => GoScanner.normalized(name),
        }
    }

    open spec fn package_name(&self, import: Seq<char>) -> Seq<char> {
        match self.tag() {
            EcosystemType::Rust => RustScanner.package_name(import),
            EcosystemType::Node => NodeScanner.package_name(import),
            EcosystemType::Python => PythonScanner.package_name(import),
            EcosystemType::Go => GoScanner.package_name(import),
        }
    }

    fn ecosystem_type(&self) -> (e: EcosystemType) {
        match self {
            Adapter::Rust(_) => EcosystemType::Rust,
            Adapter::Node(_) => EcosystemType::Node,
            Adapter::Python(_) => EcosystemType::Python,
            Adapter::Go(_) => EcosystemType::Go,
        }
    }

    fn file_extensions(&self) -> (extensions: Vec<&'static str>) {
        match self {
            Adapter::Rust(_) => RustScanner.file_extensions(),
            Adapter::Node(_) => NodeScanner.file_extensions(),
            Adapter::Python(_) => PythonScanner.file_extensions(),
            Adapter::Go(_) => GoScanner.file_extensions(),
        }
    }

    fn extract_imports(&self, content: &str) -> (r: Result<Vec<String>, DependencyBlameError>) {
        match self {
            Adapter::Rust(_) => RustScanner.extract_imports(content),
            Adapter::Node(_) => NodeScanner.extract_imports(content),
            Adapter::Python(_) => PythonScanner.extract_imports(content),
            Adapter::Go(_) => GoScanner.extract_imports(content),
        }
    }

    fn normalize_package_name(&self, name: &str) -> (r: String) {
        match self {
            Adapter::Rust(_) => RustScanner.normalize_package_name(name),
            Adapter::Node(_) => NodeScanner.normalize_package_name(name),
            Adapter::Python(_) => PythonScanner.normalize_package_name(name),
            Adapter::Go(_) => GoScanner.normalize_package_name(name),
        }
    }

    fn extract_package_name(&self, import: &str) -> (r: String) {
        match self {
            Adapter::Rust(_) => RustScanner.extract_package_name(import),
            Adapter::Node(_) => NodeScanner.extract_package_name(import),
            Adapter::Python(_) => PythonScanner.extract_package_name(import),
            Adapter::Go(_) => GoScanner.extract_package_name(import),
        }
    }
}

impl EcosystemAdapter for Adapter {
    type Parser = Adapter;

    type Scanner = Adapter;

    open spec fn ecosystem(&self) -> EcosystemType {
        self.tag()
    }

    fn parser(&self) -> (parser: &Adapter) {
        self
    }

    fn scanner(&self) -> (scanner: &Adapter) {
        self
    }

    fn ecosystem_type(&self) -> (e: EcosystemType) {
        DependencyParser::ecosystem_type(self)
    }
}

/// No two ecosystems have a manifest of the same name, so a file name
/// belongs to one ecosystem at most.
pub proof fn lemma_manifest_names_are_distinct(
    first: EcosystemType,
    second: EcosystemType,
    file_name: Seq<char>,
)
    requires
        manifest_names(first).contains(file_name),
        manifest_names(second).contains(file_name),
    ensures
        first == second,
{
    reveal_strlit("Cargo.toml");
    reveal_strlit("package.json");
    reveal_strlit("requirements.txt");
    reveal_strlit("pyproject.toml");
    reveal_strlit("go.mod");
    let cargo = "Cargo.toml"@;
    let package = "package.json"@;
    let requirements = "requirements.txt"@;
    let pyproject = "pyproject.toml"@;
    let go = "go.mod"@;
    assert(cargo[0] == 'C' && package[1] == 'a' && requirements[0] == 'r' && pyproject[1] == 'y'
        && go[0] == 'g' && package[0] == 'p' && pyproject[0] == 'p');
    assert(manifest_names(EcosystemType::Rust) =~= seq![cargo]);
    assert(manifest_names(EcosystemType::Node) =~= seq![package]);
    assert(manifest_names(EcosystemType::Python) =~= seq![requirements, pyproject]);
    assert(manifest_names(EcosystemType::Go) =~= seq![go]);
}

/// Parsing is deterministic: what a manifest declares depends on its path,
/// its file name and its text alone, so that parsing the same text again
/// gives the same dependencies in the same order, or the same failure.
pub proof fn lemma_parsing_is_deterministic(
    adapter: Adapter,
    first: ManifestFile,
    second: ManifestFile,
)
    requires
        first.path@ == second.path@,
        first.file_name@ == second.file_name@,
        first.content@ == second.content@,
    ensures
        DependencyParser::declared(&adapter, first) == DependencyParser::declared(
            &adapter,
            second,
        ),
{
}

/// What a project directory holds: its path and the names of the entries
/// that exist directly in it. Only the names of manifests are asked for, so
/// that a caller may leave all others out.
#[derive(Debug, Clone)]
pub struct ProjectDirectory {
    pub path: String,
    pub entries: Vec<String>,
}

impl ProjectDirectory {
    /// Whether the directory has an entry of the given name.
    pub open spec fn has(self, name: Seq<char>) -> bool {
        exists|i: int| 0 <= i < self.entries@.len() && (#[trigger] self.entries@[i])@ == name
    }

    /// Whether the directory has an entry of the given name.
    pub fn contains(&self, name: &str) -> (r: bool)
        ensures
            r == self.has(name@),
    {
        let wanted = to_chars(name);
        let mut i: usize = 0;
        while i < self.entries.len()
            invariant
                i <= self.entries.len(),
                wanted@ == name@,
                forall|k: int| 0 <= k < i ==> (#[trigger] self.entries@[k])@ != name@,
            decreases self.entries.len() - i,
        {
            if str_is(self.entries[i].as_str(), &wanted) {
                return true;
            }
            i += 1;
        }
        false
    }
}

/// The ecosystem of a directory: the first, in the order Rust, Node,
/// Python, Go, of which the directory holds a manifest.
pub open spec fn detected_ecosystem(dir: ProjectDirectory) -> Option<EcosystemType> {
    if dir.has("Cargo.toml"@) {
        Some(EcosystemType::Rust)
    } else if dir.has("package.json"@) {
        Some(EcosystemType::Node)
    } else if dir.has("requirements.txt"@) || dir.has("pyproject.toml"@) {
        Some(EcosystemType::Python)
    } else if dir.has("go.mod"@) {
        Some(EcosystemType::Go)
    } else {
        None
    }
}

/// The name of the manifest that is read for an ecosystem. For Python it
/// is `pyproject.toml` where the directory has one, else
/// `requirements.txt`.
pub open spec fn manifest_name(dir: ProjectDirectory, ecosystem: EcosystemType) -> Seq<char> {
    match ecosystem {
        EcosystemType::Rust => "Cargo.toml"@,
        EcosystemType::Node => "package.json"@,
        EcosystemType::Python => if dir.has("pyproject.toml"@) {
            "pyproject.toml"@
        } else {
            "requirements.txt"@
        },
        EcosystemType::Go => "go.mod"@,
    }
}

/// The adapters that are at hand, at most one for each ecosystem.
#[derive(Debug)]
pub struct EcosystemRegistry {
    adapters: Vec<Adapter>,
}

impl EcosystemRegistry {
    /// No two adapters belong to the same ecosystem.
    #[verifier::type_invariant]
    spec fn distinct(self) -> bool {
        forall|i: int, j: int|
            0 <= i < j < self.adapters@.len() ==> (#[trigger] self.adapters@[i]).tag() != (
            #[trigger] self.adapters@[j]).tag()
    }

    /// Whether an adapter is registered for the ecosystem.
    pub closed spec fn has(self, ecosystem: EcosystemType) -> bool {
        exists|i: int|
            0 <= i < self.adapters@.len() && (#[trigger] self.adapters@[i]).tag() == ecosystem
    }

    /// A registry without adapters.
    pub fn new() -> (registry: EcosystemRegistry)
        ensures
            forall|e: EcosystemType| !registry.has(e),
    {
        EcosystemRegistry { adapters: Vec::new() }
    }

    /// Registers an adapter. It takes the place of an adapter of the same
    /// ecosystem.
    pub fn register(&mut self, adapter: Adapter)
        ensures
            forall|e: EcosystemType|
                final(self).has(e) == (old(self).has(e) || e == adapter.tag()),
    {
        proof {
            use_type_invariant(&*self);
        }
        let tag = DependencyParser::ecosystem_type(&adapter);
        let ghost before = self.adapters@;
        let mut adapters: Vec<Adapter> = Vec::new();
        let mut replaced = false;
        let mut i: usize = 0;
        while i < self.adapters.len()
            invariant
                i <= self.adapters.len(),
                tag == adapter.tag(),
                before == self.adapters@,
                adapters@.len() == i,
                forall|k: int| 0 <= k < i ==> (#[trigger] adapters@[k]).tag() == before[k].tag(),
                replaced == exists|k: int| 0 <= k < i && (#[trigger] before[k]).tag() == tag,
            decreases self.adapters.len() - i,
        {
            let current = self.adapters[i];
            if DependencyParser::ecosystem_type(&current) == tag {
                adapters.push(adapter);
                replaced = true;
            } else {
                adapters.push(current);
            }
            i += 1;
        }
        if !replaced {
            adapters.push(adapter);
        }
        proof {
            let after = adapters@;
            assert forall|k: int| 0 <= k < before.len() implies (#[trigger] after[k]).tag()
                == before[k].tag() by {}
            assert forall|m: int, n: int| 0 <= m < n < after.len() implies (
            #[trigger] after[m]).tag() != (#[trigger] after[n]).tag() by {
                if n < before.len() {
                    assert(before[m].tag() != before[n].tag());
                } else {
                    assert(before[m].tag() != tag);
                }
            }
        }
        *self = EcosystemRegistry { adapters };
        proof {
            let after = self.adapters@;
            assert forall|e: EcosystemType| self.has(e) == (old(self).has(e) || e
                == adapter.tag()) by {
                if old(self).has(e) {
                    let j = choose|j: int|
                        0 <= j < before.len() && (#[trigger] before[j]).tag() == e;
                    assert(after[j].tag() == e);
                }
                if e == adapter.tag() {
                    if replaced {
                        let j = choose|j: int|
                            0 <= j < before.len() && (#[trigger] before[j]).tag() == tag;
                        assert(after[j].tag() == e);
                    } else {
                        assert(after[before.len() as int].tag() == e);
                    }
                }
                if self.has(e) {
                    let j = choose|j: int| 0 <= j < after.len() && (#[trigger] after[j]).tag() == e;
                    if j < before.len() {
                        assert(before[j].tag() == e);
                    }
                }
            }
        }
    }

    /// The adapter of an ecosystem, if one is registered.
    pub fn get_adapter(&self, ecosystem: EcosystemType) -> (r: Option<&Adapter>)
        ensures
            match r {
                Some(adapter) => self.has(ecosystem) && adapter.tag() == ecosystem,
                None => !self.has(ecosystem),
            },
    {
        let mut i: usize = 0;
        while i < self.adapters.len()
            invariant
                i <= self.adapters.len(),
                forall|k: int| 0 <= k < i ==> (#[trigger] self.adapters@[k]).tag() != ecosystem,
            decreases self.adapters.len() - i,
        {
            if DependencyParser::ecosystem_type(&self.adapters[i]) == ecosystem {
                return Some(&self.adapters[i]);
            }
            i += 1;
        }
        None
    }

    /// The registered ecosystem whose parser reads the file at the given
    /// path, if there is one: the ecosystem of the path's file name. A path
    /// without a file name counts as the empty name. What the file name of
    /// a path is depends on the platform; on every platform it is a part of
    /// the path.
    pub fn detect_ecosystem(&self, file_path: &str) -> (r: Option<EcosystemType>)
        ensures
            match r {
                Some(e) => self.has(e) && exists|k: int|
                    0 <= k < manifest_names(e).len() && contains_text(
                        file_path@,
                        #[trigger] manifest_names(e)[k],
                    ),
                None => true,
            },
    {
        match path_file_name(file_path) {
            Some(name) => {
                let r = self.detect_by_file_name(name.as_str());
                proof {
                    if let Some(e) = r {
                        let k = choose|k: int|
                            0 <= k < manifest_names(e).len() && manifest_names(e)[k] == name@;
                        assert(contains_text(file_path@, manifest_names(e)[k]));
                    }
                }
                r
            },
            None => {
                let r = self.detect_by_file_name("");
                proof {
                    reveal_strlit("");
                    if let Some(e) = r {
                        let k = choose|k: int|
                            0 <= k < manifest_names(e).len() && manifest_names(e)[k] == ""@;
                        assert(file_path@.subrange(0, 0) =~= ""@);
                        assert(occurs_at(file_path@, ""@, 0));
                        assert(contains_text(file_path@, manifest_names(e)[k]));
                    }
                }
                r
            },
        }
    }

    /// The registered ecosystem whose parser reads manifests of the given
    /// file name, if there is one.
    pub fn detect_by_file_name(&self, file_name: &str) -> (r: Option<EcosystemType>)
        ensures
            match r {
                Some(e) => self.has(e) && manifest_names(e).contains(file_name@),
                None => forall|e: EcosystemType|
                    self.has(e) ==> !manifest_names(e).contains(file_name@),
            },
    {
        let mut i: usize = 0;
        while i < self.adapters.len()
            invariant
                i <= self.adapters.len(),
                forall|k: int|
                    0 <= k < i ==> !manifest_names((#[trigger] self.adapters@[k]).tag()).contains(
                        file_name@,
                    ),
            decreases self.adapters.len() - i,
        {
            if self.adapters[i].can_parse_file_name(file_name) {
                return Some(DependencyParser::ecosystem_type(&self.adapters[i]));
            }
            i += 1;
        }
        None
    }

    /// The ecosystem of a project directory. Where two ecosystems have a
    /// manifest in the directory, the order Rust, Node, Python, Go decides.
    pub fn detect_from_directory(&self, dir: &ProjectDirectory) -> (r: Result<
        EcosystemType,
        DependencyBlameError,
    >)
        ensures
            match r {
                Ok(e) => detected_ecosystem(*dir) == Some(e),
                Err(e) => detected_ecosystem(*dir) is None && e@
                    == ErrorView::EcosystemDetectionFailed(dir.path@),
            },
    {
        if dir.contains("Cargo.toml") {
            return Ok(EcosystemType::Rust);
        }
        if dir.contains("package.json") {
            return Ok(EcosystemType::Node);
        }
        if dir.contains("requirements.txt") || dir.contains("pyproject.toml") {
            return Ok(EcosystemType::Python);
        }
        if dir.contains("go.mod") {
            return Ok(EcosystemType::Go);
        }
        Err(DependencyBlameError::EcosystemDetectionFailed(dir.path.clone()))
    }

    /// The name of the manifest of an ecosystem in a project directory, or
    /// the failure that the directory does not hold it.
    pub fn get_dependency_file(&self, dir: &ProjectDirectory, ecosystem: EcosystemType) -> (r:
        Result<String, DependencyBlameError>)
        ensures
            match r {
                Ok(name) => name@ == manifest_name(*dir, ecosystem) && dir.has(name@),
                Err(e) => !dir.has(manifest_name(*dir, ecosystem)) && e@
                    == ErrorView::DependencyFileNotFound(manifest_name(*dir, ecosystem)),
            },
    {
        let file_name = match ecosystem {
            EcosystemType::Rust => "Cargo.toml",
            EcosystemType::Node => "package.json",
            EcosystemType::Python => {
                if dir.contains("pyproject.toml") {
                    return Ok(String::from_str("pyproject.toml"));
                }
                "requirements.txt"
            },
            EcosystemType::Go => "go.mod",
        };
        if dir.contains(file_name) {
            Ok(String::from_str(file_name))
        } else {
            Err(DependencyBlameError::DependencyFileNotFound(String::from_str(file_name)))
        }
    }
}

impl Default for EcosystemRegistry {
    fn default() -> (registry: EcosystemRegistry)
        ensures
            forall|e: EcosystemType| !registry.has(e),
    {
        EcosystemRegistry::new()
    }
}

/// A registry that holds the adapters of all four built-in ecosystems.
pub fn create_default_registry() -> (registry: EcosystemRegistry)
    ensures
        forall|e: EcosystemType| registry.has(e),
{
    let mut registry = EcosystemRegistry::new();
    registry.register(Adapter::Rust(RustAdapter::new()));
    registry.register(Adapter::Node(NodeAdapter::new()));
    registry.register(Adapter::Python(PythonAdapter::new()));
    registry.register(Adapter::Go(GoAdapter::new()));
    assert forall|e: EcosystemType| registry.has(e) by {
        match e {
            EcosystemType::Rust => {},
            EcosystemType::Node => {},
            EcosystemType::Python => {},
            EcosystemType::Go => {},
        }
    }
    registry
}

} // verus!
