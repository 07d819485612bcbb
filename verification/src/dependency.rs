//! The records of an analysis: dependencies, where they came from and where
//! they are used.

use vstd::prelude::*;

verus! {

/// A package ecosystem: one package-manager convention with its own
/// manifest format and import syntax.
#[derive(Debug, Clone, Copy, PartialEq, Eq, Hash, Structural)]
pub enum EcosystemType {
    Rust,
    Node,
    Python,
    Go,
}

impl EcosystemType {
    /// The display name of the ecosystem, as a text.
    pub open spec fn name(self) -> Seq<char> {
        match self {
            EcosystemType::Rust => "Rust"@,
            EcosystemType::Node => "Node.js"@,
            EcosystemType::Python => "Python"@,
            EcosystemType::Go => "Go"@,
        }
    }

    /// The display name of the ecosystem.
    pub fn as_str(&self) -> (name: &'static str)
        ensures
            name@ == self.name(),
    {
        match self {
            EcosystemType::Rust => "Rust",
            EcosystemType::Node => "Node.js",
            EcosystemType::Python => "Python",
            EcosystemType::Go => "Go",
        }
    }
}

/// The role a dependency plays in the project that declares it.
#[derive(Debug, Clone, Copy, PartialEq, Eq, Structural)]
pub enum DependencyType {
    Direct,
    Dev,
    Optional,
    Peer,
    Build,
}

impl DependencyType {
    /// The display name of the kind, as a text.
    pub open spec fn name(self) -> Seq<char> {
        match self {
            DependencyType::Direct => "Direct"@,
            DependencyType::Dev => "Development"@,
            DependencyType::Optional => "Optional"@,
            DependencyType::Peer => "Peer"@,
            DependencyType::Build => "Build"@,
        }
    }

    /// The display name of the kind.
    pub fn as_str(&self) -> (name: &'static str)
        ensures
            name@ == self.name(),
    {
        match self {
            DependencyType::Direct => "Direct",
            DependencyType::Dev => "Development",
            DependencyType::Optional => "Optional",
            DependencyType::Peer => "Peer",
            DependencyType::Build => "Build",
        }
    }
}

/// One declared dependency. Name and ecosystem identify it; version and
/// kind are attributes. The version is the ecosystem's own text and is not
/// interpreted.
#[derive(Debug, Clone)]
pub struct Dependency {
    pub name: String,
    pub version: String,
    pub ecosystem: EcosystemType,
    pub dependency_type: DependencyType,
}

/// What a `Dependency` says, with its texts as sequences of characters.
pub struct DependencyView {
    pub name: Seq<char>,
    pub version: Seq<char>,
    pub ecosystem: EcosystemType,
    pub dependency_type: DependencyType,
}

impl View for Dependency {
    type V = DependencyView;

    open spec fn view(&self) -> DependencyView {
        DependencyView {
            name: self.name@,
            version: self.version@,
            ecosystem: self.ecosystem,
            dependency_type: self.dependency_type,
        }
    }
}

/// The views of a sequence of dependencies, in order.
pub open spec fn dependency_views(deps: Seq<Dependency>) -> Seq<DependencyView> {
    Seq::new(deps.len(), |i: int| deps[i]@)
}

impl Dependency {
    /// A copy of the record.
    pub fn duplicate(&self) -> (copy: Dependency)
        ensures
            copy == *self,
    {
        Dependency {
            name: self.name.clone(),
            version: self.version.clone(),
            ecosystem: self.ecosystem,
            dependency_type: self.dependency_type,
        }
    }
}

/// The commit that introduced a dependency.
#[derive(Debug, Clone)]
pub struct GitInfo {
    pub commit_hash: String,
    /// The author as `name <email>`.
    pub author: String,
    /// The commit time in seconds since the Unix epoch, UTC.
    pub date: i64,
    pub message: String,
    pub file_path: String,
    pub line_number: Option<usize>,
}

/// One line of source code on which an import of a dependency was found.
#[derive(Debug, Clone)]
pub struct ImportLocation {
    pub file_path: String,
    /// The line's number in its file; the first line is line 1.
    pub line_number: usize,
    /// The line without leading and trailing white space.
    pub line_content: String,
}

/// What an `ImportLocation` says, with its texts as sequences of characters.
pub struct ImportLocationView {
    pub file_path: Seq<char>,
    pub line_number: nat,
    pub line_content: Seq<char>,
}

impl View for ImportLocation {
    type V = ImportLocationView;

    open spec fn view(&self) -> ImportLocationView {
        ImportLocationView {
            file_path: self.file_path@,
            line_number: self.line_number as nat,
            line_content: self.line_content@,
        }
    }
}

/// The views of a sequence of locations, in order.
pub open spec fn location_views(locations: Seq<ImportLocation>) -> Seq<ImportLocationView> {
    Seq::new(locations.len(), |i: int| locations[i]@)
}

impl ImportLocation {
    /// A copy of the record.
    pub fn duplicate(&self) -> (copy: ImportLocation)
        ensures
            copy == *self,
    {
        ImportLocation {
            file_path: self.file_path.clone(),
            line_number: self.line_number,
            line_content: self.line_content.clone(),
        }
    }
}

/// Where a dependency is imported. The record is used exactly when it has
/// at least one location, and its count is the number of its locations.
#[derive(Debug)]
pub struct UsageInfo {
    is_used: bool,
    import_locations: Vec<ImportLocation>,
    usage_count: usize,
}

impl UsageInfo {
    #[verifier::type_invariant]
    spec fn consistent(self) -> bool {
        &&& self.usage_count == self.import_locations@.len()
        &&& self.is_used == (self.import_locations@.len() > 0)
    }

    /// The locations of the record.
    pub closed spec fn locations(self) -> Seq<ImportLocation> {
        self.import_locations@
    }

    /// The count the record reports.
    pub closed spec fn count(self) -> nat {
        self.usage_count as nat
    }

    /// Whether the record reports the dependency as used.
    pub closed spec fn used(self) -> bool {
        self.is_used
    }

    /// The record of a dependency that is imported nowhere.
    pub fn new() -> (info: UsageInfo)
        ensures
            info.locations() == Seq::<ImportLocation>::empty(),
            info.count() == 0,
            !info.used(),
    {
        UsageInfo { is_used: false, import_locations: Vec::new(), usage_count: 0 }
    }

    /// The record of a dependency imported at the given locations.
    pub fn with_locations(locations: Vec<ImportLocation>) -> (info: UsageInfo)
        ensures
            info.locations() == locations@,
            info.count() == locations@.len(),
            info.used() == (locations@.len() > 0),
    {
        let usage_count = locations.len();
        let is_used = usage_count > 0;
        UsageInfo { is_used, import_locations: locations, usage_count }
    }

    /// Whether the dependency is imported anywhere. This holds exactly when
    /// the count is positive, and exactly when there is a location.
    pub fn is_used(&self) -> (used: bool)
        ensures
            used == self.used(),
            used == (self.count() > 0),
            used == (self.locations().len() > 0),
    {
        proof {
            use_type_invariant(self);
        }
        self.is_used
    }

    /// The number of locations.
    pub fn usage_count(&self) -> (count: usize)
        ensures
            count == self.count(),
            count == self.locations().len(),
    {
        proof {
            use_type_invariant(self);
        }
        self.usage_count
    }

    /// The locations, in the order in which they were given.
    pub fn import_locations(&self) -> (locations: &Vec<ImportLocation>)
        ensures
            locations@ == self.locations(),
    {
        &self.import_locations
    }
}

impl Clone for UsageInfo {
    fn clone(&self) -> (copy: UsageInfo)
        ensures
            copy.locations() == self.locations(),
            copy.count() == self.count(),
            copy.used() == self.used(),
    {
        proof {
            use_type_invariant(self);
        }
        let mut locations: Vec<ImportLocation> = Vec::new();
        let mut i: usize = 0;
        while i < self.import_locations.len()
            invariant
                i <= self.import_locations.len(),
                locations@ == self.import_locations@.take(i as int),
            decreases self.import_locations.len() - i,
        {
            locations.push(self.import_locations[i].duplicate());
            assert(self.import_locations@.take(i + 1) =~= self.import_locations@.take(
                i as int,
            ).push(self.import_locations@[i as int]));
            i += 1;
        }
        assert(self.import_locations@.take(self.import_locations@.len() as int)
            =~= self.import_locations@);
        UsageInfo::with_locations(locations)
    }
}

impl Default for UsageInfo {
    fn default() -> (info: UsageInfo)
        ensures
            info.locations() == Seq::<ImportLocation>::empty(),
            info.count() == 0,
            !info.used(),
    {
        UsageInfo::new()
    }
}

/// The result of one analysis.
#[derive(Debug, Clone)]
pub struct DependencyAnalysis {
    pub dependency: Dependency,
    pub git_info: Option<GitInfo>,
    pub usage_info: UsageInfo,
}

/// One analysis request.
#[derive(Debug, Clone)]
pub struct DependencyQuery {
    pub dependency_name: String,
    pub repo_path: String,
    pub include_git_history: bool,
    pub scan_usage: bool,
}

impl DependencyQuery {
    /// A request that asks for both the history and the usage scan.
    pub fn new(dependency_name: String, repo_path: String) -> (query: DependencyQuery)
        ensures
            query.dependency_name == dependency_name,
            query.repo_path == repo_path,
            query.include_git_history,
            query.scan_usage,
    {
        DependencyQuery { dependency_name, repo_path, include_git_history: true, scan_usage: true }
    }

    /// A request with both options chosen by the caller.
    pub fn with_options(
        dependency_name: String,
        repo_path: String,
        include_git_history: bool,
        scan_usage: bool,
    ) -> (query: DependencyQuery)
        ensures
            query.dependency_name == dependency_name,
            query.repo_path == repo_path,
            query.include_git_history == include_git_history,
            query.scan_usage == scan_usage,
    {
        DependencyQuery { dependency_name, repo_path, include_git_history, scan_usage }
    }
}

} // verus!
