//! One analysis from end to end: which ecosystem a project belongs to,
//! which manifest declares the dependency, which commit introduced it and
//! where it is imported.
//!
//! The orchestrator reads nothing itself. A caller hands over what it read:
//! the listing of the project directory, the manifest, the history of the
//! manifest and the source files.

use crate::dependency::{
    Dependency, DependencyAnalysis, DependencyQuery, DependencyView, EcosystemType, GitInfo,
    ImportLocationView, UsageInfo, dependency_views, location_views,
};
use crate::ecosystems::registry::{
    Adapter, EcosystemRegistry, ProjectDirectory, create_default_registry, detected_ecosystem,
    manifest_name,
};
use crate::ecosystems::traits::{DependencyParser, ManifestFile, first_named};
use crate::error::{DependencyBlameError, ErrorView};
use crate::git_analyzer::{GitAnalyzer, GitInfoView, ManifestHistory, introduction};
use crate::text::{str_is, to_chars};
use crate::usage_scanner::{SourceFile, UsageScanner, usage_locations};
use vstd::prelude::*;

verus! {

/// What a `DependencyAnalysis` says, with its texts as sequences of
/// characters.
pub struct AnalysisView {
    pub dependency: DependencyView,
    pub git_info: Option<GitInfoView>,
    pub locations: Seq<ImportLocationView>,
}

impl View for DependencyAnalysis {
    type V = AnalysisView;

    open spec fn view(&self) -> AnalysisView {
        AnalysisView {
            dependency: self.dependency@,
            git_info: match self.git_info {
                Some(info) => Some(info@),
                None => None,
            },
            locations: location_views(self.usage_info.locations()),
        }
    }
}

/// The ecosystem of a project and the adapter that reads its manifest, or
/// why the manifest cannot be read. The failures come in this order: no
/// ecosystem is detected; the directory lacks the ecosystem's manifest, or
/// the manifest handed over is another file; no adapter is registered.
pub open spec fn resolved(
    registry: EcosystemRegistry,
    dir: ProjectDirectory,
    manifest: ManifestFile,
) -> Result<EcosystemType, ErrorView> {
    match detected_ecosystem(dir) {
        None => Err(ErrorView::EcosystemDetectionFailed(dir.path@)),
        Some(ecosystem) => {
            let name = manifest_name(dir, ecosystem);
            if !dir.has(name) || manifest.file_name@ != name {
                Err(ErrorView::DependencyFileNotFound(name))
            } else if !registry.has(ecosystem) {
                Err(ErrorView::UnsupportedEcosystem)
            } else {
                Ok(ecosystem)
            }
        },
    }
}

/// The dependencies that a project declares, or why they cannot be read.
pub open spec fn listed(
    registry: EcosystemRegistry,
    dir: ProjectDirectory,
    manifest: ManifestFile,
) -> Result<Seq<DependencyView>, ErrorView> {
    match resolved(registry, dir, manifest) {
        Err(e) => Err(e),
        Ok(ecosystem) => DependencyParser::declared(&Adapter::of_tag(ecosystem), manifest),
    }
}

/// The dependency that a project declares under the query's name: the
/// first of that name, or the failure that there is none, or why the
/// project's dependencies cannot be read.
pub open spec fn declared_dependency(
    registry: EcosystemRegistry,
    query: DependencyQuery,
    dir: ProjectDirectory,
    manifest: ManifestFile,
) -> Result<DependencyView, ErrorView> {
    match listed(registry, dir, manifest) {
        Err(e) => Err(e),
        Ok(deps) => match first_named(deps, query.dependency_name@) {
            None => Err(ErrorView::DependencyNotFound(query.dependency_name@)),
            Some(dependency) => Ok(dependency),
        },
    }
}

/// The outcome of an analysis. It fails where the project's dependencies
/// cannot be read and where the manifest does not declare the dependency.
/// The history is searched only where the query asks for it, and a history
/// that is not available, because there is no repository or because it
/// cannot be read, gives no commit. The sources are scanned only where the
/// query asks for it.
pub open spec fn analyzed(
    registry: EcosystemRegistry,
    query: DependencyQuery,
    dir: ProjectDirectory,
    manifest: ManifestFile,
    history: Option<ManifestHistory>,
    sources: Seq<SourceFile>,
) -> Result<AnalysisView, ErrorView> {
    match declared_dependency(registry, query, dir, manifest) {
        Err(e) => Err(e),
        Ok(dependency) => Ok(
            AnalysisView {
                dependency: dependency,
                git_info: match history {
                    Some(found) => if query.include_git_history {
                        introduction(found.commits@, found.file_path@, query.dependency_name@)
                    } else {
                        None
                    },
                    None => None,
                },
                locations: if query.scan_usage {
                    usage_locations(
                        Adapter::of_tag(dependency.ecosystem),
                        sources,
                        dependency.name,
                    )
                } else {
                    Seq::empty()
                },
            },
        ),
    }
}

/// The outcome of an analysis, over views.
pub open spec fn analysis_view(r: Result<DependencyAnalysis, DependencyBlameError>) -> Result<
    AnalysisView,
    ErrorView,
> {
    match r {
        Ok(analysis) => Ok(analysis@),
        Err(e) => Err(e@),
    }
}

/// The outcome of a listing, over views.
pub open spec fn listing_view(r: Result<Vec<Dependency>, DependencyBlameError>) -> Result<
    Seq<DependencyView>,
    ErrorView,
> {
    match r {
        Ok(deps) => Ok(dependency_views(deps@)),
        Err(e) => Err(e@),
    }
}

/// Composes detection, parsing, history search and usage scan.
pub struct DependencyOrchestrator {
    registry: EcosystemRegistry,
}

impl DependencyOrchestrator {
    /// The registry the orchestrator takes its adapters from.
    pub closed spec fn adapters(self) -> EcosystemRegistry {
        self.registry
    }

    pub fn new(registry: EcosystemRegistry) -> (orchestrator: DependencyOrchestrator)
        ensures
            orchestrator.adapters() == registry,
    {
        DependencyOrchestrator { registry }
    }

    /// The adapter that reads the project's manifest.
    fn resolve(&self, dir: &ProjectDirectory, manifest: &ManifestFile) -> (r: Result<
        &Adapter,
        DependencyBlameError,
    >)
        ensures
            match r {
                Ok(adapter) => resolved(self.adapters(), *dir, *manifest) == Ok::<
                    EcosystemType,
                    ErrorView,
                >(adapter.tag()) && *adapter == Adapter::of_tag(adapter.tag()),
                Err(e) => resolved(self.adapters(), *dir, *manifest) == Err::<
                    EcosystemType,
                    ErrorView,
                >(e@),
            },
    {
        let ecosystem = match self.registry.detect_from_directory(dir) {
            Ok(ecosystem) => ecosystem,
            Err(e) => {
                return Err(e);
            },
        };
        let name = match self.registry.get_dependency_file(dir, ecosystem) {
            Ok(name) => name,
            Err(e) => {
                return Err(e);
            },
        };
        if !str_is(manifest.file_name.as_str(), &to_chars(name.as_str())) {
            return Err(DependencyBlameError::DependencyFileNotFound(name));
        }
        match self.registry.get_adapter(ecosystem) {
            Some(adapter) => {
                proof {
                    Adapter::lemma_of_tag(*adapter);
                }
                Ok(adapter)
            },
            None => Err(DependencyBlameError::UnsupportedEcosystem),
        }
    }

    /// Looks the query's dependency up in the project's manifest. An
    /// analysis fails exactly where this fails, so that a caller can ask
    /// here before it reads the history and the sources.
    pub fn find_dependency(
        &self,
        query: &DependencyQuery,
        dir: &ProjectDirectory,
        manifest: &ManifestFile,
    ) -> (r: Result<Dependency, DependencyBlameError>)
        ensures
            match r {
                Ok(dependency) => declared_dependency(self.adapters(), *query, *dir, *manifest)
                    == Ok::<DependencyView, ErrorView>(dependency@),
                Err(e) => declared_dependency(self.adapters(), *query, *dir, *manifest) == Err::<
                    DependencyView,
                    ErrorView,
                >(e@),
            },
    {
        let adapter = match self.resolve(dir, manifest) {
            Ok(adapter) => adapter,
            Err(e) => {
                return Err(e);
            },
        };
        match adapter.find_dependency(manifest, query.dependency_name.as_str()) {
            Ok(Some(dependency)) => Ok(dependency),
            Ok(None) => Err(
                DependencyBlameError::DependencyNotFound(query.dependency_name.clone()),
            ),
            Err(e) => Err(e),
        }
    }

    /// Analyzes one dependency of a project.
    pub fn analyze(
        &self,
        query: &DependencyQuery,
        dir: &ProjectDirectory,
        manifest: &ManifestFile,
        history: &Option<ManifestHistory>,
        sources: &Vec<SourceFile>,
    ) -> (r: Result<DependencyAnalysis, DependencyBlameError>)
        ensures
            analysis_view(r) == analyzed(
                self.adapters(),
                *query,
                *dir,
                *manifest,
                *history,
                sources@,
            ),
    {
        let dependency = match self.find_dependency(query, dir, manifest) {
            Ok(dependency) => dependency,
            Err(e) => {
                return Err(e);
            },
        };
        let git_info: Option<GitInfo> = if query.include_git_history {
            match history {
                Some(found) => GitAnalyzer::find_dependency_introduction(
                    &found.commits,
                    found.file_path.as_str(),
                    query.dependency_name.as_str(),
                ),
                None => None,
            }
        } else {
            None
        };
        let usage_info = if query.scan_usage {
            let usage_scanner = UsageScanner::new(self.create_registry_copy());
            match usage_scanner.scan_usage(sources, &dependency) {
                Ok(info) => info,
                Err(e) => {
                    return Err(e);
                },
            }
        } else {
            UsageInfo::new()
        };
        let analysis = DependencyAnalysis { dependency, git_info, usage_info };
        proof {
            assert(analysis@.locations =~= analyzed(
                self.adapters(),
                *query,
                *dir,
                *manifest,
                *history,
                sources@,
            )->Ok_0.locations);
        }
        Ok(analysis)
    }

    /// Lists all dependencies that a project declares.
    pub fn list_all_dependencies(&self, dir: &ProjectDirectory, manifest: &ManifestFile) -> (r:
        Result<Vec<Dependency>, DependencyBlameError>)
        ensures
            listing_view(r) == listed(self.adapters(), *dir, *manifest),
    {
        let adapter = match self.resolve(dir, manifest) {
            Ok(adapter) => adapter,
            Err(e) => {
                return Err(e);
            },
        };
        adapter.parse_dependencies(manifest)
    }

    /// A registry of the built-in ecosystems for the usage scan.
    fn create_registry_copy(&self) -> (registry: EcosystemRegistry)
        ensures
            forall|e: EcosystemType| registry.has(e),
    {
        create_default_registry()
    }
}

} // verus!
