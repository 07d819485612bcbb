//! Reading `package.json`.

use crate::dependency::{
    Dependency, DependencyType, DependencyView, EcosystemType, dependency_views,
};
use crate::ecosystems::tables::{VersionRule, append_table, table_dependencies};
use crate::ecosystems::traits::{parse_view, DependencyParser, ManifestFile};
use crate::error::{DependencyBlameError, ErrorView};
use crate::manifest::{ManifestValue, json_document, parse_json};
use crate::text::str_views;
use vstd::prelude::*;

verus! {

/// The parser of `package.json`.
#[derive(Debug, Clone, Copy)]
pub struct NodeParser;

/// What a decoded `package.json` declares: the entries of `dependencies`
/// as direct, then those of `devDependencies` as development, then those of
/// `peerDependencies` as peer, then those of `optionalDependencies` as
/// optional dependencies. A value that is no string gives the version `*`.
pub open spec fn package_dependencies(doc: ManifestValue) -> Seq<DependencyView> {
    table_dependencies(
        doc.entry("dependencies"@),
        EcosystemType::Node,
        DependencyType::Direct,
        VersionRule::Plain,
        None,
    ) + table_dependencies(
        doc.entry("devDependencies"@),
        EcosystemType::Node,
        DependencyType::Dev,
        VersionRule::Plain,
        None,
    ) + table_dependencies(
        doc.entry("peerDependencies"@),
        EcosystemType::Node,
        DependencyType::Peer,
        VersionRule::Plain,
        None,
    ) + table_dependencies(
        doc.entry("optionalDependencies"@),
        EcosystemType::Node,
        DependencyType::Optional,
        VersionRule::Plain,
        None,
    )
}

/// Collects the dependencies of a decoded `package.json`.
pub fn read_package_manifest(doc: &ManifestValue) -> (deps: Vec<Dependency>)
    ensures
        dependency_views(deps@) == package_dependencies(*doc),
{
    let mut deps: Vec<Dependency> = Vec::new();
    assert(dependency_views(deps@) =~= Seq::empty());
    append_table(
        &mut deps,
        doc.get("dependencies"),
        EcosystemType::Node,
        DependencyType::Direct,
        VersionRule::Plain,
        None,
    );
    append_table(
        &mut deps,
        doc.get("devDependencies"),
        EcosystemType::Node,
        DependencyType::Dev,
        VersionRule::Plain,
        None,
    );
    append_table(
        &mut deps,
        doc.get("peerDependencies"),
        EcosystemType::Node,
        DependencyType::Peer,
        VersionRule::Plain,
        None,
    );
    append_table(
        &mut deps,
        doc.get("optionalDependencies"),
        EcosystemType::Node,
        DependencyType::Optional,
        VersionRule::Plain,
        None,
    );
    assert(dependency_views(deps@) =~= package_dependencies(*doc));
    deps
}

impl DependencyParser for NodeParser {
    open spec fn ecosystem(&self) -> EcosystemType {
        EcosystemType::Node
    }

    open spec fn supported(&self) -> Seq<Seq<char>> {
        seq!["package.json"@]
    }

    open spec fn declared(&self, file: ManifestFile) -> Result<Seq<DependencyView>, ErrorView> {
        match json_document(file.content@) {
            Ok(doc) => Ok(package_dependencies(doc)),
            Err(reason) => Err(ErrorView::ParseError { file: file.path@, reason: reason@ }),
        }
    }

    fn ecosystem_type(&self) -> (e: EcosystemType)
        ensures
            e == EcosystemType::Node,
    {
        EcosystemType::Node
    }

    fn supported_files(&self) -> (names: Vec<&'static str>)
        ensures
            str_views(names@) == seq!["package.json"@],
    {
        let names = vec!["package.json"];
        assert(str_views(names@) =~= seq!["package.json"@]);
        names
    }

    fn parse_dependencies(&self, file: &ManifestFile) -> (r: Result<
        Vec<Dependency>,
        DependencyBlameError,
    >)
        ensures
            match json_document(file.content@) {
                Ok(doc) => parse_view(r) == Ok::<Seq<DependencyView>, ErrorView>(
                    package_dependencies(doc),
                ),
                Err(reason) => parse_view(r) == Err::<Seq<DependencyView>, ErrorView>(
                    ErrorView::ParseError { file: file.path@, reason: reason@ },
                ),
            },
    {
        match parse_json(file.content.as_str()) {
            Ok(doc) => Ok(read_package_manifest(&doc)),
            Err(reason) => Err(
                DependencyBlameError::ParseError { file: file.path.clone(), reason },
            ),
        }
    }
}

} // verus!
