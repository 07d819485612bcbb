//! Reading `Cargo.toml`.

use crate::dependency::{
    Dependency, DependencyType, DependencyView, EcosystemType, dependency_views,
};
use crate::ecosystems::tables::{VersionRule, append_table, table_dependencies};
use crate::ecosystems::traits::{parse_view, DependencyParser, ManifestFile};
use crate::error::{DependencyBlameError, ErrorView};
use crate::manifest::{ManifestValue, parse_toml, toml_document};
use crate::text::str_views;
use vstd::prelude::*;

verus! {

/// The parser of `Cargo.toml`.
#[derive(Debug, Clone, Copy)]
pub struct RustParser;

/// What a decoded `Cargo.toml` declares: the entries of `dependencies` as
/// direct, then those of `dev-dependencies` as development, then those of
/// `build-dependencies` as build dependencies.
pub open spec fn cargo_dependencies(doc: ManifestValue) -> Seq<DependencyView> {
    table_dependencies(
        doc.entry("dependencies"@),
        EcosystemType::Rust,
        DependencyType::Direct,
        VersionRule::Detailed,
        None,
    ) + table_dependencies(
        doc.entry("dev-dependencies"@),
        EcosystemType::Rust,
        DependencyType::Dev,
        VersionRule::Detailed,
        None,
    ) + table_dependencies(
        doc.entry("build-dependencies"@),
        EcosystemType::Rust,
        DependencyType::Build,
        VersionRule::Detailed,
        None,
    )
}

/// Collects the dependencies of a decoded `Cargo.toml`.
pub fn read_cargo_manifest(doc: &ManifestValue) -> (deps: Vec<Dependency>)
    ensures
        dependency_views(deps@) == cargo_dependencies(*doc),
{
    let mut deps: Vec<Dependency> = Vec::new();
    assert(dependency_views(deps@) =~= Seq::empty());
    append_table(
        &mut deps,
        doc.get("dependencies"),
        EcosystemType::Rust,
        DependencyType::Direct,
        VersionRule::Detailed,
        None,
    );
    append_table(
        &mut deps,
        doc.get("dev-dependencies"),
        EcosystemType::Rust,
        DependencyType::Dev,
        VersionRule::Detailed,
        None,
    );
    append_table(
        &mut deps,
        doc.get("build-dependencies"),
        EcosystemType::Rust,
        DependencyType::Build,
        VersionRule::Detailed,
        None,
    );
    assert(dependency_views(deps@) =~= cargo_dependencies(*doc));
    deps
}

impl DependencyParser for RustParser {
    open spec fn ecosystem(&self) -> EcosystemType {
        EcosystemType::Rust
    }

    open spec fn supported(&self) -> Seq<Seq<char>> {
        seq!["Cargo.toml"@]
    }

    open spec fn declared(&self, file: ManifestFile) -> Result<Seq<DependencyView>, ErrorView> {
        match toml_document(file.content@) {
            Ok(doc) => Ok(cargo_dependencies(doc)),
            Err(reason) => Err(ErrorView::ParseError { file: file.path@, reason: reason@ }),
        }
    }

    fn ecosystem_type(&self) -> (e: EcosystemType)
        ensures
            e == EcosystemType::Rust,
    {
        EcosystemType::Rust
    }

    fn supported_files(&self) -> (names: Vec<&'static str>)
        ensures
            str_views(names@) == seq!["Cargo.toml"@],
    {
        let names = vec!["Cargo.toml"];
        assert(crate::text::str_views(names@) =~= seq!["Cargo.toml"@]);
        names
    }

    fn parse_dependencies(&self, file: &ManifestFile) -> (r: Result<
        Vec<Dependency>,
        DependencyBlameError,
    >)
        ensures
            match toml_document(file.content@) {
                Ok(doc) => parse_view(r) == Ok::<Seq<DependencyView>, ErrorView>(
                    cargo_dependencies(doc),
                ),
                Err(reason) => parse_view(r) == Err::<Seq<DependencyView>, ErrorView>(
                    ErrorView::ParseError { file: file.path@, reason: reason@ },
                ),
            },
    {
        match parse_toml(file.content.as_str()) {
            Ok(doc) => Ok(read_cargo_manifest(&doc)),
            Err(reason) => Err(
                DependencyBlameError::ParseError { file: file.path.clone(), reason },
            ),
        }
    }
}

} // verus!
