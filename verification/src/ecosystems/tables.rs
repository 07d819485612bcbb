//! Dependency tables of structured manifests: a table whose keys are
//! dependency names and whose values give the versions.

use crate::dependency::{
    Dependency, DependencyType, DependencyView, EcosystemType, dependency_views,
};
use crate::manifest::{ManifestValue, pointee};
use crate::text::{str_is, to_chars};
use vstd::prelude::*;
use vstd::string::StringExecFns;

verus! {

/// How the value of an entry gives the version.
#[derive(Debug, Clone, Copy, PartialEq, Eq, Structural)]
pub enum VersionRule {
    /// A string is the version; any other value gives `*`.
    Plain,
    /// A string is the version; a table gives the string under its key
    /// `version`, or `*` where it has none; any other value gives `*`.
    Detailed,
}

/// The version that an entry's value gives under a rule.
pub open spec fn version_of(value: ManifestValue, rule: VersionRule) -> Seq<char> {
    match value {
        ManifestValue::Text(s) => s@,
        ManifestValue::Table(_) => if rule == VersionRule::Detailed {
            match value.entry("version"@) {
                Some(ManifestValue::Text(v)) => v@,
                _ => "*"@,
            }
        } else {
            "*"@
        },
        _ => "*"@,
    }
}

/// The dependencies that the entries of a table declare, in the order of
/// the entries. An entry whose key is `skipped` declares nothing.
pub open spec fn section_dependencies(
    entries: Seq<(String, ManifestValue)>,
    ecosystem: EcosystemType,
    kind: DependencyType,
    rule: VersionRule,
    skipped: Option<Seq<char>>,
) -> Seq<DependencyView>
    decreases entries.len(),
{
    if entries.len() == 0 {
        Seq::empty()
    } else {
        let before = section_dependencies(entries.drop_last(), ecosystem, kind, rule, skipped);
        let entry = entries.last();
        if skipped == Some(entry.0@) {
            before
        } else {
            before.push(
                DependencyView {
                    name: entry.0@,
                    version: version_of(entry.1, rule),
                    ecosystem: ecosystem,
                    dependency_type: kind,
                },
            )
        }
    }
}

/// The dependencies that a value declares: those of its entries where it
/// is a table, none where it is anything else or is absent.
pub open spec fn table_dependencies(
    value: Option<ManifestValue>,
    ecosystem: EcosystemType,
    kind: DependencyType,
    rule: VersionRule,
    skipped: Option<Seq<char>>,
) -> Seq<DependencyView> {
    match value {
        Some(ManifestValue::Table(entries)) => section_dependencies(
            entries@,
            ecosystem,
            kind,
            rule,
            skipped,
        ),
        _ => Seq::empty(),
    }
}

/// The version that an entry's value gives under a rule.
pub fn extract_version(value: &ManifestValue, rule: VersionRule) -> (version: String)
    ensures
        version@ == version_of(*value, rule),
{
    match value {
        ManifestValue::Text(s) => s.clone(),
        ManifestValue::Table(_) => {
            if rule == VersionRule::Detailed {
                match value.get("version") {
                    Some(inner) => match inner.as_str() {
                        Some(v) => v.to_owned(),
                        None => String::from_str("*"),
                    },
                    None => String::from_str("*"),
                }
            } else {
                String::from_str("*")
            }
        },
        _ => String::from_str("*"),
    }
}

/// Appends to `deps` the dependencies that `value` declares.
pub fn append_table(
    deps: &mut Vec<Dependency>,
    value: Option<&ManifestValue>,
    ecosystem: EcosystemType,
    kind: DependencyType,
    rule: VersionRule,
    skipped: Option<&str>,
)
    ensures
        dependency_views(final(deps)@) == dependency_views(old(deps)@) + table_dependencies(
            pointee(value),
            ecosystem,
            kind,
            rule,
            match skipped {
                Some(s) => Some(s@),
                None => None,
            },
        ),
{
    let ghost start = dependency_views(deps@);
    let ghost skip: Option<Seq<char>> = match skipped {
        Some(s) => Some(s@),
        None => None,
    };
    let entries = match value {
        Some(v) => match v.as_table() {
            Some(entries) => entries,
            None => {
                assert(start + Seq::<DependencyView>::empty() =~= start);
                return ;
            },
        },
        None => {
            assert(start + Seq::<DependencyView>::empty() =~= start);
            return ;
        },
    };
    let skip_chars: Option<Vec<char>> = match skipped {
        Some(s) => Some(to_chars(s)),
        None => None,
    };
    let mut i: usize = 0;
    assert(start + Seq::<DependencyView>::empty() =~= start);
    while i < entries.len()
        invariant
            i <= entries.len(),
            match skip_chars {
                Some(c) => skip == Some(c@),
                None => skip is None,
            },
            dependency_views(deps@) == start + section_dependencies(
                entries@.take(i as int),
                ecosystem,
                kind,
                rule,
                skip,
            ),
        decreases entries.len() - i,
    {
        let ghost before = dependency_views(deps@);
        let ghost section = section_dependencies(
            entries@.take(i as int),
            ecosystem,
            kind,
            rule,
            skip,
        );
        proof {
            assert(entries@.take(i + 1).drop_last() =~= entries@.take(i as int));
        }
        let entry = &entries[i];
        let is_skipped = match &skip_chars {
            Some(c) => str_is(entry.0.as_str(), c),
            None => false,
        };
        if !is_skipped {
            let dep = Dependency {
                name: entry.0.clone(),
                version: extract_version(&entry.1, rule),
                ecosystem,
                dependency_type: kind,
            };
            deps.push(dep);
            proof {
                assert(dependency_views(deps@) =~= before.push(dep@));
                assert(start + section.push(dep@) =~= (start + section).push(dep@));
            }
        }
        i += 1;
    }
    assert(entries@.take(entries@.len() as int) =~= entries@);
}

} // verus!
