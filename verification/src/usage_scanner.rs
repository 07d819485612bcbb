//! Finding the lines of a code base that import a dependency.
//!
//! The library does not walk directories or read files. A caller hands
//! over the source files it found; the library picks those that belong to
//! the dependency's ecosystem and scans them.

use crate::dependency::{Dependency, ImportLocation, ImportLocationView, UsageInfo, location_views};
use crate::ecosystems::registry::{Adapter, EcosystemRegistry};
use crate::ecosystems::traits::{ImportScanner, is_imported};
use crate::error::{DependencyBlameError, ErrorView};
use crate::text::{from_chars, lines, lines_of, str_is, str_views, texts, to_chars, trim, trimmed};
use vstd::multiset::Multiset;
use vstd::prelude::*;

verus! {

/// A source file as read from disk. `extension` is the extension of the
/// file's name, without the dot, where it has one.
#[derive(Debug, Clone)]
pub struct SourceFile {
    pub path: String,
    pub extension: Option<String>,
    pub content: String,
}

/// Whether a file with the given extension is scanned by a scanner: the
/// extension is one of the scanner's.
pub open spec fn is_scanned(scanner: Adapter, extension: Option<String>) -> bool {
    match extension {
        Some(e) => ImportScanner::extensions(&scanner).contains(e@),
        None => false,
    }
}

/// The locations at which the given lines of a file import a dependency:
/// one for each line that imports it, with the line's number, counted from
/// 1, and the trimmed line.
pub open spec fn line_locations(
    scanner: Adapter,
    path: Seq<char>,
    lines: Seq<Seq<char>>,
    dependency_name: Seq<char>,
) -> Seq<ImportLocationView>
    decreases lines.len(),
{
    if lines.len() == 0 {
        Seq::empty()
    } else {
        let before = line_locations(scanner, path, lines.drop_last(), dependency_name);
        if is_imported(&scanner, lines.last(), dependency_name) {
            before.push(
                ImportLocationView {
                    file_path: path,
                    line_number: lines.len(),
                    line_content: trimmed(lines.last()),
                },
            )
        } else {
            before
        }
    }
}

/// The locations at which a file imports a dependency, by ascending line
/// number.
pub open spec fn file_locations(
    scanner: Adapter,
    file: SourceFile,
    dependency_name: Seq<char>,
) -> Seq<ImportLocationView> {
    line_locations(scanner, file.path@, lines_of(file.content@), dependency_name)
}

/// The locations at which the given files import a dependency: those of
/// each scanned file, file after file.
pub open spec fn usage_locations(
    scanner: Adapter,
    files: Seq<SourceFile>,
    dependency_name: Seq<char>,
) -> Seq<ImportLocationView>
    decreases files.len(),
{
    if files.len() == 0 {
        Seq::empty()
    } else {
        let before = usage_locations(scanner, files.drop_last(), dependency_name);
        if is_scanned(scanner, files.last().extension) {
            before + file_locations(scanner, files.last(), dependency_name)
        } else {
            before
        }
    }
}

/// What one file adds to the locations of a scan, without their order.
pub open spec fn contribution(
    scanner: Adapter,
    file: SourceFile,
    dependency_name: Seq<char>,
) -> Multiset<ImportLocationView> {
    if is_scanned(scanner, file.extension) {
        file_locations(scanner, file, dependency_name).to_multiset()
    } else {
        Multiset::empty()
    }
}

/// Without their order, the locations of a scan are what the files add,
/// one after the other.
proof fn lemma_usage_locations_fold(
    scanner: Adapter,
    files: Seq<SourceFile>,
    dependency_name: Seq<char>,
)
    ensures
        usage_locations(scanner, files, dependency_name).to_multiset() == files.fold_left(
            Multiset::<ImportLocationView>::empty(),
            |sum: Multiset<ImportLocationView>, file: SourceFile|
                sum.add(contribution(scanner, file, dependency_name)),
        ),
    decreases files.len(),
{
    broadcast use vstd::seq_lib::group_to_multiset_ensures;

    let gather = |sum: Multiset<ImportLocationView>, file: SourceFile|
        sum.add(contribution(scanner, file, dependency_name));
    if files.len() == 0 {
        assert(usage_locations(scanner, files, dependency_name).to_multiset()
            =~= Multiset::<ImportLocationView>::empty());
    } else {
        lemma_usage_locations_fold(scanner, files.drop_last(), dependency_name);
        let before = usage_locations(scanner, files.drop_last(), dependency_name);
        if is_scanned(scanner, files.last().extension) {
            vstd::seq_lib::lemma_multiset_commutative(
                before,
                file_locations(scanner, files.last(), dependency_name),
            );
        } else {
            assert(before.to_multiset().add(Multiset::<ImportLocationView>::empty())
                =~= before.to_multiset());
        }
    }
}

/// A scan does not depend on the order in which the files are handed over:
/// two scans of the same files, in whatever order, find the same locations
/// the same number of times, and so report the same count.
pub proof fn lemma_scan_ignores_file_order(
    scanner: Adapter,
    first: Seq<SourceFile>,
    second: Seq<SourceFile>,
    dependency_name: Seq<char>,
)
    requires
        first.to_multiset() == second.to_multiset(),
    ensures
        usage_locations(scanner, first, dependency_name).to_multiset() == usage_locations(
            scanner,
            second,
            dependency_name,
        ).to_multiset(),
        usage_locations(scanner, first, dependency_name).len() == usage_locations(
            scanner,
            second,
            dependency_name,
        ).len(),
{
    broadcast use vstd::seq_lib::group_to_multiset_ensures;

    let gather = |sum: Multiset<ImportLocationView>, file: SourceFile|
        sum.add(contribution(scanner, file, dependency_name));
    assert(vstd::seq_lib::commutative_foldl(gather)) by {
        assert forall|x: SourceFile, y: SourceFile, v: Multiset<ImportLocationView>| #[trigger]
            gather(gather(v, x), y) == gather(gather(v, y), x) by {
            assert(v.add(contribution(scanner, x, dependency_name)).add(
                contribution(scanner, y, dependency_name),
            ) =~= v.add(contribution(scanner, y, dependency_name)).add(
                contribution(scanner, x, dependency_name),
            ));
        }
    }
    vstd::seq_lib::lemma_fold_left_permutation(
        first,
        second,
        gather,
        Multiset::<ImportLocationView>::empty(),
    );
    lemma_usage_locations_fold(scanner, first, dependency_name);
    lemma_usage_locations_fold(scanner, second, dependency_name);
    vstd::seq_lib::to_multiset_len(usage_locations(scanner, first, dependency_name));
    vstd::seq_lib::to_multiset_len(usage_locations(scanner, second, dependency_name));
}

/// Scans source files for the imports of a dependency.
pub struct UsageScanner {
    registry: EcosystemRegistry,
}

impl UsageScanner {
    /// The registry the scanner takes its adapters from.
    pub closed spec fn adapters(self) -> EcosystemRegistry {
        self.registry
    }

    pub fn new(registry: EcosystemRegistry) -> (scanner: UsageScanner)
        ensures
            scanner.adapters() == registry,
    {
        UsageScanner { registry }
    }

    /// Whether a file with the given extension is scanned.
    pub fn is_candidate(scanner: &Adapter, extension: &Option<String>) -> (r: bool)
        ensures
            r == is_scanned(*scanner, *extension),
    {
        match extension {
            Some(e) => {
                let extensions = scanner.file_extensions();
                let wanted = to_chars(e.as_str());
                let mut i: usize = 0;
                while i < extensions.len()
                    invariant
                        i <= extensions.len(),
                        wanted@ == e@,
                        *extension == Some(*e),
                        str_views(extensions@) == ImportScanner::extensions(scanner),
                        forall|k: int| 0 <= k < i ==> extensions@[k]@ != e@,
                    decreases extensions.len() - i,
                {
                    if str_is(extensions[i], &wanted) {
                        assert(str_views(extensions@)[i as int] == e@);
                        return true;
                    }
                    i += 1;
                }
                let ghost known = ImportScanner::extensions(scanner);
                assert forall|k: int| 0 <= k < known.len() implies known[k] != e@ by {
                    assert(str_views(extensions@)[k] == extensions@[k]@);
                }
                false
            },
            None => false,
        }
    }

    /// The locations at which one file imports a dependency, by ascending
    /// line number.
    pub fn scan_file(file: &SourceFile, dependency: &Dependency, scanner: &Adapter) -> (locations:
        Vec<ImportLocation>)
        ensures
            location_views(locations@) == file_locations(*scanner, *file, dependency.name@),
    {
        let all = lines(&to_chars(file.content.as_str()));
        let mut locations: Vec<ImportLocation> = Vec::new();
        let mut i: usize = 0;
        assert(location_views(locations@) =~= Seq::empty());
        while i < all.len()
            invariant
                i <= all.len(),
                location_views(locations@) == line_locations(
                    *scanner,
                    file.path@,
                    texts(all@).take(i as int),
                    dependency.name@,
                ),
            decreases all.len() - i,
        {
            let ghost before = location_views(locations@);
            proof {
                assert(texts(all@).take(i + 1).drop_last() =~= texts(all@).take(i as int));
                assert(texts(all@).take(i + 1).last() == all@[i as int]@);
            }
            let line = from_chars(&all[i]);
            if scanner.is_dependency_imported(line.as_str(), dependency.name.as_str()) {
                let location = ImportLocation {
                    file_path: file.path.clone(),
                    line_number: i + 1,
                    line_content: from_chars(&trim(&all[i])),
                };
                locations.push(location);
                assert(location_views(locations@) =~= before.push(location@));
            }
            i += 1;
        }
        assert(texts(all@).take(texts(all@).len() as int) =~= texts(all@));
        locations
    }

    /// Scans the given files for the imports of a dependency. Only files
    /// whose extension belongs to the dependency's ecosystem are scanned.
    /// The scan fails only where no adapter is registered for the
    /// dependency's ecosystem.
    pub fn scan_usage(&self, files: &Vec<SourceFile>, dependency: &Dependency) -> (r: Result<
        UsageInfo,
        DependencyBlameError,
    >)
        ensures
            match r {
                Ok(info) => self.adapters().has(dependency.ecosystem) && location_views(
                    info.locations(),
                ) == usage_locations(
                    Adapter::of_tag(dependency.ecosystem),
                    files@,
                    dependency.name@,
                ),
                Err(e) => !self.adapters().has(dependency.ecosystem) && e@
                    == ErrorView::UnsupportedEcosystem,
            },
    {
        let scanner = match self.registry.get_adapter(dependency.ecosystem) {
            Some(adapter) => adapter,
            None => {
                return Err(DependencyBlameError::UnsupportedEcosystem);
            },
        };
        proof {
            Adapter::lemma_of_tag(*scanner);
        }
        let mut locations: Vec<ImportLocation> = Vec::new();
        let mut i: usize = 0;
        assert(location_views(locations@) =~= Seq::empty());
        while i < files.len()
            invariant
                i <= files.len(),
                location_views(locations@) == usage_locations(
                    *scanner,
                    files@.take(i as int),
                    dependency.name@,
                ),
            decreases files.len() - i,
        {
            let ghost before = location_views(locations@);
            proof {
                assert(files@.take(i + 1).drop_last() =~= files@.take(i as int));
            }
            if UsageScanner::is_candidate(scanner, &files[i].extension) {
                let mut found = UsageScanner::scan_file(&files[i], dependency, scanner);
                let ghost added = location_views(found@);
                locations.append(&mut found);
                assert(location_views(locations@) =~= before + added);
            }
            i += 1;
        }
        assert(files@.take(files@.len() as int) =~= files@);
        Ok(UsageInfo::with_locations(locations))
    }
}

} // verus!
