//! Reading `go.mod`.

use crate::dependency::{
    Dependency, DependencyType, DependencyView, EcosystemType, dependency_views,
};
use crate::ecosystems::traits::{DependencyParser, ManifestFile, parse_view};
use crate::error::{DependencyBlameError, ErrorView};
use crate::pattern::{
    first_captured, first_pair, pattern_failure, regex_matches, Pattern,
};
use crate::text::{
    contains, contains_text, from_chars, lines, lines_of, str_views, texts, to_chars, trim,
    trimmed,
};
use vstd::prelude::*;

verus! {

/// A `require` directive on one line: the groups are the module and its
/// version.
pub const REQUIRE_PATTERN: &'static str = r"^\s*require\s+(\S+)\s+(\S+)";

/// An entry of a `require` block: the groups are the module and its
/// version.
pub const BLOCK_ENTRY_PATTERN: &'static str = r"^\s*(\S+)\s+(\S+)";

/// The parser of `go.mod`.
#[derive(Debug, Clone, Copy)]
pub struct GoParser;

/// Whether a trimmed line opens a `require` block: it holds `require` and
/// an opening parenthesis.
pub open spec fn opens_require_block(line: Seq<char>) -> bool {
    contains_text(line, "require"@) && contains_text(line, "("@)
}

/// Whether a trimmed line closes a block: it holds a closing parenthesis.
pub open spec fn closes_block(line: Seq<char>) -> bool {
    contains_text(line, ")"@)
}

/// The module and the version that a pattern finds in a line: groups 1 and
/// 2 of its first match.
pub open spec fn required_pair(pattern: Seq<char>, line: Seq<char>) -> Option<
    (Seq<char>, Seq<char>),
> {
    match regex_matches(pattern, line) {
        Ok(matches) => first_pair(matches@),
        Err(_) => None,
    }
}

/// The direct dependency that a pattern finds in a line, if any.
pub open spec fn required_by(pattern: Seq<char>, line: Seq<char>) -> Seq<DependencyView> {
    match required_pair(pattern, line) {
        Some((module, version)) => seq![
            DependencyView {
                name: module,
                version: version,
                ecosystem: EcosystemType::Go,
                dependency_type: DependencyType::Direct,
            },
        ],
        None => Seq::empty(),
    }
}

/// What a trimmed line declares that neither opens nor closes a block: a
/// `require` directive if it is one, and inside a block its entry.
pub open spec fn line_requirements(line: Seq<char>, in_block: bool) -> Seq<DependencyView> {
    required_by(REQUIRE_PATTERN@, line) + if in_block {
        required_by(BLOCK_ENTRY_PATTERN@, line)
    } else {
        Seq::empty()
    }
}

/// What the lines of a `go.mod` declare, read from the first line on;
/// `in_block` says whether the first line stands inside a `require` block.
/// Every line is trimmed first. A line that opens a block, and inside a
/// block a line that closes it, declares nothing.
pub open spec fn go_requirements(lines: Seq<Seq<char>>, in_block: bool) -> Seq<DependencyView>
    decreases lines.len(),
{
    if lines.len() == 0 {
        Seq::empty()
    } else {
        let line = trimmed(lines[0]);
        let rest = lines.drop_first();
        if opens_require_block(line) {
            go_requirements(rest, true)
        } else if in_block && closes_block(line) {
            go_requirements(rest, false)
        } else {
            line_requirements(line, in_block) + go_requirements(rest, in_block)
        }
    }
}

/// What a `go.mod` declares, or the failure of one of the two patterns.
pub open spec fn go_module_dependencies(content: Seq<char>) -> Result<
    Seq<DependencyView>,
    ErrorView,
> {
    match pattern_failure(REQUIRE_PATTERN@) {
        Some(message) => Err(ErrorView::RegexError(message)),
        None => match pattern_failure(BLOCK_ENTRY_PATTERN@) {
            Some(message) => Err(ErrorView::RegexError(message)),
            None => Ok(go_requirements(lines_of(content), false)),
        },
    }
}

/// Appends to `deps` the dependency that a pattern finds in a line.
pub fn append_required(deps: &mut Vec<Dependency>, pattern: &Pattern, line: &str)
    ensures
        dependency_views(final(deps)@) == dependency_views(old(deps)@) + required_by(
            pattern.source(),
            line@,
        ),
{
    let ghost before = dependency_views(deps@);
    assert(before + Seq::<DependencyView>::empty() =~= before);
    let matches = pattern.search(line);
    match (first_captured(&matches, 1), first_captured(&matches, 2)) {
        (Some(module), Some(version)) => {
            let dep = Dependency {
                name: module.to_owned(),
                version: version.to_owned(),
                ecosystem: EcosystemType::Go,
                dependency_type: DependencyType::Direct,
            };
            deps.push(dep);
            assert(dependency_views(deps@) =~= before + seq![dep@]);
        },
        _ => {},
    }
}

/// Collects the dependencies of a `go.mod`.
pub fn read_go_module(content: &str) -> (r: Result<Vec<Dependency>, DependencyBlameError>)
    ensures
        parse_view(r) == go_module_dependencies(content@),
{
    let require = match Pattern::compile(REQUIRE_PATTERN) {
        Ok(compiled) => compiled,
        Err(e) => {
            return Err(e);
        },
    };
    let block_entry = match Pattern::compile(BLOCK_ENTRY_PATTERN) {
        Ok(compiled) => compiled,
        Err(e) => {
            return Err(e);
        },
    };
    let all = lines(&to_chars(content));
    let mut deps: Vec<Dependency> = Vec::new();
    let mut in_block = false;
    let mut i: usize = 0;
    let require_word = to_chars("require");
    let opening = to_chars("(");
    let closing = to_chars(")");
    proof {
        assert(dependency_views(deps@) =~= Seq::empty());
        assert(texts(all@).subrange(0, texts(all@).len() as int) =~= texts(all@));
        assert(dependency_views(deps@) + go_requirements(texts(all@), false) =~= go_requirements(
            texts(all@),
            false,
        ));
    }
    while i < all.len()
        invariant
            i <= all.len(),
            require_word@ == "require"@,
            opening@ == "("@,
            closing@ == ")"@,
            require.source() == REQUIRE_PATTERN@,
            block_entry.source() == BLOCK_ENTRY_PATTERN@,
            go_requirements(texts(all@), false) == dependency_views(deps@) + go_requirements(
                texts(all@).subrange(i as int, texts(all@).len() as int),
                in_block,
            ),
        decreases all.len() - i,
    {
        let ghost rest = texts(all@).subrange(i as int, texts(all@).len() as int);
        let ghost before = dependency_views(deps@);
        proof {
            assert(rest[0] == all@[i as int]@);
            assert(rest.drop_first() =~= texts(all@).subrange(i + 1, texts(all@).len() as int));
        }
        let line = trim(&all[i]);
        if contains(&line, &require_word) && contains(&line, &opening) {
            in_block = true;
        } else if in_block && contains(&line, &closing) {
            in_block = false;
        } else {
            let text = from_chars(&line);
            append_required(&mut deps, &require, text.as_str());
            if in_block {
                append_required(&mut deps, &block_entry, text.as_str());
            }
            proof {
                assert(dependency_views(deps@) =~= before + line_requirements(line@, in_block));
                assert((before + line_requirements(line@, in_block)) + go_requirements(
                    rest.drop_first(),
                    in_block,
                ) =~= before + (line_requirements(line@, in_block) + go_requirements(
                    rest.drop_first(),
                    in_block,
                )));
            }
        }
        i += 1;
    }
    proof {
        assert(texts(all@).subrange(i as int, texts(all@).len() as int) =~= Seq::<
            Seq<char>,
        >::empty());
        assert(dependency_views(deps@) + Seq::<DependencyView>::empty() =~= dependency_views(
            deps@,
        ));
    }
    Ok(deps)
}

impl DependencyParser for GoParser {
    open spec fn ecosystem(&self) -> EcosystemType {
        EcosystemType::Go
    }

    open spec fn supported(&self) -> Seq<Seq<char>> {
        seq!["go.mod"@]
    }

    open spec fn declared(&self, file: ManifestFile) -> Result<Seq<DependencyView>, ErrorView> {
        go_module_dependencies(file.content@)
    }

    fn ecosystem_type(&self) -> (e: EcosystemType)
        ensures
            e == EcosystemType::Go,
    {
        EcosystemType::Go
    }

    fn supported_files(&self) -> (names: Vec<&'static str>)
        ensures
            str_views(names@) == seq!["go.mod"@],
    {
        let names = vec!["go.mod"];
        assert(str_views(names@) =~= seq!["go.mod"@]);
        names
    }

    fn parse_dependencies(&self, file: &ManifestFile) -> (r: Result<
        Vec<Dependency>,
        DependencyBlameError,
    >)
        ensures
            parse_view(r) == go_module_dependencies(file.content@),
    {
        read_go_module(file.content.as_str())
    }
}

} // verus!
