//! Finding imports in Go source text.

use crate::dependency::EcosystemType;
use crate::ecosystems::go::parser::closes_block;
use crate::ecosystems::traits::ImportScanner;
use crate::error::{DependencyBlameError, ErrorView};
use crate::pattern::{
    captures_view, first_captured, first_group, pattern_failure, regex_matches, Pattern,
};
use crate::text::{
    contains, contains_text, find_char, from_chars, join_first, join_with,
    lemma_utf8_length_bounds, lines, lines_of, lowercase, split, split_on, str_views, string_views,
    texts, to_chars, to_lowercase, trim, trimmed,
};
use vstd::prelude::*;
use vstd::utf8::encode_utf8;

verus! {

/// An `import` declaration of one quoted path, at the start of a line
/// after optional white space.
pub const SINGLE_IMPORT_PATTERN: &'static str = r#"(?m)^\s*import\s+"([^"]+)""#;

/// An entry of an `import` block: a quoted path.
pub const BLOCK_IMPORT_PATTERN: &'static str = r#"^\s*"([^"]+)""#;

/// The scanner of Go source files.
#[derive(Debug, Clone, Copy)]
pub struct GoScanner;

/// Whether a trimmed line opens an `import` block: it holds `import` and an
/// opening parenthesis.
pub open spec fn opens_import_block(line: Seq<char>) -> bool {
    contains_text(line, "import"@) && contains_text(line, "("@)
}

/// Whether a pattern matches somewhere in a line.
pub open spec fn has_match(pattern: Seq<char>, line: Seq<char>) -> bool {
    match regex_matches(pattern, line) {
        Ok(matches) => matches@.len() > 0,
        Err(_) => false,
    }
}

/// The path that a pattern finds in a line: group 1 of its first match.
pub open spec fn imported_by(pattern: Seq<char>, line: Seq<char>) -> Seq<Seq<char>> {
    match regex_matches(pattern, line) {
        Ok(matches) => match first_group(matches@, 1) {
            Some(path) => seq![path],
            None => Seq::empty(),
        },
        Err(_) => Seq::empty(),
    }
}

/// The import paths in the lines of a Go source text, read from the first
/// line on; `in_block` says whether the first line stands inside an
/// `import` block. Every line is trimmed first. A line with a single-line
/// import gives its path. Of the other lines, one that opens a block and,
/// inside a block, one that closes it give nothing, and any other line
/// inside a block gives the quoted path it starts with.
pub open spec fn go_imports(lines: Seq<Seq<char>>, in_block: bool) -> Seq<Seq<char>>
    decreases lines.len(),
{
    if lines.len() == 0 {
        Seq::empty()
    } else {
        let line = trimmed(lines[0]);
        let rest = lines.drop_first();
        if has_match(SINGLE_IMPORT_PATTERN@, line) {
            imported_by(SINGLE_IMPORT_PATTERN@, line) + go_imports(rest, in_block)
        } else if opens_import_block(line) {
            go_imports(rest, true)
        } else if in_block && closes_block(line) {
            go_imports(rest, false)
        } else if in_block {
            imported_by(BLOCK_IMPORT_PATTERN@, line) + go_imports(rest, true)
        } else {
            go_imports(rest, false)
        }
    }
}

/// The import paths of a Go source text, or the failure of one of the two
/// patterns.
pub open spec fn go_source_imports(content: Seq<char>) -> Result<Seq<Seq<char>>, ErrorView> {
    match pattern_failure(SINGLE_IMPORT_PATTERN@) {
        Some(message) => Err(ErrorView::RegexError(message)),
        None => match pattern_failure(BLOCK_IMPORT_PATTERN@) {
            Some(message) => Err(ErrorView::RegexError(message)),
            None => Ok(go_imports(lines_of(content), false)),
        },
    }
}

/// Whether a path segment looks like a major-version tag: it begins with
/// `v` and takes at most three bytes in UTF-8.
pub open spec fn looks_like_version(segment: Seq<char>) -> bool {
    segment.len() > 0 && segment[0] == 'v' && encode_utf8(segment).len() <= 3
}

/// The module that an import path belongs to. A path without `.` is a
/// standard-library package and stays as it is, and so does a path of
/// fewer than three segments. Of any other path the first three segments
/// are kept, and the fourth too where the path's last segment looks like a
/// version tag.
pub open spec fn go_module_path(import: Seq<char>) -> Seq<char> {
    let parts = split_on(import, '/');
    if !import.contains('.') || parts.len() < 3 {
        import
    } else if looks_like_version(parts.last()) {
        join_with(
            parts.take(
                if parts.len() < 4 {
                    parts.len() as int
                } else {
                    4
                },
            ),
            '/',
        )
    } else {
        join_with(parts.take(3), '/')
    }
}

/// Reduces an import path to its module.
pub fn reduce_to_module(import: &str) -> (r: String)
    ensures
        r@ == go_module_path(import@),
{
    let chars = to_chars(import);
    let dot = find_char(&chars, 0, '.');
    if dot == chars.len() {
        assert(!import@.contains('.'));
        return import.to_owned();
    }
    assert(import@.contains('.'));
    let parts = split(&chars, '/');
    if parts.len() < 3 {
        return import.to_owned();
    }
    let last = &parts[parts.len() - 1];
    assert(texts(parts@).last() == last@);
    let last_text = from_chars(last);
    proof {
        lemma_utf8_length_bounds(last@);
    }
    if last.len() > 0 && last.len() <= 3 && last[0] == 'v' && last_text.as_str().len() <= 3 {
        let count: usize = if parts.len() < 4 {
            parts.len()
        } else {
            4
        };
        from_chars(&join_first(&parts, count, '/'))
    } else {
        from_chars(&join_first(&parts, 3, '/'))
    }
}

/// Appends to `imports` the path that a pattern finds in a line; tells
/// whether the pattern matched at all.
pub fn append_imported(imports: &mut Vec<String>, pattern: &Pattern, line: &str) -> (matched:
    bool)
    ensures
        matched == has_match(pattern.source(), line@),
        string_views(final(imports)@) == string_views(old(imports)@) + imported_by(
            pattern.source(),
            line@,
        ),
{
    let ghost before = string_views(imports@);
    assert(before + Seq::<Seq<char>>::empty() =~= before);
    let matches = pattern.search(line);
    match first_captured(&matches, 1) {
        Some(path) => {
            imports.push(path.to_owned());
            assert(string_views(imports@) =~= before + seq![path@]);
        },
        None => {},
    }
    matches.len() > 0
}

/// Collects the import paths of a Go source text.
pub fn read_go_imports(content: &str) -> (r: Result<Vec<String>, DependencyBlameError>)
    ensures
        captures_view(r) == go_source_imports(content@),
{
    let single_import = match Pattern::compile(SINGLE_IMPORT_PATTERN) {
        Ok(compiled) => compiled,
        Err(e) => {
            return Err(e);
        },
    };
    let block_import = match Pattern::compile(BLOCK_IMPORT_PATTERN) {
        Ok(compiled) => compiled,
        Err(e) => {
            return Err(e);
        },
    };
    let all = lines(&to_chars(content));
    let mut imports: Vec<String> = Vec::new();
    let mut in_block = false;
    let mut i: usize = 0;
    let import_word = to_chars("import");
    let opening = to_chars("(");
    let closing = to_chars(")");
    proof {
        assert(string_views(imports@) =~= Seq::empty());
        assert(texts(all@).subrange(0, texts(all@).len() as int) =~= texts(all@));
        assert(string_views(imports@) + go_imports(texts(all@), false) =~= go_imports(
            texts(all@),
            false,
        ));
    }
    while i < all.len()
        invariant
            i <= all.len(),
            import_word@ == "import"@,
            opening@ == "("@,
            closing@ == ")"@,
            single_import.source() == SINGLE_IMPORT_PATTERN@,
            block_import.source() == BLOCK_IMPORT_PATTERN@,
            go_imports(texts(all@), false) == string_views(imports@) + go_imports(
                texts(all@).subrange(i as int, texts(all@).len() as int),
                in_block,
            ),
        decreases all.len() - i,
    {
        let ghost rest = texts(all@).subrange(i as int, texts(all@).len() as int);
        let ghost before = string_views(imports@);
        proof {
            assert(rest[0] == all@[i as int]@);
            assert(rest.drop_first() =~= texts(all@).subrange(i + 1, texts(all@).len() as int));
        }
        let line = trim(&all[i]);
        let text = from_chars(&line);
        let single = append_imported(&mut imports, &single_import, text.as_str());
        if single {
            proof {
                let found = imported_by(SINGLE_IMPORT_PATTERN@, line@);
                assert((before + found) + go_imports(rest.drop_first(), in_block) =~= before + (
                found + go_imports(rest.drop_first(), in_block)));
            }
        } else {
            assert(string_views(imports@) =~= before) by {
                assert(imported_by(SINGLE_IMPORT_PATTERN@, line@) =~= Seq::empty());
            }
            if contains(&line, &import_word) && contains(&line, &opening) {
                in_block = true;
            } else if in_block && contains(&line, &closing) {
                in_block = false;
            } else if in_block {
                append_imported(&mut imports, &block_import, text.as_str());
                proof {
                    let found = imported_by(BLOCK_IMPORT_PATTERN@, line@);
                    assert((before + found) + go_imports(rest.drop_first(), true) =~= before + (
                    found + go_imports(rest.drop_first(), true)));
                }
            }
        }
        i += 1;
    }
    proof {
        assert(texts(all@).subrange(i as int, texts(all@).len() as int) =~= Seq::<
            Seq<char>,
        >::empty());
        assert(string_views(imports@) + Seq::<Seq<char>>::empty() =~= string_views(imports@));
    }
    Ok(imports)
}

impl ImportScanner for GoScanner {
    open spec fn ecosystem(&self) -> EcosystemType {
        EcosystemType::Go
    }

    open spec fn extensions(&self) -> Seq<Seq<char>> {
        seq!["go"@]
    }

    open spec fn imports(&self, content: Seq<char>) -> Result<Seq<Seq<char>>, ErrorView> {
        go_source_imports(content)
    }

    /// Trimmed and in lower case.
    open spec fn normalized(&self, name: Seq<char>) -> Seq<char> {
        lowercase(trimmed(name))
    }

    open spec fn package_name(&self, import: Seq<char>) -> Seq<char> {
        go_module_path(import)
    }

    fn ecosystem_type(&self) -> (e: EcosystemType)
        ensures
            e == EcosystemType::Go,
    {
        EcosystemType::Go
    }

    fn file_extensions(&self) -> (extensions: Vec<&'static str>)
        ensures
            str_views(extensions@) == seq!["go"@],
    {
        let extensions = vec!["go"];
        assert(str_views(extensions@) =~= seq!["go"@]);
        extensions
    }

    fn extract_imports(&self, content: &str) -> (r: Result<Vec<String>, DependencyBlameError>)
        ensures
            captures_view(r) == go_source_imports(content@),
    {
        read_go_imports(content)
    }

    fn normalize_package_name(&self, name: &str) -> (r: String)
        ensures
            r@ == lowercase(trimmed(name@)),
    {
        let trimmed_name = from_chars(&trim(&to_chars(name)));
        to_lowercase(trimmed_name.as_str())
    }

    fn extract_package_name(&self, import: &str) -> (r: String)
        ensures
            r@ == go_module_path(import@),
    {
        reduce_to_module(import)
    }
}

} // verus!
