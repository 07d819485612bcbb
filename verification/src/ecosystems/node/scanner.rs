//! Finding imports in JavaScript and TypeScript source text.

use crate::dependency::EcosystemType;
use crate::ecosystems::traits::ImportScanner;
use crate::error::{DependencyBlameError, ErrorView};
use crate::pattern::{captures_of, captures_view, collect_captures};
use crate::text::{
    from_chars, join_first, join_with, lowercase, split, split_on, str_views, texts, to_chars,
    to_lowercase, trim, trimmed,
};
use vstd::prelude::*;

verus! {

/// A call of `require` with a quoted module, anywhere in the text.
pub const REQUIRE_PATTERN: &'static str = r#"require\s*\(\s*['"]([^'"]+)['"]\s*\)"#;

/// An `import ... from` statement with a quoted module, at the start of a
/// line after optional white space.
pub const IMPORT_FROM_PATTERN: &'static str = r#"(?m)^\s*import\s+.*?from\s+['"]([^'"]+)['"]"#;

/// A dynamic `import(...)` with a quoted module, anywhere in the text.
pub const DYNAMIC_IMPORT_PATTERN: &'static str = r#"import\s*\(\s*['"]([^'"]+)['"]\s*\)"#;

/// The scanner of JavaScript and TypeScript source files.
#[derive(Debug, Clone, Copy)]
pub struct NodeScanner;

/// The package of an import target. A target that begins with `.` or `/`
/// is a relative path and stays as it is. A target that begins with `@` and
/// has a `/` is a scoped package: its first two segments. Any other target
/// is reduced to its first segment.
pub open spec fn node_package_name(import: Seq<char>) -> Seq<char> {
    let parts = split_on(import, '/');
    if import.len() > 0 && (import[0] == '.' || import[0] == '/') {
        import
    } else if import.len() > 0 && import[0] == '@' && parts.len() >= 2 {
        join_with(parts.take(2), '/')
    } else {
        parts[0]
    }
}

/// Reduces an import target to its package.
pub fn reduce_to_package(import: &Vec<char>) -> (r: Vec<char>)
    ensures
        r@ == node_package_name(import@),
{
    if import.len() > 0 && (import[0] == '.' || import[0] == '/') {
        return import.clone();
    }
    let parts = split(import, '/');
    assert(texts(parts@).len() >= 1);
    if import.len() > 0 && import[0] == '@' && parts.len() >= 2 {
        return join_first(&parts, 2, '/');
    }
    assert(texts(parts@)[0] == parts@[0]@);
    parts[0].clone()
}

impl ImportScanner for NodeScanner {
    open spec fn ecosystem(&self) -> EcosystemType {
        EcosystemType::Node
    }

    open spec fn extensions(&self) -> Seq<Seq<char>> {
        seq!["js"@, "ts"@, "jsx"@, "tsx"@, "mjs"@, "cjs"@]
    }

    /// The modules of all `require` calls, then those of all
    /// `import ... from` statements, then those of all dynamic imports.
    open spec fn imports(&self, content: Seq<char>) -> Result<Seq<Seq<char>>, ErrorView> {
        captures_of(
            seq![REQUIRE_PATTERN@, IMPORT_FROM_PATTERN@, DYNAMIC_IMPORT_PATTERN@],
            content,
        )
    }

    /// Reduced to the package, then trimmed and in lower case.
    open spec fn normalized(&self, name: Seq<char>) -> Seq<char> {
        lowercase(trimmed(node_package_name(name)))
    }

    open spec fn package_name(&self, import: Seq<char>) -> Seq<char> {
        node_package_name(import)
    }

    fn ecosystem_type(&self) -> (e: EcosystemType)
        ensures
            e == EcosystemType::Node,
    {
        EcosystemType::Node
    }

    fn file_extensions(&self) -> (extensions: Vec<&'static str>)
        ensures
            str_views(extensions@) == seq!["js"@, "ts"@, "jsx"@, "tsx"@, "mjs"@, "cjs"@],
    {
        let extensions = vec!["js", "ts", "jsx", "tsx", "mjs", "cjs"];
        assert(str_views(extensions@) =~= seq!["js"@, "ts"@, "jsx"@, "tsx"@, "mjs"@, "cjs"@]);
        extensions
    }

    fn extract_imports(&self, content: &str) -> (r: Result<Vec<String>, DependencyBlameError>)
        ensures
            captures_view(r) == captures_of(
                seq![REQUIRE_PATTERN@, IMPORT_FROM_PATTERN@, DYNAMIC_IMPORT_PATTERN@],
                content@,
            ),
    {
        let patterns = vec![REQUIRE_PATTERN, IMPORT_FROM_PATTERN, DYNAMIC_IMPORT_PATTERN];
        assert(str_views(patterns@) =~= seq![
            REQUIRE_PATTERN@,
            IMPORT_FROM_PATTERN@,
            DYNAMIC_IMPORT_PATTERN@,
        ]);
        collect_captures(&patterns, content)
    }

    fn normalize_package_name(&self, name: &str) -> (r: String)
        ensures
            r@ == lowercase(trimmed(node_package_name(name@))),
    {
        let package = reduce_to_package(&to_chars(name));
        let trimmed_name = from_chars(&trim(&package));
        to_lowercase(trimmed_name.as_str())
    }

    fn extract_package_name(&self, import: &str) -> (r: String)
        ensures
            r@ == node_package_name(import@),
    {
        from_chars(&reduce_to_package(&to_chars(import)))
    }
}

} // verus!
