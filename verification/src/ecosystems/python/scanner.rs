//! Finding imports in Python source text.

use crate::dependency::EcosystemType;
use crate::ecosystems::traits::ImportScanner;
use crate::error::{DependencyBlameError, ErrorView};
use crate::pattern::{captures_of, captures_view, collect_captures};
use crate::text::{
    before_first, before_text, from_chars, lowercase, replace_char, replaced, str_views, to_chars,
    to_lowercase, trim, trimmed,
};
use vstd::prelude::*;

verus! {

/// An `import` statement at the start of a line, after optional white
/// space; the group is the first dotted segment of the module.
pub const IMPORT_PATTERN: &'static str = r"(?m)^\s*import\s+([a-zA-Z0-9_]+)";

/// A `from ... import` statement at the start of a line, after optional
/// white space; the group is the first dotted segment of the module,
/// whatever further segments follow it.
pub const FROM_IMPORT_PATTERN: &'static str =
    r"(?m)^\s*from\s+([a-zA-Z0-9_]+)(?:\.[a-zA-Z0-9_]+)*\s+import";

/// The scanner of Python source files.
#[derive(Debug, Clone, Copy)]
pub struct PythonScanner;

impl ImportScanner for PythonScanner {
    open spec fn ecosystem(&self) -> EcosystemType {
        EcosystemType::Python
    }

    open spec fn extensions(&self) -> Seq<Seq<char>> {
        seq!["py"@, "pyw"@]
    }

    /// The first segments of the modules of all `import` statements, then
    /// those of all `from ... import` statements.
    open spec fn imports(&self, content: Seq<char>) -> Result<Seq<Seq<char>>, ErrorView> {
        captures_of(seq![IMPORT_PATTERN@, FROM_IMPORT_PATTERN@], content)
    }

    /// Trimmed, in lower case, with hyphens turned into underscores: the
    /// package index writes names with hyphens, imports with underscores.
    open spec fn normalized(&self, name: Seq<char>) -> Seq<char> {
        replaced(lowercase(trimmed(name)), '-', '_')
    }

    /// The part before the first `.`.
    open spec fn package_name(&self, import: Seq<char>) -> Seq<char> {
        before_text(import, "."@)
    }

    fn ecosystem_type(&self) -> (e: EcosystemType)
        ensures
            e == EcosystemType::Python,
    {
        EcosystemType::Python
    }

    fn file_extensions(&self) -> (extensions: Vec<&'static str>)
        ensures
            str_views(extensions@) == seq!["py"@, "pyw"@],
    {
        let extensions = vec!["py", "pyw"];
        assert(str_views(extensions@) =~= seq!["py"@, "pyw"@]);
        extensions
    }

    fn extract_imports(&self, content: &str) -> (r: Result<Vec<String>, DependencyBlameError>)
        ensures
            captures_view(r) == captures_of(seq![IMPORT_PATTERN@, FROM_IMPORT_PATTERN@], content@),
    {
        let patterns = vec![IMPORT_PATTERN, FROM_IMPORT_PATTERN];
        assert(str_views(patterns@) =~= seq![IMPORT_PATTERN@, FROM_IMPORT_PATTERN@]);
        collect_captures(&patterns, content)
    }

    fn normalize_package_name(&self, name: &str) -> (r: String)
        ensures
            r@ == replaced(lowercase(trimmed(name@)), '-', '_'),
    {
        let trimmed_name = from_chars(&trim(&to_chars(name)));
        let lowered = to_lowercase(trimmed_name.as_str());
        from_chars(&replace_char(&to_chars(lowered.as_str()), '-', '_'))
    }

    fn extract_package_name(&self, import: &str) -> (r: String)
        ensures
            r@ == before_text(import@, "."@),
    {
        from_chars(&before_first(&to_chars(import), &to_chars(".")))
    }
}

} // verus!
