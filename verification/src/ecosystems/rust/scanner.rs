//! Finding imports in Rust source text.

use crate::dependency::EcosystemType;
use crate::ecosystems::traits::ImportScanner;
use crate::error::{DependencyBlameError, ErrorView};
use crate::pattern::{captures_of, captures_view, collect_captures};
use crate::text::{
    before_first, before_text, from_chars, lowercase, replace_char, replaced, str_views, to_chars,
    to_lowercase, trim, trimmed,
};
use vstd::prelude::*;

verus! {

/// A `use` statement at the start of a line, after optional white space;
/// the group is the first segment of the path.
pub const USE_PATTERN: &'static str = r"(?m)^\s*use\s+([a-zA-Z0-9_]+)";

/// An `extern crate` statement at the start of a line, after optional white
/// space; the group is the crate's name.
pub const EXTERN_CRATE_PATTERN: &'static str = r"(?m)^\s*extern\s+crate\s+([a-zA-Z0-9_]+)";

/// The scanner of Rust source files.
#[derive(Debug, Clone, Copy)]
pub struct RustScanner;

impl ImportScanner for RustScanner {
    open spec fn ecosystem(&self) -> EcosystemType {
        EcosystemType::Rust
    }

    open spec fn extensions(&self) -> Seq<Seq<char>> {
        seq!["rs"@]
    }

    /// The targets of all `use` statements, then those of all
    /// `extern crate` statements.
    open spec fn imports(&self, content: Seq<char>) -> Result<Seq<Seq<char>>, ErrorView> {
        captures_of(seq![USE_PATTERN@, EXTERN_CRATE_PATTERN@], content)
    }

    /// Trimmed, in lower case, with hyphens turned into underscores: the
    /// registry writes crate names with hyphens, source code with
    /// underscores.
    open spec fn normalized(&self, name: Seq<char>) -> Seq<char> {
        replaced(lowercase(trimmed(name)), '-', '_')
    }

    /// The part before the first `::`.
    open spec fn package_name(&self, import: Seq<char>) -> Seq<char> {
        before_text(import, "::"@)
    }

    fn ecosystem_type(&self) -> (e: EcosystemType)
        ensures
            e == EcosystemType::Rust,
    {
        EcosystemType::Rust
    }

    fn file_extensions(&self) -> (extensions: Vec<&'static str>)
        ensures
            str_views(extensions@) == seq!["rs"@],
    {
        let extensions = vec!["rs"];
        assert(str_views(extensions@) =~= seq!["rs"@]);
        extensions
    }

    fn extract_imports(&self, content: &str) -> (r: Result<Vec<String>, DependencyBlameError>)
        ensures
            captures_view(r) == captures_of(seq![USE_PATTERN@, EXTERN_CRATE_PATTERN@], content@),
    {
        let patterns = vec![USE_PATTERN, EXTERN_CRATE_PATTERN];
        assert(str_views(patterns@) =~= seq![USE_PATTERN@, EXTERN_CRATE_PATTERN@]);
        collect_captures(&patterns, content)
    }

    fn normalize_package_name(&self, name: &str) -> (r: String)
        ensures
            r@ == replaced(lowercase(trimmed(name@)), '-', '_'),
    {
        let trimmed_name = from_chars(&trim(&to_chars(name)));
        let lowered = to_lowercase(trimmed_name.as_str());
        from_chars(&replace_char(&to_chars(lowered.as_str()), '-', '_'))
    }

    fn extract_package_name(&self, import: &str) -> (r: String)
        ensures
            r@ == before_text(import@, "::"@),
    {
        from_chars(&before_first(&to_chars(import), &to_chars("::")))
    }
}

} // verus!
