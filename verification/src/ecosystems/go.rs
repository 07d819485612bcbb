//! The Go ecosystem: `go.mod` manifests and `import` declarations.

pub mod parser;
pub mod scanner;

use crate::dependency::EcosystemType;
use crate::ecosystems::traits::EcosystemAdapter;
use vstd::prelude::*;

verus! {

/// The adapter of the Go ecosystem.
#[derive(Debug, Clone, Copy)]
pub struct GoAdapter {
    parser: parser::GoParser,
    scanner: scanner::GoScanner,
}

impl GoAdapter {
    /// The one value of the type.
    pub closed spec fn unit() -> GoAdapter {
        GoAdapter { parser: parser::GoParser, scanner: scanner::GoScanner }
    }

    /// The type has one value only.
    pub proof fn lemma_unit(adapter: GoAdapter)
        ensures
            adapter == GoAdapter::unit(),
    {
    }

    pub fn new() -> (adapter: GoAdapter)
        ensures
            adapter == GoAdapter::unit(),
            adapter.ecosystem() == EcosystemType::Go,
    {
        GoAdapter { parser: parser::GoParser, scanner: scanner::GoScanner }
    }
}

impl EcosystemAdapter for GoAdapter {
    type Parser = parser::GoParser;

    type Scanner = scanner::GoScanner;

    open spec fn ecosystem(&self) -> EcosystemType {
        EcosystemType::Go
    }

    fn parser(&self) -> (parser: &parser::GoParser) {
        &self.parser
    }

    fn scanner(&self) -> (scanner: &scanner::GoScanner) {
        &self.scanner
    }

    fn ecosystem_type(&self) -> (e: EcosystemType)
        ensures
            e == EcosystemType::Go,
    {
        EcosystemType::Go
    }
}

} // verus!
