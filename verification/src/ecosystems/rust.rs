//! The Rust ecosystem: `Cargo.toml` manifests and `use` / `extern crate`
//! imports.

pub mod parser;
pub mod scanner;

use crate::dependency::EcosystemType;
use crate::ecosystems::traits::EcosystemAdapter;
use vstd::prelude::*;

verus! {

/// The adapter of the Rust ecosystem.
#[derive(Debug, Clone, Copy)]
pub struct RustAdapter {
    parser: parser::RustParser,
    scanner: scanner::RustScanner,
}

impl RustAdapter {
    /// The one value of the type.
    pub closed spec fn unit() -> RustAdapter {
        RustAdapter { parser: parser::RustParser, scanner: scanner::RustScanner }
    }

    /// The type has one value only.
    pub proof fn lemma_unit(adapter: RustAdapter)
        ensures
            adapter == RustAdapter::unit(),
    {
    }

    pub fn new() -> (adapter: RustAdapter)
        ensures
            adapter == RustAdapter::unit(),
            adapter.ecosystem() == EcosystemType::Rust,
    {
        RustAdapter { parser: parser::RustParser, scanner: scanner::RustScanner }
    }
}

impl EcosystemAdapter for RustAdapter {
    type Parser = parser::RustParser;

    type Scanner = scanner::RustScanner;

    open spec fn ecosystem(&self) -> EcosystemType {
        EcosystemType::Rust
    }

    fn parser(&self) -> (parser: &parser::RustParser) {
        &self.parser
    }

    fn scanner(&self) -> (scanner: &scanner::RustScanner) {
        &self.scanner
    }

    fn ecosystem_type(&self) -> (e: EcosystemType)
        ensures
            e == EcosystemType::Rust,
    {
        EcosystemType::Rust
    }
}

} // verus!
