//! The Python ecosystem: `requirements.txt` and `pyproject.toml` manifests
//! and `import` / `from ... import` statements.

pub mod parser;
pub mod scanner;

use crate::dependency::EcosystemType;
use crate::ecosystems::traits::EcosystemAdapter;
use vstd::prelude::*;

verus! {

/// The adapter of the Python ecosystem.
#[derive(Debug, Clone, Copy)]
pub struct PythonAdapter {
    parser: parser::PythonParser,
    scanner: scanner::PythonScanner,
}

impl PythonAdapter {
    /// The one value of the type.
    pub closed spec fn unit() -> PythonAdapter {
        PythonAdapter { parser: parser::PythonParser, scanner: scanner::PythonScanner }
    }

    /// The type has one value only.
    pub proof fn lemma_unit(adapter: PythonAdapter)
        ensures
            adapter == PythonAdapter::unit(),
    {
    }

    pub fn new() -> (adapter: PythonAdapter)
        ensures
            adapter == PythonAdapter::unit(),
            adapter.ecosystem() == EcosystemType::Python,
    {
        PythonAdapter { parser: parser::PythonParser, scanner: scanner::PythonScanner }
    }
}

impl EcosystemAdapter for PythonAdapter {
    type Parser = parser::PythonParser;

    type Scanner = scanner::PythonScanner;

    open spec fn ecosystem(&self) -> EcosystemType {
        EcosystemType::Python
    }

    fn parser(&self) -> (parser: &parser::PythonParser) {
        &self.parser
    }

    fn scanner(&self) -> (scanner: &scanner::PythonScanner) {
        &self.scanner
    }

    fn ecosystem_type(&self) -> (e: EcosystemType)
        ensures
            e == EcosystemType::Python,
    {
        EcosystemType::Python
    }
}

} // verus!
