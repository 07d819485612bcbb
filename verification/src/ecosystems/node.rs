//! The Node ecosystem: `package.json` manifests and `require` / `import`
//! statements.

pub mod parser;
pub mod scanner;

use crate::dependency::EcosystemType;
use crate::ecosystems::traits::EcosystemAdapter;
use vstd::prelude::*;

verus! {

/// The adapter of the Node ecosystem.
#[derive(Debug, Clone, Copy)]
pub struct NodeAdapter {
    parser: parser::NodeParser,
    scanner: scanner::NodeScanner,
}

impl NodeAdapter {
    /// The one value of the type.
    pub closed spec fn unit() -> NodeAdapter {
        NodeAdapter { parser: parser::NodeParser, scanner: scanner::NodeScanner }
    }

    /// The type has one value only.
    pub proof fn lemma_unit(adapter: NodeAdapter)
        ensures
            adapter == NodeAdapter::unit(),
    {
    }

    pub fn new() -> (adapter: NodeAdapter)
        ensures
            adapter == NodeAdapter::unit(),
            adapter.ecosystem() == EcosystemType::Node,
    {
        NodeAdapter { parser: parser::NodeParser, scanner: scanner::NodeScanner }
    }
}

impl Default for NodeAdapter {
    fn default() -> (adapter: NodeAdapter)
        ensures
            adapter.ecosystem() == EcosystemType::Node,
    {
        NodeAdapter::new()
    }
}

impl EcosystemAdapter for NodeAdapter {
    type Parser = parser::NodeParser;

    type Scanner = scanner::NodeScanner;

    open spec fn ecosystem(&self) -> EcosystemType {
        EcosystemType::Node
    }

    fn parser(&self) -> (parser: &parser::NodeParser) {
        &self.parser
    }

    fn scanner(&self) -> (scanner: &scanner::NodeScanner) {
        &self.scanner
    }

    fn ecosystem_type(&self) -> (e: EcosystemType)
        ensures
            e == EcosystemType::Node,
    {
        EcosystemType::Node
    }
}

} // verus!
