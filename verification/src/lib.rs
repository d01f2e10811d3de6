//! Definition lists (PHP Markdown Extra syntax) for the rushdown Markdown
//! parser: the node kinds, the decisions of the block parsers and the HTML
//! fragments of the renderers.

pub mod ast;
pub mod indent;
pub mod parser;
pub mod render;

pub use ast::DefinitionList;
pub use ast::Term;
pub use ast::TermDefinition;
pub use parser::DefinitionListParser;
pub use parser::TermDefinitionParser;
pub use render::is_in_tight_list;
