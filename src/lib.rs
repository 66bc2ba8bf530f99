pub mod entries;
pub mod error_definitions;
pub mod laws;
pub mod parser;
pub mod text;
pub mod token_type_definitions;
pub mod tokens;
pub mod yaml;

pub use error_definitions::{get_error, ErrorDef, HierarchyLevel, RamlError};
pub use parser::{
    Protocol, Raml, RamlArgs, RamlDocumentation, RamlParser, RamlResult, SecurityScheme, SecuritySchemeType,
    SecuritySchemes,
};
pub use token_type_definitions::TokenTypeDef;
pub use tokens::{Position, Token};
