use vstd::prelude::*;
use yaml_rust::scanner::{Marker, TEncoding, TScalarStyle, Token as YamlToken, TokenType};

verus! {

/// The marker that yaml_rust attaches to every token; its fields are private.
#[verifier::external_type_specification]
#[verifier::external_body]
pub struct ExMarker(Marker);

/// yaml_rust's stream encoding, a public enum with one unit variant.
#[verifier::external_type_specification]
pub struct ExTEncoding(TEncoding);

/// yaml_rust's scalar styles, a public enum of unit variants.
#[verifier::external_type_specification]
pub struct ExTScalarStyle(TScalarStyle);

/// yaml_rust's token kinds, a public enum whose payloads are public.
#[verifier::external_type_specification]
pub struct ExTokenType(TokenType);

/// yaml_rust's token: a public pair of a marker and a kind.
#[verifier::external_type_specification]
pub struct ExYamlToken(YamlToken);

/// Relies on yaml_rust's `Marker::line`, the line of the marker.
pub assume_specification[ Marker::line ](m: &Marker) -> usize;

/// Relies on yaml_rust's `Marker::col`, the column of the marker, counted from zero.
pub assume_specification[ Marker::col ](m: &Marker) -> usize;

/// The kinds of token that the grammar tells apart.
#[derive(Debug, Clone, Copy, PartialEq, Eq, Structural)]
pub enum TokenTypeDef {
    NoToken,
    StreamStart,
    StreamEnd,
    VersionDirective,
    TagDirective,
    DocumentStart,
    DocumentEnd,
    BlockSequenceStart,
    BlockMappingStart,
    BlockEnd,
    FlowSequenceStart,
    FlowSequenceEnd,
    FlowMappingStart,
    FlowMappingEnd,
    BlockEntry,
    FlowEntry,
    Key,
    Value,
    Alias,
    Anchor,
    Tag,
    Scalar,
}

/// The kind of a yaml_rust token type.
pub open spec fn kind_of(t: TokenType) -> TokenTypeDef {
    match t {
        TokenType::NoToken => TokenTypeDef::NoToken,
        TokenType::StreamStart(_) => TokenTypeDef::StreamStart,
        TokenType::StreamEnd => TokenTypeDef::StreamEnd,
        TokenType::VersionDirective(_, _) => TokenTypeDef::VersionDirective,
        TokenType::TagDirective(_, _) => TokenTypeDef::TagDirective,
        TokenType::DocumentStart => TokenTypeDef::DocumentStart,
        TokenType::DocumentEnd => TokenTypeDef::DocumentEnd,
        TokenType::BlockSequenceStart => TokenTypeDef::BlockSequenceStart,
        TokenType::BlockMappingStart => TokenTypeDef::BlockMappingStart,
        TokenType::BlockEnd => TokenTypeDef::BlockEnd,
        TokenType::FlowSequenceStart => TokenTypeDef::FlowSequenceStart,
        TokenType::FlowSequenceEnd => TokenTypeDef::FlowSequenceEnd,
        TokenType::FlowMappingStart => TokenTypeDef::FlowMappingStart,
        TokenType::FlowMappingEnd => TokenTypeDef::FlowMappingEnd,
        TokenType::BlockEntry => TokenTypeDef::BlockEntry,
        TokenType::FlowEntry => TokenTypeDef::FlowEntry,
        TokenType::Key => TokenTypeDef::Key,
        TokenType::Value => TokenTypeDef::Value,
        TokenType::Alias(_) => TokenTypeDef::Alias,
        TokenType::Anchor(_) => TokenTypeDef::Anchor,
        TokenType::Tag(_, _) => TokenTypeDef::Tag,
        TokenType::Scalar(_, _) => TokenTypeDef::Scalar,
    }
}

/// Maps a yaml_rust token type to its kind.
pub fn get_token_def(token_type: &TokenType) -> (r: TokenTypeDef)
    ensures
        r == kind_of(*token_type),
{
    match token_type {
        TokenType::NoToken => TokenTypeDef::NoToken,
        TokenType::StreamStart(_) => TokenTypeDef::StreamStart,
        TokenType::StreamEnd => TokenTypeDef::StreamEnd,
        TokenType::VersionDirective(_, _) => TokenTypeDef::VersionDirective,
        TokenType::TagDirective(_, _) => TokenTypeDef::TagDirective,
        TokenType::DocumentStart => TokenTypeDef::DocumentStart,
        TokenType::DocumentEnd => TokenTypeDef::DocumentEnd,
        TokenType::BlockSequenceStart => TokenTypeDef::BlockSequenceStart,
        TokenType::BlockMappingStart => TokenTypeDef::BlockMappingStart,
        TokenType::BlockEnd => TokenTypeDef::BlockEnd,
        TokenType::FlowSequenceStart => TokenTypeDef::FlowSequenceStart,
        TokenType::FlowSequenceEnd => TokenTypeDef::FlowSequenceEnd,
        TokenType::FlowMappingStart => TokenTypeDef::FlowMappingStart,
        TokenType::FlowMappingEnd => TokenTypeDef::FlowMappingEnd,
        TokenType::BlockEntry => TokenTypeDef::BlockEntry,
        TokenType::FlowEntry => TokenTypeDef::FlowEntry,
        TokenType::Key => TokenTypeDef::Key,
        TokenType::Value => TokenTypeDef::Value,
        TokenType::Alias(_) => TokenTypeDef::Alias,
        TokenType::Anchor(_) => TokenTypeDef::Anchor,
        TokenType::Tag(_, _) => TokenTypeDef::Tag,
        TokenType::Scalar(_, _) => TokenTypeDef::Scalar,
    }
}

/// The name under which a kind appears in error messages.
pub open spec fn kind_name(k: TokenTypeDef) -> Seq<char> {
    match k {
        TokenTypeDef::NoToken => "No-Token"@,
        TokenTypeDef::StreamStart => "Stream-Start"@,
        TokenTypeDef::StreamEnd => "Stream-End"@,
        TokenTypeDef::VersionDirective => "Value-Directive"@,
        TokenTypeDef::TagDirective => "Tag-Directive"@,
        TokenTypeDef::DocumentStart => "Document-Start"@,
        TokenTypeDef::DocumentEnd => "Document-End"@,
        TokenTypeDef::BlockSequenceStart => "Block-Sequence-Start"@,
        TokenTypeDef::BlockMappingStart => "Block-Mapping-Start"@,
        TokenTypeDef::BlockEnd => "Block-End"@,
        TokenTypeDef::FlowSequenceStart => "Flow-Sequence-Start"@,
        TokenTypeDef::FlowSequenceEnd => "Flow-Sequence-End"@,
        TokenTypeDef::FlowMappingStart => "Flow-Mapping-Start"@,
        TokenTypeDef::FlowMappingEnd => "Flow-Mapping-End"@,
        TokenTypeDef::BlockEntry => "Block-Entry"@,
        TokenTypeDef::FlowEntry => "Flow-Entry"@,
        TokenTypeDef::Key => "Key"@,
        TokenTypeDef::Value => "Value"@,
        TokenTypeDef::Alias => "Alias"@,
        TokenTypeDef::Anchor => "Ancor"@,
        TokenTypeDef::Tag => "Tag"@,
        TokenTypeDef::Scalar => "Scalar"@,
    }
}

impl TokenTypeDef {
    /// The name under which this kind appears in error messages.
    pub fn name(&self) -> (r: &'static str)
        ensures
            r@ == kind_name(*self),
    {
        match self {
            TokenTypeDef::NoToken => "No-Token",
            TokenTypeDef::StreamStart => "Stream-Start",
            TokenTypeDef::StreamEnd => "Stream-End",
            TokenTypeDef::VersionDirective => "Value-Directive",
            TokenTypeDef::TagDirective => "Tag-Directive",
            TokenTypeDef::DocumentStart => "Document-Start",
            TokenTypeDef::DocumentEnd => "Document-End",
            TokenTypeDef::BlockSequenceStart => "Block-Sequence-Start",
            TokenTypeDef::BlockMappingStart => "Block-Mapping-Start",
            TokenTypeDef::BlockEnd => "Block-End",
            TokenTypeDef::FlowSequenceStart => "Flow-Sequence-Start",
            TokenTypeDef::FlowSequenceEnd => "Flow-Sequence-End",
            TokenTypeDef::FlowMappingStart => "Flow-Mapping-Start",
            TokenTypeDef::FlowMappingEnd => "Flow-Mapping-End",
            TokenTypeDef::BlockEntry => "Block-Entry",
            TokenTypeDef::FlowEntry => "Flow-Entry",
            TokenTypeDef::Key => "Key",
            TokenTypeDef::Value => "Value",
            TokenTypeDef::Alias => "Alias",
            TokenTypeDef::Anchor => "Ancor",
            TokenTypeDef::Tag => "Tag",
            TokenTypeDef::Scalar => "Scalar",
        }
    }
}

} // verus!
