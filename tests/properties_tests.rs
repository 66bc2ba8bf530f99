use raml_parser::parser::protocol_from_lowercase;
use raml_parser::{
    get_error, ErrorDef, HierarchyLevel, Position, Protocol, RamlDocumentation, RamlParser, RamlResult,
    SecuritySchemeType, TokenTypeDef,
};

fn parse(s: &str) -> RamlResult {
    RamlParser::load_from_str(s)
}

fn error_of(result: RamlResult) -> String {
    assert!(result.is_err());
    result.err().unwrap().error().to_string()
}

#[test]
fn marker_must_be_exact_whatever_follows() {
    let expected = "Document must start with the following RAML comment line: #%RAML 1.0";
    assert_eq!(error_of(parse("#%RAML 0.8\ntitle: Some API")), expected);
    assert_eq!(error_of(parse("")), expected);
    assert_eq!(error_of(parse("\n#%RAML 1.0\ntitle: Some API")), expected);
    assert_eq!(error_of(parse("#%RAML 1.0 extra\ntitle: Some API")), expected);
    assert_eq!(error_of(parse("title: Some API\n#%RAML 1.0")), expected);
}

#[test]
fn marker_line_may_carry_surrounding_white_space() {
    let raml = parse("  #%RAML 1.0 \t\r\ntitle: Some API").ok().unwrap();
    assert_eq!(raml.title(), "Some API");
}

#[test]
fn title_is_the_source_value_exactly() {
    let raml = parse("#%RAML 1.0\ntitle: 'My  API '").ok().unwrap();
    assert_eq!(raml.title(), "My  API ");
}

#[test]
fn title_only_document_has_no_other_fields() {
    let raml = parse("#%RAML 1.0\ntitle: T").ok().unwrap();
    assert_eq!(raml.title(), "T");
    let raml = parse("#%RAML 1.0\ntitle: T").ok().unwrap();
    assert_eq!(raml.version(), None);
    let raml = parse("#%RAML 1.0\ntitle: T").ok().unwrap();
    assert_eq!(raml.documentation(), None);
    let raml = parse("#%RAML 1.0\ntitle: T").ok().unwrap();
    assert!(raml.security_schemes().is_none());
}

#[test]
fn empty_body_has_no_title() {
    assert_eq!(error_of(parse("#%RAML 1.0")), "Error parsing document root. Missing field: title");
    assert_eq!(error_of(parse("#%RAML 1.0\n")), "Error parsing document root. Missing field: title");
    assert_eq!(error_of(parse("#%RAML 1.0\n# only a comment\n\n")), "Error parsing document root. Missing field: title");
}

#[test]
fn later_duplicate_key_wins() {
    let raml = parse("#%RAML 1.0\ntitle: First\ntitle: Second").ok().unwrap();
    assert_eq!(raml.title(), "Second");
}

#[test]
fn protocols_unknown_name_is_positioned_at_it() {
    assert_eq!(error_of(parse("#%RAML 1.0\ntitle: Some API\nprotocols: [https, ftp]")),
               "Error parsing document root. Unexpected protocol at line 3 column 20");
}

#[test]
fn protocol_names_from_lower_case() {
    assert_eq!(protocol_from_lowercase("http"), Some(Protocol::Http));
    assert_eq!(protocol_from_lowercase("https"), Some(Protocol::Https));
    assert_eq!(protocol_from_lowercase("HTTP"), None);
    assert_eq!(protocol_from_lowercase("ftp"), None);
}

#[test]
fn media_type_sequence_of_one_equals_scalar() {
    let a = parse("#%RAML 1.0\ntitle: Some API\nmediaType: application/json").ok().unwrap();
    let b = parse("#%RAML 1.0\ntitle: Some API\nmediaType: [application/json]").ok().unwrap();
    assert_eq!(a.media_types().unwrap(), vec!["application/json".to_string()]);
    assert_eq!(b.media_types().unwrap(), vec!["application/json".to_string()]);
}

#[test]
fn media_type_of_wrong_shape_names_both_shapes() {
    assert_eq!(error_of(parse("#%RAML 1.0\ntitle: Some API\nmediaType: {a: b}")),
               "Unexpected entry found. Expected one of Scalar,Flow-Sequence-Start, Found Flow-Mapping-Start at line 3 column 12");
}

#[test]
fn documentation_keeps_order_and_content() {
    let s = "#%RAML 1.0\ntitle: Some API\ndocumentation:\n - title: B\n   content: b\n - content: a\n   title: A\n - title: C\n   content: c";
    let raml = parse(s).ok().unwrap();
    assert_eq!(raml.documentation().unwrap(),
               vec![RamlDocumentation::new("B".to_string(), "b".to_string()),
                    RamlDocumentation::new("A".to_string(), "a".to_string()),
                    RamlDocumentation::new("C".to_string(), "c".to_string())]);
}

#[test]
fn documentation_entry_needs_content() {
    assert_eq!(error_of(parse("#%RAML 1.0\ntitle: Some API\ndocumentation:\n - title: Doc Title")),
               "Error parsing documentation. Missing field: content");
}

#[test]
fn security_scheme_types_ignore_case() {
    assert_eq!(SecuritySchemeType::from_str("OAuth 2.0").ok(), Some(SecuritySchemeType::OAuth2));
    assert_eq!(SecuritySchemeType::from_str("oauth 1.0").ok(), Some(SecuritySchemeType::OAuth1));
    assert_eq!(SecuritySchemeType::from_str("Basic Authentication").ok(),
               Some(SecuritySchemeType::BasicAuthentication));
    assert_eq!(SecuritySchemeType::from_str("DIGEST AUTHENTICATION").ok(),
               Some(SecuritySchemeType::DigestAuthentication));
    assert_eq!(SecuritySchemeType::from_str("Pass Through").ok(), Some(SecuritySchemeType::PassThrough));
    assert_eq!(SecuritySchemeType::from_str("X-Custom").ok(),
               Some(SecuritySchemeType::XOther("x-custom".to_string())));
}

#[test]
fn security_scheme_type_other_strings_fail() {
    let e = SecuritySchemeType::from_str("token").err().unwrap();
    assert_eq!(e.error(), "Error parsing security scheme. Unexpected type");
    assert!(SecuritySchemeType::from_str("x").is_err());
    assert!(SecuritySchemeType::from_lowercase("OAuth 2.0").is_none());
    assert_eq!(SecuritySchemeType::from_lowercase("x-"), Some(SecuritySchemeType::XOther("x-".to_string())));
}

#[test]
fn invalid_security_scheme_type_in_document() {
    let s = "#%RAML 1.0\ntitle: Some API\nsecuritySchemes:\n  s:\n    type: Token";
    assert_eq!(error_of(parse(s)), "Error parsing security scheme. Unexpected type at line 5 column 11");
}

#[test]
fn later_security_scheme_with_same_name_wins() {
    let s = "#%RAML 1.0\ntitle: Some API\nsecuritySchemes:\n  s:\n    type: OAuth 1.0\n  t:\n    type: Pass Through\n  s:\n    type: x-mine";
    let raml = parse(s).ok().unwrap();
    let schemes = raml.security_schemes().unwrap();
    assert_eq!(schemes.get("s").unwrap().security_type, SecuritySchemeType::XOther("x-mine".to_string()));
    assert_eq!(schemes.get("t").unwrap().security_type, SecuritySchemeType::PassThrough);
    assert!(schemes.get("u").is_none());
}

#[test]
fn unknown_root_key_after_known_ones_fails() {
    let s = "#%RAML 1.0\ntitle: Some API\nversion: v1\nresources: x";
    assert_eq!(error_of(parse(s)),
               "Unexpected field found at the document root: resources at line 4 column 1");
}

#[test]
fn parsing_twice_gives_equal_documents() {
    let s = "#%RAML 1.0\ntitle: Some API\nprotocols: [HTTP]\nmediaType: [a, b]\ndocumentation:\n - title: T\n   content: C\nsecuritySchemes:\n  s:\n    type: OAuth 2.0";
    let a = parse(s).ok().unwrap();
    let b = parse(s).ok().unwrap();
    assert_eq!(a, b);
}

#[test]
fn scan_errors_are_invalid_documents() {
    let e = error_of(parse("#%RAML 1.0\ntitle: 'Some API"));
    assert!(e.starts_with("Invalid document: "), "{}", e);
}

#[test]
fn positions_past_nine_are_written_in_full() {
    let mut s = String::from("#%RAML 1.0\ntitle: Some API\n");
    for _ in 0..10 {
        s.push_str("version: v1\n");
    }
    s.push_str("protocols:           [gopher]");
    assert_eq!(error_of(parse(&s)),
               "Error parsing document root. Unexpected protocol at line 13 column 23");
}

#[test]
fn error_rendering_with_and_without_position() {
    let e = get_error(ErrorDef::MissingProtocols, None);
    assert_eq!(e.error(), "Error parsing document root. Protocols must not be empty");
    let e = get_error(ErrorDef::UnexpectedProtocol, Some(Position { line: 3, col: 12 }));
    assert_eq!(e.error(), "Error parsing document root. Unexpected protocol at line 3 column 13");
    let e = get_error(ErrorDef::MissingField { field: "type".to_string(), level: HierarchyLevel::SecurityScheme },
                      Some(Position { line: 120, col: 0 }));
    assert_eq!(e.error(), "Error parsing security scheme. Missing field: type at line 120 column 1");
    let e = get_error(ErrorDef::UnexpectedEntryMulti {
                          expected: vec![TokenTypeDef::Key, TokenTypeDef::BlockEnd, TokenTypeDef::Anchor],
                          found: TokenTypeDef::VersionDirective,
                      },
                      None);
    assert_eq!(e.error(), "Unexpected entry found. Expected one of Key,Block-End,Ancor, Found Value-Directive");
    let e = get_error(ErrorDef::InvalidDocument { message: "bad".to_string() }, None);
    assert_eq!(e.error(), "Invalid document: bad");
    let e = get_error(ErrorDef::UnexpectedKeyRoot { field: "f".to_string(), level: HierarchyLevel::Documentation }, None);
    assert_eq!(e.error(), "Unexpected field found at the documentation: f");
    let e = get_error(ErrorDef::UnexpectedEntry { expected: TokenTypeDef::Value, found: TokenTypeDef::NoToken }, None);
    assert_eq!(e.error(), "Unexpected entry found. Expected Value, Found No-Token");
    let e = get_error(ErrorDef::MissingRamlVersion, None);
    assert_eq!(e.error(), "Document must start with the following RAML comment line: #%RAML 1.0");
    let e = get_error(ErrorDef::InvalidSecuritySchemeType, None);
    assert_eq!(e.error(), "Error parsing security scheme. Unexpected type");
}

#[test]
fn debug_lists_the_tokens_in_order() {
    let tokens = RamlParser::debug("#%RAML 1.0\ntitle: Some API");
    let kinds: Vec<TokenTypeDef> = tokens.iter().map(|t| t.kind).collect();
    assert_eq!(kinds,
               vec![TokenTypeDef::StreamStart, TokenTypeDef::BlockMappingStart, TokenTypeDef::Key,
                    TokenTypeDef::Scalar, TokenTypeDef::Value, TokenTypeDef::Scalar, TokenTypeDef::BlockEnd,
                    TokenTypeDef::StreamEnd]);
    assert_eq!(tokens[5].value, "Some API");
    assert_eq!(tokens[5].position, Position { line: 2, col: 7 });
}

#[test]
fn security_scheme_names_and_count() {
    let s = "#%RAML 1.0\ntitle: Some API\nsecuritySchemes:\n  b:\n    type: OAuth 1.0\n  a:\n    type: Pass Through\n  b:\n    type: x-b";
    let raml = parse(s).ok().unwrap();
    let schemes = raml.security_schemes().unwrap();
    assert_eq!(schemes.len(), 2);
    assert_eq!(schemes.names(), vec!["b".to_string(), "a".to_string()]);
}

#[test]
fn empty_media_type_sequence_gives_no_media_types() {
    let raml = parse("#%RAML 1.0\ntitle: Some API\nmediaType: []").ok().unwrap();
    assert_eq!(raml.media_types(), Some(Vec::<String>::new()));
}

#[test]
fn protocols_keep_their_order() {
    let raml = parse("#%RAML 1.0\ntitle: Some API\nprotocols: [HTTPS, Http, https]").ok().unwrap();
    assert_eq!(raml.protocols().unwrap(), vec![Protocol::Https, Protocol::Http, Protocol::Https]);
}
