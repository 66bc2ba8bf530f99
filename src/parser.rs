use vstd::prelude::*;
use crate::entries::{
    assoc_insert, assoc_map, find_key, insert_entry, keys_unique, lemma_insert_keeps_keys_unique,
    key_index, lemma_assoc_map_contains, lemma_assoc_map_domain, lemma_key_index_from_bounds, pairs_view,
};
use crate::error_definitions::{
    get_error, render, ErrorCause, ErrorDef, Failure, FailureView, HierarchyLevel, RamlError,
};
use crate::text::{first_line, first_line_chars, lower_of, lowercase, slice_equals, str_eq, trim, trim_bounds};
use crate::token_type_definitions::TokenTypeDef;
use crate::tokens::{scan, yaml_scan, ScanView, Token, TokenView};
use crate::yaml::{
    blocks_view, exhausted, flow_view, get_multiple_sets_of_values, get_multiple_values,
    get_single_or_multiple_values, get_single_value, lemma_values_advance, result_view, spec_expect,
    spec_multiple_sets_of_values, spec_multiple_values, spec_single_or_multiple_values, spec_single_value,
    step_outcome, unexpected, unexpected_entry, BlockSequenceEntries, BlockView, EntryView, ForwardCursor,
};

verus! {

/// The protocols an API may be served over.
#[derive(Debug, Clone, Copy, PartialEq, Eq, Structural)]
pub enum Protocol {
    Http,
    Https,
}

/// One entry of a document's documentation.
#[derive(Debug, PartialEq)]
pub struct RamlDocumentation {
    title: String,
    content: String,
}

/// The mathematical value of a documentation entry.
pub struct DocView {
    pub title: Seq<char>,
    pub content: Seq<char>,
}

impl View for RamlDocumentation {
    type V = DocView;

    closed spec fn view(&self) -> DocView {
        DocView { title: self.title@, content: self.content@ }
    }
}

/// The kinds of security scheme.
#[derive(Debug, PartialEq)]
pub enum SecuritySchemeType {
    OAuth1,
    OAuth2,
    BasicAuthentication,
    DigestAuthentication,
    PassThrough,
    /// A kind of the author's own, named in lower case and starting with "x-".
    XOther(String),
}

/// The mathematical value of a security scheme kind.
pub enum SchemeKind {
    OAuth1,
    OAuth2,
    BasicAuthentication,
    DigestAuthentication,
    PassThrough,
    XOther(Seq<char>),
}

impl View for SecuritySchemeType {
    type V = SchemeKind;

    open spec fn view(&self) -> SchemeKind {
        match self {
            SecuritySchemeType::OAuth1 => SchemeKind::OAuth1,
            SecuritySchemeType::OAuth2 => SchemeKind::OAuth2,
            SecuritySchemeType::BasicAuthentication => SchemeKind::BasicAuthentication,
            SecuritySchemeType::DigestAuthentication => SchemeKind::DigestAuthentication,
            SecuritySchemeType::PassThrough => SchemeKind::PassThrough,
            SecuritySchemeType::XOther(s) => SchemeKind::XOther(s@),
        }
    }
}

/// A named way of authenticating.
#[derive(Debug, PartialEq)]
pub struct SecurityScheme {
    pub security_type: SecuritySchemeType,
    pub display_name: Option<String>,
    pub description: Option<String>,
}

/// The mathematical value of a security scheme.
pub struct SchemeView {
    pub security_type: SchemeKind,
    pub display_name: Option<Seq<char>>,
    pub description: Option<Seq<char>>,
}

/// The view of an optional text.
pub open spec fn opt_view(o: Option<String>) -> Option<Seq<char>> {
    match o {
        Some(s) => Some(s@),
        None => None,
    }
}

impl View for SecurityScheme {
    type V = SchemeView;

    open spec fn view(&self) -> SchemeView {
        SchemeView {
            security_type: self.security_type@,
            display_name: opt_view(self.display_name),
            description: opt_view(self.description),
        }
    }
}

/// Security schemes by name; no name occurs twice.
#[derive(Debug, PartialEq)]
pub struct SecuritySchemes {
    entries: Vec<(String, SecurityScheme)>,
}

impl View for SecuritySchemes {
    type V = Map<Seq<char>, SchemeView>;

    closed spec fn view(&self) -> Map<Seq<char>, SchemeView> {
        assoc_map(pairs_view(self.entries@))
    }
}

impl SecuritySchemes {
    /// The names with their schemes, in the order the names first occurred.
    pub closed spec fn pairs(&self) -> Seq<(Seq<char>, SchemeView)> {
        pairs_view(self.entries@)
    }

    #[verifier::type_invariant]
    spec fn keys_are_unique(&self) -> bool {
        keys_unique(pairs_view(self.entries@))
    }

    /// The number of schemes.
    pub fn len(&self) -> (r: usize)
        ensures
            r == self@.len(),
            self@.dom().finite(),
    {
        proof {
            use_type_invariant(self);
            lemma_assoc_map_domain(pairs_view(self.entries@));
        }
        self.entries.len()
    }

    /// The names of the schemes, each once, in the order they first occurred.
    pub fn names(&self) -> (r: Vec<String>)
        ensures
            r@.len() == self@.len(),
            forall|i: int| 0 <= i < r@.len() ==> self@.contains_key(#[trigger] r@[i]@),
            forall|i: int, j: int| 0 <= i < j < r@.len() ==> r@[i]@ != r@[j]@,
            forall|k: Seq<char>| #[trigger] self@.contains_key(k) ==> exists|i: int| 0 <= i < r@.len() && r@[i]@ == k,
    {
        let ghost m = pairs_view(self.entries@);
        proof {
            use_type_invariant(self);
            lemma_assoc_map_domain(m);
        }
        let mut r: Vec<String> = Vec::new();
        let mut i: usize = 0;
        while i < self.entries.len()
            invariant
                i <= self.entries.len(),
                m == pairs_view(self.entries@),
                r@.len() == i,
                forall|j: int| 0 <= j < i ==> #[trigger] r@[j]@ == m[j].0,
            decreases self.entries.len() - i,
        {
            r.push(self.entries[i].0.clone());
            i = i + 1;
        }
        assert forall|j: int| 0 <= j < r@.len() implies self@.contains_key(#[trigger] r@[j]@) by {
            lemma_assoc_map_contains(m, j);
        }
        assert forall|k: Seq<char>| #[trigger] self@.contains_key(k) implies exists|j: int| 0 <= j < r@.len() && r@[j]@ == k by {
            lemma_key_index_from_bounds(m, k, 0);
            assert(r@[key_index(m, k)]@ == k);
        }
        r
    }

    /// The mapping is the one its ordered pairs stand for.
    pub proof fn lemma_view(&self)
        ensures
            self@ == assoc_map(self.pairs()),
    {
    }

    /// The scheme named `name`, if there is one.
    pub fn get(&self, name: &str) -> (r: Option<&SecurityScheme>)
        ensures
            match r {
                Some(s) => self@.contains_key(name@) && self@[name@] == s@,
                None => !self@.contains_key(name@),
            },
    {
        let key = String::from_str(name);
        let i = find_key(&self.entries, &key);
        proof {
            lemma_key_index_from_bounds(pairs_view(self.entries@), name@, 0);
        }
        if i < self.entries.len() {
            Some(&self.entries[i].1)
        } else {
            None
        }
    }
}

/// What parsing a text gives.
pub type RamlResult = Result<Raml, RamlError>;

/// A parsed document.
#[derive(Debug, PartialEq)]
pub struct Raml {
    title: String,
    version: Option<String>,
    description: Option<String>,
    base_uri: Option<String>,
    protocols: Option<Vec<Protocol>>,
    media_types: Option<Vec<String>>,
    documentation: Option<Vec<RamlDocumentation>>,
    security_schemes: Option<SecuritySchemes>,
}

/// The mathematical value of a document.
pub struct RamlView {
    pub title: Seq<char>,
    pub version: Option<Seq<char>>,
    pub description: Option<Seq<char>>,
    pub base_uri: Option<Seq<char>>,
    pub protocols: Option<Seq<Protocol>>,
    pub media_types: Option<Seq<Seq<char>>>,
    pub documentation: Option<Seq<DocView>>,
    pub security_schemes: Option<Map<Seq<char>, SchemeView>>,
}

/// The views of texts.
pub open spec fn texts_view(v: Seq<String>) -> Seq<Seq<char>> {
    v.map_values(|s: String| s@)
}

/// The views of documentation entries.
pub open spec fn docs_view(v: Seq<RamlDocumentation>) -> Seq<DocView> {
    v.map_values(|d: RamlDocumentation| d@)
}

/// The view of an optional list of texts.
pub open spec fn opt_texts_view(o: Option<Vec<String>>) -> Option<Seq<Seq<char>>> {
    match o {
        Some(v) => Some(texts_view(v@)),
        None => None,
    }
}

/// The view of an optional list of protocols.
pub open spec fn opt_protocols_view(o: Option<Vec<Protocol>>) -> Option<Seq<Protocol>> {
    match o {
        Some(v) => Some(v@),
        None => None,
    }
}

/// The view of an optional list of documentation entries.
pub open spec fn opt_docs_view(o: Option<Vec<RamlDocumentation>>) -> Option<Seq<DocView>> {
    match o {
        Some(v) => Some(docs_view(v@)),
        None => None,
    }
}

/// The view of an optional set of security schemes.
pub open spec fn opt_schemes_view(o: Option<SecuritySchemes>) -> Option<Map<Seq<char>, SchemeView>> {
    match o {
        Some(v) => Some(v@),
        None => None,
    }
}

impl View for Raml {
    type V = RamlView;

    closed spec fn view(&self) -> RamlView {
        RamlView {
            title: self.title@,
            version: opt_view(self.version),
            description: opt_view(self.description),
            base_uri: opt_view(self.base_uri),
            protocols: opt_protocols_view(self.protocols),
            media_types: opt_texts_view(self.media_types),
            documentation: opt_docs_view(self.documentation),
            security_schemes: opt_schemes_view(self.security_schemes),
        }
    }
}

/// The fields of a document, for building one.
pub struct RamlArgs {
    pub title: String,
    pub version: Option<String>,
    pub description: Option<String>,
    pub base_uri: Option<String>,
    pub protocols: Option<Vec<Protocol>>,
    pub media_types: Option<Vec<String>>,
    pub documentation: Option<Vec<RamlDocumentation>>,
    pub security_schemes: Option<SecuritySchemes>,
}

impl View for RamlArgs {
    type V = RamlView;

    open spec fn view(&self) -> RamlView {
        RamlView {
            title: self.title@,
            version: opt_view(self.version),
            description: opt_view(self.description),
            base_uri: opt_view(self.base_uri),
            protocols: opt_protocols_view(self.protocols),
            media_types: opt_texts_view(self.media_types),
            documentation: opt_docs_view(self.documentation),
            security_schemes: opt_schemes_view(self.security_schemes),
        }
    }
}

/// The fields of the document root seen so far.
pub struct RootFields {
    pub title: Option<Seq<char>>,
    pub version: Option<Seq<char>>,
    pub description: Option<Seq<char>>,
    pub base_uri: Option<Seq<char>>,
    pub protocols: Option<Seq<Protocol>>,
    pub media_types: Option<Seq<Seq<char>>>,
    pub documentation: Option<Seq<DocView>>,
    pub security_schemes: Option<Map<Seq<char>, SchemeView>>,
}

/// No field seen yet.
pub open spec fn no_root_fields() -> RootFields {
    RootFields {
        title: None,
        version: None,
        description: None,
        base_uri: None,
        protocols: None,
        media_types: None,
        documentation: None,
        security_schemes: None,
    }
}

/// The document made of the fields seen, once the title is among them.
pub open spec fn finished(b: RootFields) -> RamlView {
    RamlView {
        title: b.title->Some_0,
        version: b.version,
        description: b.description,
        base_uri: b.base_uri,
        protocols: b.protocols,
        media_types: b.media_types,
        documentation: b.documentation,
        security_schemes: b.security_schemes,
    }
}

/// The protocol a lower-case name stands for.
pub open spec fn protocol_of(lower: Seq<char>) -> Option<Protocol> {
    if lower == "http"@ {
        Some(Protocol::Http)
    } else if lower == "https"@ {
        Some(Protocol::Https)
    } else {
        None
    }
}

/// The protocols of the entries from `i` on, after `acc`; the first entry
/// that names none fails.
pub open spec fn protocols_from(es: Seq<EntryView>, i: int, acc: Seq<Protocol>) -> Result<Seq<Protocol>, FailureView>
    decreases es.len() - i,
{
    if 0 <= i < es.len() {
        match protocol_of(lower_of(es[i].value)) {
            Some(p) => protocols_from(es, i + 1, acc.push(p)),
            None => Err(FailureView { cause: ErrorCause::UnexpectedProtocol, position: Some(es[i].position) }),
        }
    } else {
        Ok(acc)
    }
}

/// Reads the value of `protocols`: a non-empty flow sequence of protocol names.
pub open spec fn spec_protocols(s: ScanView, pos: int) -> Result<(Seq<Protocol>, int), FailureView> {
    match spec_multiple_values(s, pos) {
        Err(f) => Err(f),
        Ok((es, p)) => if es.len() == 0 {
            Err(FailureView { cause: ErrorCause::MissingProtocols, position: None })
        } else {
            match protocols_from(es, 0, Seq::empty()) {
                Err(f) => Err(f),
                Ok(ps) => Ok((ps, p)),
            }
        },
    }
}

/// Reads the value of `mediaType`: one media type or a flow sequence of them.
pub open spec fn spec_media_types(s: ScanView, pos: int) -> Result<(Seq<Seq<char>>, int), FailureView> {
    match spec_single_or_multiple_values(s, pos) {
        Err(f) => Err(f),
        Ok((es, p)) => Ok((es.map_values(|e: EntryView| e.value), p)),
    }
}

/// The documentation entry of a block from its pair `i` on, with the title
/// and content seen before it.
pub open spec fn doc_from(block: BlockView, i: int, title: Option<Seq<char>>, content: Option<Seq<char>>) -> Result<DocView, FailureView>
    decreases block.len() - i,
{
    if 0 <= i < block.len() {
        let key = block[i].0;
        let entry = block[i].1;
        if key == "title"@ {
            doc_from(block, i + 1, Some(entry.value), content)
        } else if key == "content"@ {
            doc_from(block, i + 1, title, Some(entry.value))
        } else {
            Err(FailureView {
                cause: ErrorCause::UnexpectedKeyRoot { field: key, level: HierarchyLevel::Documentation },
                position: Some(entry.position),
            })
        }
    } else if title is None {
        Err(FailureView {
            cause: ErrorCause::MissingField { field: "title"@, level: HierarchyLevel::Documentation },
            position: None,
        })
    } else if content is None {
        Err(FailureView {
            cause: ErrorCause::MissingField { field: "content"@, level: HierarchyLevel::Documentation },
            position: None,
        })
    } else {
        Ok(DocView { title: title->Some_0, content: content->Some_0 })
    }
}

/// The documentation entry a block of pairs stands for.
pub open spec fn doc_of(block: BlockView) -> Result<DocView, FailureView> {
    doc_from(block, 0, None, None)
}

/// The documentation entries of the blocks from `i` on, after `acc`.
pub open spec fn docs_from(blocks: Seq<BlockView>, i: int, acc: Seq<DocView>) -> Result<Seq<DocView>, FailureView>
    decreases blocks.len() - i,
{
    if 0 <= i < blocks.len() {
        match doc_of(blocks[i]) {
            Err(f) => Err(f),
            Ok(d) => docs_from(blocks, i + 1, acc.push(d)),
        }
    } else {
        Ok(acc)
    }
}

/// Reads the value of `documentation`: a block sequence of title and content pairs.
pub open spec fn spec_documentation(s: ScanView, pos: int) -> Result<(Seq<DocView>, int), FailureView> {
    match spec_multiple_sets_of_values(s, pos) {
        Err(f) => Err(f),
        Ok((blocks, p)) => match docs_from(blocks, 0, Seq::empty()) {
            Err(f) => Err(f),
            Ok(d) => Ok((d, p)),
        },
    }
}

/// The scheme kind a lower-case type name stands for.
pub open spec fn scheme_kind_of(lower: Seq<char>) -> Option<SchemeKind> {
    if lower == "oauth 1.0"@ {
        Some(SchemeKind::OAuth1)
    } else if lower == "oauth 2.0"@ {
        Some(SchemeKind::OAuth2)
    } else if lower == "basic authentication"@ {
        Some(SchemeKind::BasicAuthentication)
    } else if lower == "digest authentication"@ {
        Some(SchemeKind::DigestAuthentication)
    } else if lower == "pass through"@ {
        Some(SchemeKind::PassThrough)
    } else if lower.len() >= 2 && lower[0] == 'x' && lower[1] == '-' {
        Some(SchemeKind::XOther(lower))
    } else {
        None
    }
}

/// The fields of a security scheme seen so far.
pub struct SchemeFields {
    pub security_type: Option<SchemeKind>,
    pub display_name: Option<Seq<char>>,
    pub description: Option<Seq<char>>,
}

/// Reads the rest of a security scheme's block mapping, with the fields seen so far.
pub open spec fn spec_security_scheme_from(s: ScanView, pos: int, b: SchemeFields) -> Result<(SchemeView, int), FailureView>
    decreases s.tokens.len() - pos,
{
    if 0 <= pos < s.tokens.len() {
        let t = s.tokens[pos];
        if t.kind == TokenTypeDef::Key {
            if 0 <= pos + 1 < s.tokens.len() {
                let k = s.tokens[pos + 1];
                if k.kind != TokenTypeDef::Scalar {
                    Err(unexpected(TokenTypeDef::Scalar, k))
                } else if k.value == "type"@ {
                    match spec_single_value(s, pos + 2) {
                        Err(f) => Err(f),
                        Ok((v, q)) => match scheme_kind_of(lower_of(v)) {
                            None => Err(FailureView {
                                cause: ErrorCause::InvalidSecuritySchemeType,
                                position: Some(s.tokens[pos + 3].position),
                            }),
                            Some(kind) => spec_security_scheme_from(s, q, SchemeFields { security_type: Some(kind), ..b }),
                        },
                    }
                } else if k.value == "displayName"@ {
                    match spec_single_value(s, pos + 2) {
                        Err(f) => Err(f),
                        Ok((v, q)) => spec_security_scheme_from(s, q, SchemeFields { display_name: Some(v), ..b }),
                    }
                } else if k.value == "description"@ {
                    match spec_single_value(s, pos + 2) {
                        Err(f) => Err(f),
                        Ok((v, q)) => spec_security_scheme_from(s, q, SchemeFields { description: Some(v), ..b }),
                    }
                } else {
                    Err(FailureView {
                        cause: ErrorCause::UnexpectedKeyRoot { field: k.value, level: HierarchyLevel::SecurityScheme },
                        position: Some(k.position),
                    })
                }
            } else {
                Err(exhausted(s))
            }
        } else if t.kind == TokenTypeDef::BlockEnd {
            match b.security_type {
                None => Err(FailureView {
                    cause: ErrorCause::MissingField { field: "type"@, level: HierarchyLevel::SecurityScheme },
                    position: None,
                }),
                Some(kind) => Ok((
                    SchemeView { security_type: kind, display_name: b.display_name, description: b.description },
                    pos + 1,
                )),
            }
        } else {
            Err(unexpected(TokenTypeDef::Key, t))
        }
    } else {
        Err(exhausted(s))
    }
}

/// Reads one security scheme: a value marker and a block mapping of its fields.
pub open spec fn spec_security_scheme(s: ScanView, pos: int) -> Result<(SchemeView, int), FailureView> {
    match spec_expect(s, pos, TokenTypeDef::Value) {
        Err(f) => Err(f),
        Ok((_, p)) => match spec_expect(s, p, TokenTypeDef::BlockMappingStart) {
            Err(f) => Err(f),
            Ok((_, q)) => spec_security_scheme_from(
                s,
                q,
                SchemeFields { security_type: None, display_name: None, description: None },
            ),
        },
    }
}

/// Reading the rest of a security scheme consumes at least one token.
pub proof fn lemma_security_scheme_from_advances(s: ScanView, pos: int, b: SchemeFields)
    ensures
        spec_security_scheme_from(s, pos, b) matches Ok((_, q)) ==> pos < q <= s.tokens.len(),
    decreases s.tokens.len() - pos,
{
    if 0 <= pos < s.tokens.len() && s.tokens[pos].kind == TokenTypeDef::Key && 0 <= pos + 1 < s.tokens.len() {
        let k = s.tokens[pos + 1];
        if k.kind == TokenTypeDef::Scalar {
            match spec_single_value(s, pos + 2) {
                Err(f) => {},
                Ok((v, q)) => {
                    if k.value == "type"@ {
                        match scheme_kind_of(lower_of(v)) {
                            None => {},
                            Some(kind) => lemma_security_scheme_from_advances(s, q, SchemeFields { security_type: Some(kind), ..b }),
                        }
                    } else if k.value == "displayName"@ {
                        lemma_security_scheme_from_advances(s, q, SchemeFields { display_name: Some(v), ..b });
                    } else if k.value == "description"@ {
                        lemma_security_scheme_from_advances(s, q, SchemeFields { description: Some(v), ..b });
                    }
                },
            }
        }
    }
}

/// Reading a security scheme consumes at least one token.
pub proof fn lemma_security_scheme_advances(s: ScanView, pos: int)
    ensures
        spec_security_scheme(s, pos) matches Ok((_, q)) ==> pos < q <= s.tokens.len(),
{
    lemma_security_scheme_from_advances(s, pos + 2, SchemeFields { security_type: None, display_name: None, description: None });
}

/// Reads the rest of the block mapping of security schemes, after `acc`; a
/// name that occurs again replaces the earlier scheme.
pub open spec fn spec_security_schemes_from(s: ScanView, pos: int, acc: Seq<(Seq<char>, SchemeView)>) -> Result<(Seq<(Seq<char>, SchemeView)>, int), FailureView>
    decreases s.tokens.len() - pos,
{
    if 0 <= pos < s.tokens.len() {
        let t = s.tokens[pos];
        if t.kind == TokenTypeDef::Key {
            if 0 <= pos + 1 < s.tokens.len() {
                let k = s.tokens[pos + 1];
                if k.kind == TokenTypeDef::Scalar {
                    proof {
                        lemma_security_scheme_advances(s, pos + 2);
                    }
                    match spec_security_scheme(s, pos + 2) {
                        Err(f) => Err(f),
                        Ok((scheme, q)) => spec_security_schemes_from(s, q, assoc_insert(acc, k.value, scheme)),
                    }
                } else {
                    Err(unexpected(TokenTypeDef::Scalar, k))
                }
            } else {
                Err(exhausted(s))
            }
        } else if t.kind == TokenTypeDef::BlockEnd {
            Ok((acc, pos + 1))
        } else {
            Err(unexpected(TokenTypeDef::Key, t))
        }
    } else {
        Err(exhausted(s))
    }
}

/// Reads the value of `securitySchemes`: a block mapping from names to schemes.
pub open spec fn spec_security_schemes(s: ScanView, pos: int) -> Result<(Seq<(Seq<char>, SchemeView)>, int), FailureView> {
    match spec_expect(s, pos, TokenTypeDef::Value) {
        Err(f) => Err(f),
        Ok((_, p)) => match spec_expect(s, p, TokenTypeDef::BlockMappingStart) {
            Err(f) => Err(f),
            Ok((_, q)) => spec_security_schemes_from(s, q, Seq::empty()),
        },
    }
}

/// Reading the rest of the security schemes consumes at least one token.
pub proof fn lemma_security_schemes_advances(s: ScanView, pos: int, acc: Seq<(Seq<char>, SchemeView)>)
    ensures
        spec_security_schemes_from(s, pos, acc) matches Ok((_, q)) ==> pos < q <= s.tokens.len(),
    decreases s.tokens.len() - pos,
{
    if 0 <= pos < s.tokens.len() && s.tokens[pos].kind == TokenTypeDef::Key && 0 <= pos + 1 < s.tokens.len() {
        let k = s.tokens[pos + 1];
        if k.kind == TokenTypeDef::Scalar {
            lemma_security_scheme_advances(s, pos + 2);
            match spec_security_scheme(s, pos + 2) {
                Err(f) => {},
                Ok((scheme, q)) => lemma_security_schemes_advances(s, q, assoc_insert(acc, k.value, scheme)),
            }
        }
    }
}

/// Reads the value of the document-root key `k`, the token before `pos`,
/// into the fields seen so far.
pub open spec fn spec_root_field(s: ScanView, pos: int, k: TokenView, b: RootFields) -> Result<(RootFields, int), FailureView> {
    if k.value == "title"@ {
        match spec_single_value(s, pos) {
            Err(f) => Err(f),
            Ok((v, q)) => Ok((RootFields { title: Some(v), ..b }, q)),
        }
    } else if k.value == "version"@ {
        match spec_single_value(s, pos) {
            Err(f) => Err(f),
            Ok((v, q)) => Ok((RootFields { version: Some(v), ..b }, q)),
        }
    } else if k.value == "description"@ {
        match spec_single_value(s, pos) {
            Err(f) => Err(f),
            Ok((v, q)) => Ok((RootFields { description: Some(v), ..b }, q)),
        }
    } else if k.value == "baseUri"@ {
        match spec_single_value(s, pos) {
            Err(f) => Err(f),
            Ok((v, q)) => Ok((RootFields { base_uri: Some(v), ..b }, q)),
        }
    } else if k.value == "protocols"@ {
        match spec_protocols(s, pos) {
            Err(f) => Err(f),
            Ok((v, q)) => Ok((RootFields { protocols: Some(v), ..b }, q)),
        }
    } else if k.value == "mediaType"@ {
        match spec_media_types(s, pos) {
            Err(f) => Err(f),
            Ok((v, q)) => Ok((RootFields { media_types: Some(v), ..b }, q)),
        }
    } else if k.value == "documentation"@ {
        match spec_documentation(s, pos) {
            Err(f) => Err(f),
            Ok((v, q)) => Ok((RootFields { documentation: Some(v), ..b }, q)),
        }
    } else if k.value == "securitySchemes"@ {
        match spec_security_schemes(s, pos) {
            Err(f) => Err(f),
            Ok((v, q)) => Ok((RootFields { security_schemes: Some(assoc_map(v)), ..b }, q)),
        }
    } else {
        Err(FailureView {
            cause: ErrorCause::UnexpectedKeyRoot { field: k.value, level: HierarchyLevel::DocumentRoot },
            position: Some(k.position),
        })
    }
}

/// Reading the value of a document-root key consumes at least one token.
pub proof fn lemma_root_field_advances(s: ScanView, pos: int, k: TokenView, b: RootFields)
    ensures
        spec_root_field(s, pos, k, b) matches Ok((_, q)) ==> pos < q <= s.tokens.len(),
{
    lemma_values_advance(s, pos);
    lemma_security_schemes_advances(s, pos + 2, Seq::empty());
}

/// Reads the rest of the document root's block mapping, with the fields seen so far.
pub open spec fn spec_root_from(s: ScanView, pos: int, b: RootFields) -> Result<(RamlView, int), FailureView>
    decreases s.tokens.len() - pos,
{
    if 0 <= pos < s.tokens.len() {
        let t = s.tokens[pos];
        if t.kind == TokenTypeDef::Key {
            if 0 <= pos + 1 < s.tokens.len() {
                let k = s.tokens[pos + 1];
                if k.kind == TokenTypeDef::Scalar {
                    proof {
                        lemma_root_field_advances(s, pos + 2, k, b);
                    }
                    match spec_root_field(s, pos + 2, k, b) {
                        Err(f) => Err(f),
                        Ok((b2, q)) => spec_root_from(s, q, b2),
                    }
                } else {
                    Err(unexpected(TokenTypeDef::Scalar, k))
                }
            } else {
                Err(exhausted(s))
            }
        } else if t.kind == TokenTypeDef::BlockEnd {
            if b.title is None {
                Err(FailureView {
                    cause: ErrorCause::MissingField { field: "title"@, level: HierarchyLevel::DocumentRoot },
                    position: None,
                })
            } else {
                Ok((finished(b), pos + 1))
            }
        } else {
            Err(unexpected(TokenTypeDef::Key, t))
        }
    } else {
        Err(exhausted(s))
    }
}

/// The failure of a document root without a title.
pub open spec fn missing_root_title() -> FailureView {
    FailureView {
        cause: ErrorCause::MissingField { field: "title"@, level: HierarchyLevel::DocumentRoot },
        position: None,
    }
}

/// The document the tokens of a text stand for: a stream holding one block
/// mapping of known keys, among them the title. A stream that ends right
/// after it starts has an empty body, and so no title.
pub open spec fn spec_parse_root(s: ScanView) -> Result<RamlView, FailureView> {
    match spec_expect(s, 0, TokenTypeDef::StreamStart) {
        Err(f) => Err(f),
        Ok((_, p)) => if 0 <= p < s.tokens.len() && s.tokens[p].kind == TokenTypeDef::StreamEnd {
            Err(missing_root_title())
        } else {
            match spec_expect(s, p, TokenTypeDef::BlockMappingStart) {
            Err(f) => Err(f),
            Ok((_, q)) => match spec_root_from(s, q, no_root_fields()) {
                Err(f) => Err(f),
                Ok((r, _)) => Ok(r),
            },
        }
        },
    }
}

/// The first line of the text, without surrounding white space, is the
/// version marker.
pub open spec fn has_marker_line(source: Seq<char>) -> bool {
    trim(first_line(source)) == "#%RAML 1.0"@
}

/// The document a text stands for, or why it stands for none.
pub open spec fn spec_load(source: Seq<char>) -> Result<RamlView, FailureView> {
    if !has_marker_line(source) {
        Err(FailureView { cause: ErrorCause::MissingRamlVersion, position: None })
    } else {
        spec_parse_root(yaml_scan(source))
    }
}

impl RamlDocumentation {
    pub fn new(title: String, content: String) -> (r: RamlDocumentation)
        ensures
            r@ == (DocView { title: title@, content: content@ }),
    {
        RamlDocumentation { title, content }
    }

    pub fn title(&self) -> (r: &str)
        ensures
            r@ == self@.title,
    {
        self.title.as_str()
    }

    pub fn content(&self) -> (r: &str)
        ensures
            r@ == self@.content,
    {
        self.content.as_str()
    }
}

impl Raml {
    pub fn new(args: RamlArgs) -> (r: Raml)
        ensures
            r@ == args@,
    {
        Raml {
            title: args.title,
            version: args.version,
            description: args.description,
            base_uri: args.base_uri,
            protocols: args.protocols,
            media_types: args.media_types,
            documentation: args.documentation,
            security_schemes: args.security_schemes,
        }
    }

    pub fn title(&self) -> (r: &str)
        ensures
            r@ == self@.title,
    {
        self.title.as_str()
    }

    pub fn version(self) -> (r: Option<String>)
        ensures
            opt_view(r) == self@.version,
    {
        self.version
    }

    pub fn description(self) -> (r: Option<String>)
        ensures
            opt_view(r) == self@.description,
    {
        self.description
    }

    pub fn base_uri(self) -> (r: Option<String>)
        ensures
            opt_view(r) == self@.base_uri,
    {
        self.base_uri
    }

    pub fn protocols(self) -> (r: Option<Vec<Protocol>>)
        ensures
            opt_protocols_view(r) == self@.protocols,
    {
        self.protocols
    }

    pub fn media_types(self) -> (r: Option<Vec<String>>)
        ensures
            opt_texts_view(r) == self@.media_types,
    {
        self.media_types
    }

    pub fn documentation(self) -> (r: Option<Vec<RamlDocumentation>>)
        ensures
            opt_docs_view(r) == self@.documentation,
    {
        self.documentation
    }

    pub fn security_schemes(self) -> (r: Option<SecuritySchemes>)
        ensures
            opt_schemes_view(r) == self@.security_schemes,
    {
        self.security_schemes
    }
}

/// The protocol a lower-case name stands for, if any.
pub fn protocol_from_lowercase(lower: &str) -> (r: Option<Protocol>)
    ensures
        r == protocol_of(lower@),
{
    if str_eq(lower, "http") {
        Some(Protocol::Http)
    } else if str_eq(lower, "https") {
        Some(Protocol::Https)
    } else {
        None
    }
}

/// Reads the value of `protocols`: a non-empty flow sequence of protocol
/// names, matched without regard to case.
pub fn get_protocols(cursor: &mut ForwardCursor) -> (r: Result<Vec<Protocol>, Failure>)
    requires
        old(cursor).wf(),
    ensures
        final(cursor).wf(),
        final(cursor).stream() == old(cursor).stream(),
        step_outcome(
            result_view(r, |v: Vec<Protocol>| v@),
            final(cursor).pos(),
            spec_protocols(old(cursor).stream(), old(cursor).pos()),
        ),
{
    let entries = match get_multiple_values(cursor) {
        Ok(e) => e,
        Err(e) => return Err(e),
    };
    if entries.len() == 0 {
        return Err(Failure { cause: ErrorDef::MissingProtocols, position: None });
    }
    let ghost es = flow_view(entries@);
    let mut protocols: Vec<Protocol> = Vec::new();
    let mut i: usize = 0;
    #[verifier::loop_isolation(false)]
    while i < entries.len()
        invariant
            i <= entries.len(),
            es == flow_view(entries@),
            protocols_from(es, i as int, protocols@) == protocols_from(es, 0, Seq::empty()),
        decreases entries.len() - i,
    {
        let lower = lowercase(entries[i].value.as_str());
        match protocol_from_lowercase(lower.as_str()) {
            Some(p) => protocols.push(p),
            None => {
                return Err(Failure { cause: ErrorDef::UnexpectedProtocol, position: Some(entries[i].position) });
            },
        }
        i = i + 1;
    }
    Ok(protocols)
}

/// Reads the value of `mediaType`: one media type or a flow sequence of them.
pub fn get_media_types(cursor: &mut ForwardCursor) -> (r: Result<Vec<String>, Failure>)
    requires
        old(cursor).wf(),
    ensures
        final(cursor).wf(),
        final(cursor).stream() == old(cursor).stream(),
        step_outcome(
            result_view(r, |v: Vec<String>| texts_view(v@)),
            final(cursor).pos(),
            spec_media_types(old(cursor).stream(), old(cursor).pos()),
        ),
{
    let entries = match get_single_or_multiple_values(cursor) {
        Ok(e) => e,
        Err(e) => return Err(e),
    };
    let ghost es = flow_view(entries@);
    let mut media_types: Vec<String> = Vec::new();
    let mut i: usize = 0;
    #[verifier::loop_isolation(false)]
    while i < entries.len()
        invariant
            i <= entries.len(),
            es == flow_view(entries@),
            media_types@.len() == i,
            forall|j: int| 0 <= j < i ==> media_types@[j]@ == es[j].value,
        decreases entries.len() - i,
    {
        media_types.push(entries[i].value.clone());
        i = i + 1;
    }
    assert(texts_view(media_types@) =~= es.map_values(|e: EntryView| e.value));
    Ok(media_types)
}

/// The documentation entry that one block of pairs stands for: it holds a
/// title and a content and no other key.
pub fn documentation_entry(block: &BlockSequenceEntries) -> (r: Result<RamlDocumentation, Failure>)
    ensures
        result_view(r, |d: RamlDocumentation| d@) == doc_of(pairs_view(block@)),
{
    let ghost m = pairs_view(block@);
    let mut title: Option<String> = None;
    let mut content: Option<String> = None;
    let mut i: usize = 0;
    while i < block.len()
        invariant
            i <= block.len(),
            m == pairs_view(block@),
            doc_from(m, i as int, opt_view(title), opt_view(content)) == doc_of(m),
        decreases block.len() - i,
    {
        let key = &block[i].0;
        let entry = &block[i].1;
        if str_eq(key.as_str(), "title") {
            title = Some(entry.value.clone());
        } else if str_eq(key.as_str(), "content") {
            content = Some(entry.value.clone());
        } else {
            return Err(Failure {
                cause: ErrorDef::UnexpectedKeyRoot { field: key.clone(), level: HierarchyLevel::Documentation },
                position: Some(entry.position),
            });
        }
        i = i + 1;
    }
    match title {
        None => Err(Failure {
            cause: ErrorDef::MissingField { field: String::from_str("title"), level: HierarchyLevel::Documentation },
            position: None,
        }),
        Some(t) => match content {
            None => Err(Failure {
                cause: ErrorDef::MissingField {
                    field: String::from_str("content"),
                    level: HierarchyLevel::Documentation,
                },
                position: None,
            }),
            Some(c) => Ok(RamlDocumentation::new(t, c)),
        },
    }
}

/// Reads the value of `documentation`: a block sequence of title and content pairs.
pub fn get_documentation(cursor: &mut ForwardCursor) -> (r: Result<Vec<RamlDocumentation>, Failure>)
    requires
        old(cursor).wf(),
    ensures
        final(cursor).wf(),
        final(cursor).stream() == old(cursor).stream(),
        step_outcome(
            result_view(r, |v: Vec<RamlDocumentation>| docs_view(v@)),
            final(cursor).pos(),
            spec_documentation(old(cursor).stream(), old(cursor).pos()),
        ),
{
    let blocks = match get_multiple_sets_of_values(cursor) {
        Ok(b) => b,
        Err(e) => return Err(e),
    };
    let ghost bs = blocks_view(blocks@);
    let mut result: Vec<RamlDocumentation> = Vec::new();
    assert(docs_view(result@) =~= Seq::empty());
    let mut i: usize = 0;
    #[verifier::loop_isolation(false)]
    while i < blocks.len()
        invariant
            i <= blocks.len(),
            bs == blocks_view(blocks@),
            docs_from(bs, i as int, docs_view(result@)) == docs_from(bs, 0, Seq::empty()),
        decreases blocks.len() - i,
    {
        let d = match documentation_entry(&blocks[i]) {
            Ok(d) => d,
            Err(e) => return Err(e),
        };
        let ghost before = docs_view(result@);
        let ghost dv = d@;
        result.push(d);
        assert(docs_view(result@) =~= before.push(dv));
        i = i + 1;
    }
    Ok(result)
}

/// The view of an optional scheme kind.
pub open spec fn opt_kind_view(o: Option<SecuritySchemeType>) -> Option<SchemeKind> {
    match o {
        Some(t) => Some(t@),
        None => None,
    }
}

impl SecuritySchemeType {
    /// The scheme kind a lower-case type name stands for, if any.
    pub fn from_lowercase(lower: &str) -> (r: Option<SecuritySchemeType>)
        ensures
            opt_kind_view(r) == scheme_kind_of(lower@),
    {
        if str_eq(lower, "oauth 1.0") {
            Some(SecuritySchemeType::OAuth1)
        } else if str_eq(lower, "oauth 2.0") {
            Some(SecuritySchemeType::OAuth2)
        } else if str_eq(lower, "basic authentication") {
            Some(SecuritySchemeType::BasicAuthentication)
        } else if str_eq(lower, "digest authentication") {
            Some(SecuritySchemeType::DigestAuthentication)
        } else if str_eq(lower, "pass through") {
            Some(SecuritySchemeType::PassThrough)
        } else if lower.unicode_len() >= 2 && lower.get_char(0) == 'x' && lower.get_char(1) == '-' {
            Some(SecuritySchemeType::XOther(String::from_str(lower)))
        } else {
            None
        }
    }

    /// The scheme kind a type name stands for, matched without regard to case.
    pub fn from_str(s: &str) -> (r: Result<SecuritySchemeType, RamlError>)
        ensures
            match scheme_kind_of(lower_of(s@)) {
                Some(k) => r matches Ok(t) && t@ == k,
                None => r matches Err(e) && e.message() == render(
                    FailureView { cause: ErrorCause::InvalidSecuritySchemeType, position: None },
                ),
            },
    {
        let lower = lowercase(s);
        match SecuritySchemeType::from_lowercase(lower.as_str()) {
            Some(t) => Ok(t),
            None => Err(get_error(ErrorDef::InvalidSecuritySchemeType, None)),
        }
    }
}

/// The view of the fields of a security scheme read so far.
pub open spec fn scheme_fields(
    security_type: Option<SecuritySchemeType>,
    display_name: Option<String>,
    description: Option<String>,
) -> SchemeFields {
    SchemeFields {
        security_type: opt_kind_view(security_type),
        display_name: opt_view(display_name),
        description: opt_view(description),
    }
}

/// Reads one security scheme: a value marker and a block mapping of `type`,
/// `displayName` and `description`, of which `type` is required.
pub fn get_security_scheme(cursor: &mut ForwardCursor) -> (r: Result<SecurityScheme, Failure>)
    requires
        old(cursor).wf(),
    ensures
        final(cursor).wf(),
        final(cursor).stream() == old(cursor).stream(),
        step_outcome(
            result_view(r, |v: SecurityScheme| v@),
            final(cursor).pos(),
            spec_security_scheme(old(cursor).stream(), old(cursor).pos()),
        ),
{
    let ghost s = cursor.stream();
    let ghost start = cursor.pos();
    match cursor.expect(TokenTypeDef::Value) {
        Ok(_) => {},
        Err(e) => return Err(e),
    }
    match cursor.expect(TokenTypeDef::BlockMappingStart) {
        Ok(_) => {},
        Err(e) => return Err(e),
    }
    let mut security_type: Option<SecuritySchemeType> = None;
    let mut display_name: Option<String> = None;
    let mut description: Option<String> = None;
    loop
        invariant
            cursor.wf(),
            cursor.stream() == s,
            s == old(cursor).stream(),
            start == old(cursor).pos(),
            spec_security_scheme_from(s, cursor.pos(), scheme_fields(security_type, display_name, description))
                == spec_security_scheme(s, start),
        decreases s.tokens.len() - cursor.pos(),
    {
        let token = match cursor.next_token() {
            Ok(t) => t,
            Err(e) => return Err(e),
        };
        match token.kind {
            TokenTypeDef::Key => {
                let key = match cursor.next_token() {
                    Ok(t) => t,
                    Err(e) => return Err(e),
                };
                let ghost here = cursor.pos();
                proof {
                    lemma_values_advance(s, here);
                }
                match key.kind {
                    TokenTypeDef::Scalar => {},
                    _ => return Err(unexpected_entry(TokenTypeDef::Scalar, &key)),
                }
                if str_eq(key.value.as_str(), "type") {
                    match cursor.expect(TokenTypeDef::Value) {
                        Ok(_) => {},
                        Err(e) => return Err(e),
                    }
                    let v = match cursor.next_token() {
                        Ok(t) => t,
                        Err(e) => return Err(e),
                    };
                    match v.kind {
                        TokenTypeDef::Scalar => {},
                        _ => return Err(unexpected_entry(TokenTypeDef::Scalar, &v)),
                    }
                    let lower = lowercase(v.value.as_str());
                    match SecuritySchemeType::from_lowercase(lower.as_str()) {
                        Some(t) => security_type = Some(t),
                        None => {
                            return Err(Failure {
                                cause: ErrorDef::InvalidSecuritySchemeType,
                                position: Some(v.position),
                            });
                        },
                    }
                } else if str_eq(key.value.as_str(), "displayName") {
                    match get_single_value(cursor) {
                        Ok(v) => display_name = Some(v),
                        Err(e) => return Err(e),
                    }
                } else if str_eq(key.value.as_str(), "description") {
                    match get_single_value(cursor) {
                        Ok(v) => description = Some(v),
                        Err(e) => return Err(e),
                    }
                } else {
                    return Err(Failure {
                        cause: ErrorDef::UnexpectedKeyRoot { field: key.value, level: HierarchyLevel::SecurityScheme },
                        position: Some(key.position),
                    });
                }
            },
            TokenTypeDef::BlockEnd => {
                match security_type {
                    None => {
                        return Err(Failure {
                            cause: ErrorDef::MissingField {
                                field: String::from_str("type"),
                                level: HierarchyLevel::SecurityScheme,
                            },
                            position: None,
                        });
                    },
                    Some(t) => {
                        return Ok(SecurityScheme { security_type: t, display_name, description });
                    },
                }
            },
            _ => {
                return Err(unexpected_entry(TokenTypeDef::Key, &token));
            },
        }
    }
}

/// Reads the value of `securitySchemes`: a block mapping from names to
/// schemes; a name that occurs again replaces the earlier scheme.
pub fn get_security_schemes(cursor: &mut ForwardCursor) -> (r: Result<SecuritySchemes, Failure>)
    requires
        old(cursor).wf(),
    ensures
        final(cursor).wf(),
        final(cursor).stream() == old(cursor).stream(),
        step_outcome(
            result_view(r, |m: SecuritySchemes| m.pairs()),
            final(cursor).pos(),
            spec_security_schemes(old(cursor).stream(), old(cursor).pos()),
        ),
{
    let ghost s = cursor.stream();
    let ghost start = cursor.pos();
    match cursor.expect(TokenTypeDef::Value) {
        Ok(_) => {},
        Err(e) => return Err(e),
    }
    match cursor.expect(TokenTypeDef::BlockMappingStart) {
        Ok(_) => {},
        Err(e) => return Err(e),
    }
    let mut entries: Vec<(String, SecurityScheme)> = Vec::new();
    assert(pairs_view(entries@) =~= Seq::empty());
    loop
        invariant
            cursor.wf(),
            cursor.stream() == s,
            s == old(cursor).stream(),
            start == old(cursor).pos(),
            spec_security_schemes_from(s, cursor.pos(), pairs_view(entries@)) == spec_security_schemes(s, start),
            keys_unique(pairs_view(entries@)),
        decreases s.tokens.len() - cursor.pos(),
    {
        let token = match cursor.next_token() {
            Ok(t) => t,
            Err(e) => return Err(e),
        };
        match token.kind {
            TokenTypeDef::Key => {
                let key = match cursor.next_token() {
                    Ok(t) => t,
                    Err(e) => return Err(e),
                };
                match key.kind {
                    TokenTypeDef::Scalar => {},
                    _ => return Err(unexpected_entry(TokenTypeDef::Scalar, &key)),
                }
                let ghost here = cursor.pos();
                proof {
                    lemma_security_scheme_advances(s, here);
                }
                let scheme = match get_security_scheme(cursor) {
                    Ok(v) => v,
                    Err(e) => return Err(e),
                };
                proof {
                    lemma_insert_keeps_keys_unique(pairs_view(entries@), key.value@, scheme@);
                }
                insert_entry(&mut entries, key.value, scheme);
            },
            TokenTypeDef::BlockEnd => {
                return Ok(SecuritySchemes { entries });
            },
            _ => {
                return Err(unexpected_entry(TokenTypeDef::Key, &token));
            },
        }
    }
}

/// The fields of the document root read so far, owned by the parse that
/// fills them and turned into a document once the root ends.
struct RamlBuilder {
    title: Option<String>,
    version: Option<String>,
    description: Option<String>,
    base_uri: Option<String>,
    protocols: Option<Vec<Protocol>>,
    media_types: Option<Vec<String>>,
    documentation: Option<Vec<RamlDocumentation>>,
    security_schemes: Option<SecuritySchemes>,
}

impl View for RamlBuilder {
    type V = RootFields;

    closed spec fn view(&self) -> RootFields {
        RootFields {
            title: opt_view(self.title),
            version: opt_view(self.version),
            description: opt_view(self.description),
            base_uri: opt_view(self.base_uri),
            protocols: opt_protocols_view(self.protocols),
            media_types: opt_texts_view(self.media_types),
            documentation: opt_docs_view(self.documentation),
            security_schemes: opt_schemes_view(self.security_schemes),
        }
    }
}

impl RamlBuilder {
    /// No field read yet.
    fn empty() -> (r: RamlBuilder)
        ensures
            r@ == no_root_fields(),
    {
        RamlBuilder {
            title: None,
            version: None,
            description: None,
            base_uri: None,
            protocols: None,
            media_types: None,
            documentation: None,
            security_schemes: None,
        }
    }

    /// The document made of the fields read.
    fn build(self) -> (r: Raml)
        requires
            self@.title is Some,
        ensures
            r@ == finished(self@),
    {
        let title = match self.title {
            Some(t) => t,
            None => String::new(),
        };
        Raml::new(RamlArgs {
            title,
            version: self.version,
            description: self.description,
            base_uri: self.base_uri,
            protocols: self.protocols,
            media_types: self.media_types,
            documentation: self.documentation,
            security_schemes: self.security_schemes,
        })
    }
}

/// Reads the value of the document-root key `key` into the fields read so far.
fn parse_root_field(cursor: &mut ForwardCursor, key: &Token, b: RamlBuilder) -> (r: Result<RamlBuilder, Failure>)
    requires
        old(cursor).wf(),
    ensures
        final(cursor).wf(),
        final(cursor).stream() == old(cursor).stream(),
        step_outcome(
            result_view(r, |v: RamlBuilder| v@),
            final(cursor).pos(),
            spec_root_field(old(cursor).stream(), old(cursor).pos(), key@, b@),
        ),
{
    let mut b = b;
    let k = key.value.as_str();
    if str_eq(k, "title") {
        match get_single_value(cursor) {
            Ok(v) => b.title = Some(v),
            Err(e) => return Err(e),
        }
    } else if str_eq(k, "version") {
        match get_single_value(cursor) {
            Ok(v) => b.version = Some(v),
            Err(e) => return Err(e),
        }
    } else if str_eq(k, "description") {
        match get_single_value(cursor) {
            Ok(v) => b.description = Some(v),
            Err(e) => return Err(e),
        }
    } else if str_eq(k, "baseUri") {
        match get_single_value(cursor) {
            Ok(v) => b.base_uri = Some(v),
            Err(e) => return Err(e),
        }
    } else if str_eq(k, "protocols") {
        match get_protocols(cursor) {
            Ok(v) => b.protocols = Some(v),
            Err(e) => return Err(e),
        }
    } else if str_eq(k, "mediaType") {
        match get_media_types(cursor) {
            Ok(v) => b.media_types = Some(v),
            Err(e) => return Err(e),
        }
    } else if str_eq(k, "documentation") {
        match get_documentation(cursor) {
            Ok(v) => b.documentation = Some(v),
            Err(e) => return Err(e),
        }
    } else if str_eq(k, "securitySchemes") {
        match get_security_schemes(cursor) {
            Ok(v) => {
                proof {
                    v.lemma_view();
                }
                b.security_schemes = Some(v);
            },
            Err(e) => return Err(e),
        }
    } else {
        return Err(Failure {
            cause: ErrorDef::UnexpectedKeyRoot { field: key.value.clone(), level: HierarchyLevel::DocumentRoot },
            position: Some(key.position),
        });
    }
    Ok(b)
}

/// The failure of a block at `level` without a title.
fn missing_title(level: HierarchyLevel) -> (r: Failure)
    ensures
        r@ == (FailureView {
            cause: ErrorCause::MissingField { field: "title"@, level },
            position: None,
        }),
{
    Failure { cause: ErrorDef::MissingField { field: String::from_str("title"), level }, position: None }
}

/// Reads a whole token stream as one document root: a block mapping of known
/// keys, among them the title.
pub fn parse_root(cursor: &mut ForwardCursor) -> (r: Result<Raml, Failure>)
    requires
        old(cursor).wf(),
        old(cursor).pos() == 0,
    ensures
        result_view(r, |v: Raml| v@) == spec_parse_root(old(cursor).stream()),
{
    let ghost s = cursor.stream();
    match cursor.expect(TokenTypeDef::StreamStart) {
        Ok(_) => {},
        Err(e) => return Err(e),
    }
    match cursor.peek_kind() {
        Some(TokenTypeDef::StreamEnd) => return Err(missing_title(HierarchyLevel::DocumentRoot)),
        _ => {},
    }
    match cursor.expect(TokenTypeDef::BlockMappingStart) {
        Ok(_) => {},
        Err(e) => return Err(e),
    }
    let ghost start = cursor.pos();
    let mut builder = RamlBuilder::empty();
    loop
        invariant
            cursor.wf(),
            cursor.stream() == s,
            s == old(cursor).stream(),
            spec_parse_root(s) == match spec_root_from(s, start, no_root_fields()) {
                Err(f) => Err(f),
                Ok((r, _)) => Ok::<RamlView, FailureView>(r),
            },
            spec_root_from(s, cursor.pos(), builder@) == spec_root_from(s, start, no_root_fields()),
        decreases s.tokens.len() - cursor.pos(),
    {
        let token = match cursor.next_token() {
            Ok(t) => t,
            Err(e) => return Err(e),
        };
        match token.kind {
            TokenTypeDef::Key => {
                let key = match cursor.next_token() {
                    Ok(t) => t,
                    Err(e) => return Err(e),
                };
                match key.kind {
                    TokenTypeDef::Scalar => {},
                    _ => return Err(unexpected_entry(TokenTypeDef::Scalar, &key)),
                }
                proof {
                    lemma_root_field_advances(s, cursor.pos(), key@, builder@);
                }
                builder = match parse_root_field(cursor, &key, builder) {
                    Ok(b) => b,
                    Err(e) => return Err(e),
                };
            },
            TokenTypeDef::BlockEnd => {
                match builder.title {
                    None => {
                        return Err(missing_title(HierarchyLevel::DocumentRoot));
                    },
                    Some(_) => {
                        return Ok(builder.build());
                    },
                }
            },
            _ => {
                return Err(unexpected_entry(TokenTypeDef::Key, &token));
            },
        }
    }
}

/// Fails unless the first line of `s`, without surrounding white space, is
/// the version marker.
pub fn error_if_incorrect_raml_comment(s: &str) -> (r: Result<(), Failure>)
    ensures
        r is Ok <==> has_marker_line(s@),
        r matches Err(f) ==> f@ == (FailureView { cause: ErrorCause::MissingRamlVersion, position: None }),
{
    let line = first_line_chars(s);
    let (a, b) = trim_bounds(&line);
    if slice_equals(&line, a, b, "#%RAML 1.0") {
        Ok(())
    } else {
        Err(Failure { cause: ErrorDef::MissingRamlVersion, position: None })
    }
}

/// `r` is what `spec` gives, with a failure rendered into its message.
pub open spec fn load_outcome(r: Result<Raml, RamlError>, spec: Result<RamlView, FailureView>) -> bool {
    match spec {
        Ok(v) => r matches Ok(x) && x@ == v,
        Err(f) => r matches Err(e) && e.message() == render(f),
    }
}

/// Parses a document from its text.
pub fn parse_raml_string(source: &str) -> (r: Result<Raml, RamlError>)
    ensures
        load_outcome(r, spec_load(source@)),
{
    match error_if_incorrect_raml_comment(source) {
        Ok(_) => {},
        Err(f) => return Err(get_error(f.cause, f.position)),
    }
    let mut cursor = ForwardCursor::new(source);
    match parse_root(&mut cursor) {
        Ok(r) => Ok(r),
        Err(f) => Err(get_error(f.cause, f.position)),
    }
}

/// The entry points of the library.
pub struct RamlParser {}

impl RamlParser {
    /// The tokens of `source`, in order, for looking at how a text is read.
    pub fn debug(source: &str) -> (r: Vec<Token>)
        ensures
            r@.map_values(|t: Token| t@) == yaml_scan(source@).tokens,
    {
        scan(source).tokens
    }

    /// Parses a document from its text.
    pub fn load_from_str(source: &str) -> (r: Result<Raml, RamlError>)
        ensures
            load_outcome(r, spec_load(source@)),
    {
        parse_raml_string(source)
    }
}

} // verus!
