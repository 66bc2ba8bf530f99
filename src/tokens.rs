use vstd::prelude::*;
use yaml_rust::scanner::{Scanner, Token as YamlToken, TokenType};
use crate::token_type_definitions::{get_token_def, kind_of, TokenTypeDef};

verus! {

/// A place in the source text: the line, counted from one, and the column,
/// counted from zero.
#[derive(Debug, Clone, Copy, PartialEq, Eq, Structural)]
pub struct Position {
    pub line: usize,
    pub col: usize,
}

/// A token as the grammar reads it: its kind, the text of a scalar (empty
/// for every other kind) and where it starts.
#[derive(Debug)]
pub struct Token {
    pub kind: TokenTypeDef,
    pub value: String,
    pub position: Position,
}

/// The mathematical value of a `Token`.
pub struct TokenView {
    pub kind: TokenTypeDef,
    pub value: Seq<char>,
    pub position: Position,
}

impl View for Token {
    type V = TokenView;

    open spec fn view(&self) -> TokenView {
        TokenView { kind: self.kind, value: self.value@, position: self.position }
    }
}

/// What scanning a text gives: the tokens, in order, and the message of the
/// scan error that ended the stream early, if one did.
pub struct ScanView {
    pub tokens: Seq<TokenView>,
    pub error: Option<Seq<char>>,
}

/// The tokens of a text, with the scan error that stopped them, if any.
pub struct ScannedTokens {
    pub tokens: Vec<Token>,
    pub error: Option<String>,
}

impl View for ScannedTokens {
    type V = ScanView;

    open spec fn view(&self) -> ScanView {
        ScanView {
            tokens: self.tokens@.map_values(|t: Token| t@),
            error: match self.error {
                Some(e) => Some(e@),
                None => None,
            },
        }
    }
}

/// The text of a scalar token; empty for every other kind.
pub open spec fn scalar_text(t: TokenType) -> Seq<char> {
    match t {
        TokenType::Scalar(_, v) => v@,
        _ => Seq::empty(),
    }
}

/// What yaml_rust's scanner yields for a text.
pub uninterp spec fn yaml_scan(source: Seq<char>) -> ScanView;

impl Token {
    /// The grammar's token for a token of yaml_rust.
    pub fn from_yaml(t: YamlToken) -> (r: Token)
        ensures
            r.kind == kind_of(t.1),
            r.value@ == scalar_text(t.1),
    {
        let kind = get_token_def(&t.1);
        let position = Position { line: t.0.line(), col: t.0.col() };
        let value = match t.1 {
            TokenType::Scalar(_, v) => v,
            _ => String::new(),
        };
        Token { kind, value, position }
    }
}

/// Relies on yaml_rust's `Scanner`, read as an iterator over the characters
/// of `source`: it yields the tokens up to the end of the stream, or up to the
/// first scan error, which `get_error` then hands out and whose `Display` is
/// kept. What it yields depends on the text alone.
///
/// That this returns on every text rests on the scanner's own invariants, as
/// its source shows them but nothing here proves: it keeps one simple-key
/// slot for the stream and one per open flow level, so `fetch_value` always
/// finds a last slot; and it holds tokens back while a possible simple key
/// could still be inserted before them, so the place `insert_token` inserts
/// at never lies before the queue or past its end.
#[verifier::external_body]
pub(crate) fn scan(source: &str) -> (r: ScannedTokens)
    ensures
        r@ == yaml_scan(source@),
{
    let mut scanner = Scanner::new(source.chars());
    let tokens: Vec<Token> = (&mut scanner).map(Token::from_yaml).collect();
    let error = scanner.get_error().map(|e| e.to_string());
    ScannedTokens { tokens, error }
}

} // verus!
