use vstd::prelude::*;
use crate::token_type_definitions::{kind_name, TokenTypeDef};
use crate::tokens::Position;

verus! {

/// The part of a document that an error was found in.
#[derive(Debug, Clone, Copy, PartialEq, Eq, Structural)]
pub enum HierarchyLevel {
    DocumentRoot,
    Documentation,
    SecurityScheme,
}

/// How a level is written in error messages.
pub open spec fn level_name(l: HierarchyLevel) -> Seq<char> {
    match l {
        HierarchyLevel::DocumentRoot => "document root"@,
        HierarchyLevel::Documentation => "documentation"@,
        HierarchyLevel::SecurityScheme => "security scheme"@,
    }
}

impl HierarchyLevel {
    /// How this level is written in error messages.
    pub fn name(&self) -> (r: &'static str)
        ensures
            r@ == level_name(*self),
    {
        match self {
            HierarchyLevel::DocumentRoot => "document root",
            HierarchyLevel::Documentation => "documentation",
            HierarchyLevel::SecurityScheme => "security scheme",
        }
    }
}

/// The causes of a failed parse.
#[derive(Debug)]
pub enum ErrorDef {
    UnexpectedKeyRoot { field: String, level: HierarchyLevel },
    UnexpectedEntry { expected: TokenTypeDef, found: TokenTypeDef },
    UnexpectedEntryMulti { expected: Vec<TokenTypeDef>, found: TokenTypeDef },
    MissingRamlVersion,
    MissingField { field: String, level: HierarchyLevel },
    UnexpectedProtocol,
    MissingProtocols,
    InvalidSecuritySchemeType,
    /// The scanner could not read the text; `message` is its own report.
    InvalidDocument { message: String },
}

/// The mathematical value of an `ErrorDef`.
pub enum ErrorCause {
    UnexpectedKeyRoot { field: Seq<char>, level: HierarchyLevel },
    UnexpectedEntry { expected: TokenTypeDef, found: TokenTypeDef },
    UnexpectedEntryMulti { expected: Seq<TokenTypeDef>, found: TokenTypeDef },
    MissingRamlVersion,
    MissingField { field: Seq<char>, level: HierarchyLevel },
    UnexpectedProtocol,
    MissingProtocols,
    InvalidSecuritySchemeType,
    InvalidDocument { message: Seq<char> },
}

impl View for ErrorDef {
    type V = ErrorCause;

    open spec fn view(&self) -> ErrorCause {
        match self {
            ErrorDef::UnexpectedKeyRoot { field, level } => ErrorCause::UnexpectedKeyRoot {
                field: field@,
                level: *level,
            },
            ErrorDef::UnexpectedEntry { expected, found } => ErrorCause::UnexpectedEntry {
                expected: *expected,
                found: *found,
            },
            ErrorDef::UnexpectedEntryMulti { expected, found } => ErrorCause::UnexpectedEntryMulti {
                expected: expected@,
                found: *found,
            },
            ErrorDef::MissingRamlVersion => ErrorCause::MissingRamlVersion,
            ErrorDef::MissingField { field, level } => ErrorCause::MissingField {
                field: field@,
                level: *level,
            },
            ErrorDef::UnexpectedProtocol => ErrorCause::UnexpectedProtocol,
            ErrorDef::MissingProtocols => ErrorCause::MissingProtocols,
            ErrorDef::InvalidSecuritySchemeType => ErrorCause::InvalidSecuritySchemeType,
            ErrorDef::InvalidDocument { message } => ErrorCause::InvalidDocument {
                message: message@,
            },
        }
    }
}

/// A cause together with the place it was found at, if it has one.
#[derive(Debug)]
pub struct Failure {
    pub cause: ErrorDef,
    pub position: Option<Position>,
}

/// The mathematical value of a `Failure`.
pub struct FailureView {
    pub cause: ErrorCause,
    pub position: Option<Position>,
}

impl View for Failure {
    type V = FailureView;

    open spec fn view(&self) -> FailureView {
        FailureView { cause: self.cause@, position: self.position }
    }
}

/// The error handed to callers: a rendered message.
#[derive(Debug, Default)]
pub struct RamlError {
    error: String,
}

impl RamlError {
    /// The message of this error.
    pub closed spec fn message(&self) -> Seq<char> {
        self.error@
    }

    /// An error with the message `error`.
    fn new(error: String) -> (r: RamlError)
        ensures
            r.message() == error@,
    {
        RamlError { error }
    }

    /// The message of this error.
    pub fn error(&self) -> (r: &str)
        ensures
            r@ == self.message(),
    {
        self.error.as_str()
    }
}

/// The character of a decimal digit.
pub open spec fn digit_char(d: nat) -> char {
    if d == 0 {
        '0'
    } else if d == 1 {
        '1'
    } else if d == 2 {
        '2'
    } else if d == 3 {
        '3'
    } else if d == 4 {
        '4'
    } else if d == 5 {
        '5'
    } else if d == 6 {
        '6'
    } else if d == 7 {
        '7'
    } else if d == 8 {
        '8'
    } else {
        '9'
    }
}

/// A natural number written in decimal, without leading zeros.
pub open spec fn decimal(n: nat) -> Seq<char>
    decreases n,
{
    if n < 10 {
        seq![digit_char(n)]
    } else {
        decimal(n / 10) + seq![digit_char(n % 10)]
    }
}

/// The text of one decimal digit.
fn digit_str(d: u128) -> (r: &'static str)
    requires
        d < 10,
    ensures
        r@ == seq![digit_char(d as nat)],
{
    if d == 0 {
        proof { reveal_strlit("0"); }
        "0"
    } else if d == 1 {
        proof { reveal_strlit("1"); }
        "1"
    } else if d == 2 {
        proof { reveal_strlit("2"); }
        "2"
    } else if d == 3 {
        proof { reveal_strlit("3"); }
        "3"
    } else if d == 4 {
        proof { reveal_strlit("4"); }
        "4"
    } else if d == 5 {
        proof { reveal_strlit("5"); }
        "5"
    } else if d == 6 {
        proof { reveal_strlit("6"); }
        "6"
    } else if d == 7 {
        proof { reveal_strlit("7"); }
        "7"
    } else if d == 8 {
        proof { reveal_strlit("8"); }
        "8"
    } else {
        proof { reveal_strlit("9"); }
        "9"
    }
}

/// Writes `n` in decimal.
pub fn to_decimal(n: u128) -> (r: String)
    ensures
        r@ == decimal(n as nat),
    decreases n,
{
    if n < 10 {
        String::from_str(digit_str(n))
    } else {
        let mut s = to_decimal(n / 10);
        s.append(digit_str(n % 10));
        s
    }
}

/// The kinds' names, separated by commas.
pub open spec fn joined_names(kinds: Seq<TokenTypeDef>) -> Seq<char>
    decreases kinds.len(),
{
    if kinds.len() == 0 {
        Seq::empty()
    } else if kinds.len() == 1 {
        kind_name(kinds[0])
    } else {
        joined_names(kinds.drop_last()) + ","@ + kind_name(kinds.last())
    }
}

/// The names of `kinds`, separated by commas.
fn join_names(kinds: &Vec<TokenTypeDef>) -> (r: String)
    ensures
        r@ == joined_names(kinds@),
{
    let mut r = String::new();
    let mut i: usize = 0;
    while i < kinds.len()
        invariant
            i <= kinds.len(),
            r@ == joined_names(kinds@.subrange(0, i as int)),
        decreases kinds.len() - i,
    {
        proof {
            assert(kinds@.subrange(0, i + 1).drop_last() == kinds@.subrange(0, i as int));
        }
        if i > 0 {
            r.append(",");
        }
        r.append(kinds[i].name());
        i = i + 1;
    }
    proof {
        assert(kinds@.subrange(0, kinds.len() as int) == kinds@);
    }
    r
}

/// The message of a cause, without its place.
pub open spec fn cause_message(c: ErrorCause) -> Seq<char> {
    match c {
        ErrorCause::UnexpectedKeyRoot { field, level } => "Unexpected field found at the "@
            + level_name(level) + ": "@ + field,
        ErrorCause::UnexpectedEntry { expected, found } => "Unexpected entry found. Expected "@
            + kind_name(expected) + ", Found "@ + kind_name(found),
        ErrorCause::UnexpectedEntryMulti { expected, found } =>
            "Unexpected entry found. Expected one of "@ + joined_names(expected) + ", Found "@
            + kind_name(found),
        ErrorCause::MissingRamlVersion =>
            "Document must start with the following RAML comment line: #%RAML 1.0"@,
        ErrorCause::MissingField { field, level } => "Error parsing "@ + level_name(level)
            + ". Missing field: "@ + field,
        ErrorCause::UnexpectedProtocol => "Error parsing document root. Unexpected protocol"@,
        ErrorCause::MissingProtocols =>
            "Error parsing document root. Protocols must not be empty"@,
        ErrorCause::InvalidSecuritySchemeType =>
            "Error parsing security scheme. Unexpected type"@,
        ErrorCause::InvalidDocument { message } => "Invalid document: "@ + message,
    }
}

/// The suffix that yaml_rust's `ScanError` puts after its message: the line,
/// and the column counted from one.
pub open spec fn position_suffix(p: Position) -> Seq<char> {
    " at line "@ + decimal(p.line as nat) + " column "@ + decimal((p.col + 1) as nat)
}

/// The message of a failure: its cause's message, then its place, if any.
pub open spec fn render(f: FailureView) -> Seq<char> {
    match f.position {
        Some(p) => cause_message(f.cause) + position_suffix(p),
        None => cause_message(f.cause),
    }
}

impl ErrorDef {
    /// The message of this cause, without a place.
    pub fn message(&self) -> (r: String)
        ensures
            r@ == cause_message(self@),
    {
        match self {
            ErrorDef::UnexpectedKeyRoot { field, level } => {
                let mut s = String::from_str("Unexpected field found at the ");
                s.append(level.name());
                s.append(": ");
                s.append(field.as_str());
                s
            },
            ErrorDef::UnexpectedEntry { expected, found } => {
                let mut s = String::from_str("Unexpected entry found. Expected ");
                s.append(expected.name());
                s.append(", Found ");
                s.append(found.name());
                s
            },
            ErrorDef::UnexpectedEntryMulti { expected, found } => {
                let mut s = String::from_str("Unexpected entry found. Expected one of ");
                let names = join_names(expected);
                s.append(names.as_str());
                s.append(", Found ");
                s.append(found.name());
                s
            },
            ErrorDef::MissingRamlVersion => String::from_str(
                "Document must start with the following RAML comment line: #%RAML 1.0",
            ),
            ErrorDef::MissingField { field, level } => {
                let mut s = String::from_str("Error parsing ");
                s.append(level.name());
                s.append(". Missing field: ");
                s.append(field.as_str());
                s
            },
            ErrorDef::UnexpectedProtocol => String::from_str(
                "Error parsing document root. Unexpected protocol",
            ),
            ErrorDef::MissingProtocols => String::from_str(
                "Error parsing document root. Protocols must not be empty",
            ),
            ErrorDef::InvalidSecuritySchemeType => String::from_str(
                "Error parsing security scheme. Unexpected type",
            ),
            ErrorDef::InvalidDocument { message } => {
                let mut s = String::from_str("Invalid document: ");
                s.append(message.as_str());
                s
            },
        }
    }
}

/// Renders a cause, and the place it was found at if given, into an error.
pub fn get_error(error: ErrorDef, position: Option<Position>) -> (r: RamlError)
    ensures
        r.message() == render(FailureView { cause: error@, position }),
{
    let mut s = error.message();
    match position {
        Some(p) => {
            s.append(" at line ");
            let line = to_decimal(p.line as u128);
            s.append(line.as_str());
            s.append(" column ");
            let col = to_decimal(p.col as u128 + 1);
            s.append(col.as_str());
        },
        None => {},
    }
    RamlError::new(s)
}

} // verus!
