//! The closed set of syntax categories, with the payload some of them carry.
use vstd::prelude::*;

verus! {

/// Where in a node an error lies.
#[derive(Debug, Clone, Copy, PartialEq, Eq, Structural)]
pub enum ErrorPos {
    /// At the start of the node.
    Start,
    /// Over the whole node.
    Full,
    /// At the end of the node.
    End,
}

/// The payload of a raw block: `` `...` ``.
#[derive(Debug, Clone, PartialEq, Eq)]
pub struct RawData {
    /// The raw text, already trimmed.
    pub text: String,
    /// The language tag written right after the opening backticks, if any.
    pub lang: Option<String>,
    /// How many backticks open (and close) the block.
    pub backticks: u8,
    /// Whether the block is block-level: 3+ backticks and a newline inside.
    pub block: bool,
}

/// The payload of a unicode escape: `\u{1F5FA}`.
#[derive(Debug, Clone, PartialEq, Eq)]
pub struct UnicodeEscapeData {
    /// The hexadecimal sequence between the braces.
    pub sequence: String,
    /// The character it denotes, if the sequence names one.
    pub character: Option<char>,
}

/// The kind of a syntax node.
#[derive(Debug, Clone, PartialEq, Eq)]
pub enum NodeKind {
    /// Whitespace holding the given number of newlines.
    Space(usize),
    /// A forced line break: `\`.
    Linebreak,
    /// A paragraph break: two or more newlines.
    Parbreak,
    /// Strong text was enabled / disabled: `*`.
    Strong,
    /// Emphasized text was enabled / disabled: `_`.
    Emph,
    /// Plain text.
    Text(String),
    /// A unicode escape sequence: `\u{1F5FA}`.
    UnicodeEscape(UnicodeEscapeData),
    /// An en-dash: `--`.
    EnDash,
    /// An em-dash: `---`.
    EmDash,
    /// A non-breaking space: `~`.
    NonBreakingSpace,
    /// A raw block: `` `...` ``.
    Raw(RawData),
    /// The depth of a heading: the number of equals signs.
    HeadingLevel(u8),
    /// A section heading: `= Introduction`.
    Heading,
    /// An item in an unordered list: `- ...`.
    List,
    /// An item in an enumeration: `1. ...`.
    Enum,
    /// The explicit number of an enumeration item, if it has one.
    EnumNumbering(Option<usize>),
    /// A sequence of markup: a document or the body of a composite item.
    Markup,
    /// A syntax error, with where it lies and the offending text.
    Error(ErrorPos, String),
    /// An identifier: `it`.
    Ident(String),
    /// The none literal: `none`.
    NoneLit,
    /// The auto literal: `auto`.
    Auto,
    /// A boolean literal: `true`, `false`.
    Bool(bool),
    /// An integer literal: `120`.
    Int(i64),
    /// A string literal: `"hello"`.
    Str(String),
    /// A left square bracket: `[`.
    LeftBracket,
    /// A right square bracket: `]`.
    RightBracket,
    /// A comma: `,`.
    Comma,
}

/// The number of bytes that the UTF-8 encoding of `s` takes.
pub open spec fn utf8_len(s: Seq<char>) -> nat {
    vstd::utf8::encode_utf8(s).len()
}

/// The bytes that a raw block's opening backticks and language tag take.
pub open spec fn raw_prefix_len(raw: RawData) -> nat {
    raw.backticks as nat + match raw.lang {
        Some(l) => utf8_len(l@),
        None => 0,
    }
}

/// Whether a node of kind `kind` can be `len` bytes long: a raw block holds at
/// least its opening backticks and its language tag.
pub open spec fn kind_fits(kind: NodeKind, len: nat) -> bool {
    match kind {
        NodeKind::Raw(raw) => raw_prefix_len(raw) <= len,
        _ => true,
    }
}

/// Whether `kind` marks a parse error.
pub open spec fn is_error_kind(kind: NodeKind) -> bool {
    kind is Error
}

} // verus!
