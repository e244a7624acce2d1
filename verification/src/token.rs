//! Tokens: what the lexer hands to the parser.

use vstd::prelude::*;
use crate::error::Location;

verus! {

/// The reserved words.
#[derive(Clone, Copy, Debug, PartialEq, Eq, Structural)]
pub enum Keyword {
    Auto,
    Break,
    Case,
    Char,
    Const,
    Continue,
    Default,
    Do,
    Double,
    Else,
    Enum,
    Extern,
    Float,
    For,
    Goto,
    If,
    Int,
    Long,
    Register,
    Return,
    Short,
    Signed,
    Sizeof,
    Static,
    Struct,
    Switch,
    Typedef,
    Union,
    Unsigned,
    Void,
    Volatile,
    While,
}

/// The number of reserved words.
pub const KEYWORD_COUNT: usize = 32;

impl Keyword {
    /// The reserved word at a position of the table of reserved words.
    pub open spec fn at(i: int) -> Keyword {
        if i == 0 {
            Keyword::Auto
        } else if i == 1 {
            Keyword::Break
        } else if i == 2 {
            Keyword::Case
        } else if i == 3 {
            Keyword::Char
        } else if i == 4 {
            Keyword::Const
        } else if i == 5 {
            Keyword::Continue
        } else if i == 6 {
            Keyword::Default
        } else if i == 7 {
            Keyword::Do
        } else if i == 8 {
            Keyword::Double
        } else if i == 9 {
            Keyword::Else
        } else if i == 10 {
            Keyword::Enum
        } else if i == 11 {
            Keyword::Extern
        } else if i == 12 {
            Keyword::Float
        } else if i == 13 {
            Keyword::For
        } else if i == 14 {
            Keyword::Goto
        } else if i == 15 {
            Keyword::If
        } else if i == 16 {
            Keyword::Int
        } else if i == 17 {
            Keyword::Long
        } else if i == 18 {
            Keyword::Register
        } else if i == 19 {
            Keyword::Return
        } else if i == 20 {
            Keyword::Short
        } else if i == 21 {
            Keyword::Signed
        } else if i == 22 {
            Keyword::Sizeof
        } else if i == 23 {
            Keyword::Static
        } else if i == 24 {
            Keyword::Struct
        } else if i == 25 {
            Keyword::Switch
        } else if i == 26 {
            Keyword::Typedef
        } else if i == 27 {
            Keyword::Union
        } else if i == 28 {
            Keyword::Unsigned
        } else if i == 29 {
            Keyword::Void
        } else if i == 30 {
            Keyword::Volatile
        } else {
            Keyword::While
        }
    }

    /// How a reserved word is written.
    pub open spec fn spelling(self) -> &'static str {
        match self {
            Keyword::Auto => "auto",
            Keyword::Break => "break",
            Keyword::Case => "case",
            Keyword::Char => "char",
            Keyword::Const => "const",
            Keyword::Continue => "continue",
            Keyword::Default => "default",
            Keyword::Do => "do",
            Keyword::Double => "double",
            Keyword::Else => "else",
            Keyword::Enum => "enum",
            Keyword::Extern => "extern",
            Keyword::Float => "float",
            Keyword::For => "for",
            Keyword::Goto => "goto",
            Keyword::If => "if",
            Keyword::Int => "int",
            Keyword::Long => "long",
            Keyword::Register => "register",
            Keyword::Return => "return",
            Keyword::Short => "short",
            Keyword::Signed => "signed",
            Keyword::Sizeof => "sizeof",
            Keyword::Static => "static",
            Keyword::Struct => "struct",
            Keyword::Switch => "switch",
            Keyword::Typedef => "typedef",
            Keyword::Union => "union",
            Keyword::Unsigned => "unsigned",
            Keyword::Void => "void",
            Keyword::Volatile => "volatile",
            Keyword::While => "while",
        }
    }

    pub fn from_index(i: usize) -> (k: Keyword)
        ensures
            k == Keyword::at(i as int),
    {
        if i == 0 {
            Keyword::Auto
        } else if i == 1 {
            Keyword::Break
        } else if i == 2 {
            Keyword::Case
        } else if i == 3 {
            Keyword::Char
        } else if i == 4 {
            Keyword::Const
        } else if i == 5 {
            Keyword::Continue
        } else if i == 6 {
            Keyword::Default
        } else if i == 7 {
            Keyword::Do
        } else if i == 8 {
            Keyword::Double
        } else if i == 9 {
            Keyword::Else
        } else if i == 10 {
            Keyword::Enum
        } else if i == 11 {
            Keyword::Extern
        } else if i == 12 {
            Keyword::Float
        } else if i == 13 {
            Keyword::For
        } else if i == 14 {
            Keyword::Goto
        } else if i == 15 {
            Keyword::If
        } else if i == 16 {
            Keyword::Int
        } else if i == 17 {
            Keyword::Long
        } else if i == 18 {
            Keyword::Register
        } else if i == 19 {
            Keyword::Return
        } else if i == 20 {
            Keyword::Short
        } else if i == 21 {
            Keyword::Signed
        } else if i == 22 {
            Keyword::Sizeof
        } else if i == 23 {
            Keyword::Static
        } else if i == 24 {
            Keyword::Struct
        } else if i == 25 {
            Keyword::Switch
        } else if i == 26 {
            Keyword::Typedef
        } else if i == 27 {
            Keyword::Union
        } else if i == 28 {
            Keyword::Unsigned
        } else if i == 29 {
            Keyword::Void
        } else if i == 30 {
            Keyword::Volatile
        } else {
            Keyword::While
        }
    }

    pub fn text(self) -> (s: &'static str)
        ensures
            s == self.spelling(),
    {
        match self {
            Keyword::Auto => "auto",
            Keyword::Break => "break",
            Keyword::Case => "case",
            Keyword::Char => "char",
            Keyword::Const => "const",
            Keyword::Continue => "continue",
            Keyword::Default => "default",
            Keyword::Do => "do",
            Keyword::Double => "double",
            Keyword::Else => "else",
            Keyword::Enum => "enum",
            Keyword::Extern => "extern",
            Keyword::Float => "float",
            Keyword::For => "for",
            Keyword::Goto => "goto",
            Keyword::If => "if",
            Keyword::Int => "int",
            Keyword::Long => "long",
            Keyword::Register => "register",
            Keyword::Return => "return",
            Keyword::Short => "short",
            Keyword::Signed => "signed",
            Keyword::Sizeof => "sizeof",
            Keyword::Static => "static",
            Keyword::Struct => "struct",
            Keyword::Switch => "switch",
            Keyword::Typedef => "typedef",
            Keyword::Union => "union",
            Keyword::Unsigned => "unsigned",
            Keyword::Void => "void",
            Keyword::Volatile => "volatile",
            Keyword::While => "while",
        }
    }
}

/// The punctuators.
#[derive(Clone, Copy, Debug, PartialEq, Eq, Structural)]
pub enum Punct {
    LParen,
    RParen,
    LBrace,
    RBrace,
    LBracket,
    RBracket,
    Semi,
    Comma,
    Dot,
    Arrow,
    Ellipsis,
    Question,
    Colon,
    Plus,
    Minus,
    Star,
    Slash,
    Percent,
    Amp,
    Pipe,
    Caret,
    Tilde,
    Bang,
    Assign,
    Lt,
    Gt,
    Le,
    Ge,
    EqEq,
    Ne,
    AndAnd,
    OrOr,
    Shl,
    Shr,
    PlusPlus,
    MinusMinus,
    PlusAssign,
    MinusAssign,
    StarAssign,
    SlashAssign,
    PercentAssign,
    AmpAssign,
    PipeAssign,
    CaretAssign,
    ShlAssign,
    ShrAssign,
}

/// An integer literal as written: its value, the base of its digits, and
/// what its suffix asks for.
#[derive(Clone, Copy, Debug, PartialEq, Eq, Structural)]
pub struct IntLiteral {
    pub value: u64,
    pub base: u8,
    pub unsigned: bool,
    pub longs: u8,
}

/// A floating literal as written: the exact decimal `mantissa * 10^exp10`,
/// and whether its suffix asks for single precision.
#[derive(Clone, Copy, Debug, PartialEq, Eq, Structural)]
pub struct FloatLiteral {
    pub mantissa: u64,
    pub exp10: i32,
    pub single: bool,
}

/// The kinds of token. A character literal carries the value of its one
/// character, a string literal the number of bytes it denotes, an
/// identifier its number in the table of names. `Invalid` stands in for
/// text that is no token.
#[derive(Clone, Copy, Debug, PartialEq, Eq, Structural)]
pub enum TokenKind {
    Ident(usize),
    Keyword(Keyword),
    Int(IntLiteral),
    Float(FloatLiteral),
    Char(u8),
    Str(usize),
    Punct(Punct),
    Eof,
    Invalid,
}

/// A token with the place of its first byte and the offset just past its
/// last byte.
#[derive(Clone, Copy, Debug, PartialEq, Eq, Structural)]
pub struct Token {
    pub kind: TokenKind,
    pub location: Location,
    pub end: usize,
}

} // verus!
