//! The lexer: from the bytes of a translation unit to its tokens.

use vstd::prelude::*;
use vstd::string::StringSliceAdditionalSpecFns;
use vstd::slice::slice_subrange;
use crate::error::DiagCode;
use crate::error::Diagnostic;
use crate::error::ErrorHandler;
use crate::error::Location;
use crate::error::Severity;
use crate::names::bytes_equal;
use crate::names::interned_id;
use crate::names::interned_names;
use crate::names::NameTable;
use crate::token::FloatLiteral;
use crate::token::IntLiteral;
use crate::token::Keyword;
use crate::token::Punct;
use crate::token::Token;
use crate::token::TokenKind;
use crate::token::KEYWORD_COUNT;

verus! {

/// The classes of bytes that the lexer scans runs of.
#[derive(Clone, Copy, Debug, PartialEq, Eq, Structural)]
pub enum CharClass {
    Space,
    Digit,
    Octal,
    Hex,
    Ident,
    NotNewline,
}

impl CharClass {
    /// Whether a byte belongs to the class.
    pub open spec fn has(self, c: u8) -> bool {
        match self {
            CharClass::Space => c == 32 || 9 <= c <= 13,
            CharClass::Digit => '0' as u8 <= c <= '9' as u8,
            CharClass::Octal => '0' as u8 <= c <= '7' as u8,
            CharClass::Hex => ('0' as u8 <= c <= '9' as u8) || ('a' as u8 <= c <= 'f' as u8) || (
            'A' as u8 <= c <= 'F' as u8),
            CharClass::Ident => ('0' as u8 <= c <= '9' as u8) || ('a' as u8 <= c <= 'z' as u8) || (
            'A' as u8 <= c <= 'Z' as u8) || c == '_' as u8,
            CharClass::NotNewline => c != 10,
        }
    }

    pub fn contains(self, c: u8) -> (b: bool)
        ensures
            b == self.has(c),
    {
        match self {
            CharClass::Space => c == 32 || (9 <= c && c <= 13),
            CharClass::Digit => '0' as u8 <= c && c <= '9' as u8,
            CharClass::Octal => '0' as u8 <= c && c <= '7' as u8,
            CharClass::Hex => ('0' as u8 <= c && c <= '9' as u8) || ('a' as u8 <= c && c
                <= 'f' as u8) || ('A' as u8 <= c && c <= 'F' as u8),
            CharClass::Ident => ('0' as u8 <= c && c <= '9' as u8) || ('a' as u8 <= c && c
                <= 'z' as u8) || ('A' as u8 <= c && c <= 'Z' as u8) || c == '_' as u8,
            CharClass::NotNewline => c != 10,
        }
    }
}

/// The end of the longest run of bytes of a class that starts at `pos`.
pub open spec fn run_end(src: Seq<u8>, pos: int, class: CharClass) -> int
    decreases src.len() - pos,
{
    if pos < 0 || pos >= src.len() || !class.has(src[pos]) {
        pos
    } else {
        run_end(src, pos + 1, class)
    }
}

/// A run ends at or after its start and within the text, every byte of it
/// is of the class, and the byte after it, if there is one, is not.
pub proof fn lemma_run_end(src: Seq<u8>, pos: int, class: CharClass)
    requires
        0 <= pos <= src.len(),
    ensures
        pos <= run_end(src, pos, class) <= src.len(),
        forall|i: int| pos <= i < run_end(src, pos, class) ==> class.has(#[trigger] src[i]),
        run_end(src, pos, class) < src.len() ==> !class.has(src[run_end(src, pos, class)]),
    decreases src.len() - pos,
{
    if pos < src.len() && class.has(src[pos]) {
        lemma_run_end(src, pos + 1, class);
    }
}

/// Scans the longest run of bytes of a class.
pub fn scan_run(src: &[u8], pos: usize, class: CharClass) -> (end: usize)
    requires
        pos <= src@.len(),
    ensures
        end == run_end(src@, pos as int, class),
        pos <= end <= src@.len(),
{
    let mut i: usize = pos;
    while i < src.len() && class.contains(src[i])
        invariant
            pos <= i <= src@.len(),
            run_end(src@, i as int, class) == run_end(src@, pos as int, class),
        decreases src@.len() - i,
    {
        i = i + 1;
    }
    i
}

/// The value of a digit of any base up to sixteen; zero for other bytes.
pub open spec fn digit_value(c: u8) -> int {
    if '0' as u8 <= c <= '9' as u8 {
        c - '0' as u8
    } else if 'a' as u8 <= c <= 'f' as u8 {
        c - 'a' as u8 + 10
    } else if 'A' as u8 <= c <= 'F' as u8 {
        c - 'A' as u8 + 10
    } else {
        0
    }
}

pub fn digit_of(c: u8) -> (d: u64)
    ensures
        d == digit_value(c),
        d < 16,
{
    if '0' as u8 <= c && c <= '9' as u8 {
        (c - '0' as u8) as u64
    } else if 'a' as u8 <= c && c <= 'f' as u8 {
        (c - 'a' as u8) as u64 + 10
    } else if 'A' as u8 <= c && c <= 'F' as u8 {
        (c - 'A' as u8) as u64 + 10
    } else {
        0
    }
}

/// The number that the digits `src[from..to]` denote in a base when they
/// follow digits that denote `acc`: each digit multiplies what came before
/// by the base and adds its own value.
pub open spec fn number_value(src: Seq<u8>, from: int, to: int, base: int, acc: int) -> int
    decreases to - from,
{
    if from >= to || from < 0 || from >= src.len() {
        acc
    } else {
        number_value(src, from + 1, to, base, acc * base + digit_value(src[from]))
    }
}

/// More digits never denote less.
pub proof fn lemma_number_value_grows(src: Seq<u8>, from: int, to: int, base: int, acc: int)
    requires
        acc >= 0,
        base >= 1,
    ensures
        number_value(src, from, to, base, acc) >= acc,
    decreases to - from,
{
    if !(from >= to || from < 0 || from >= src.len()) {
        assert(acc * base >= acc) by (nonlinear_arith)
            requires
                acc >= 0,
                base >= 1,
        ;
        lemma_number_value_grows(src, from + 1, to, base, acc * base + digit_value(src[from]));
    }
}

/// Reads the number that a run of digits denotes, if it fits.
pub fn parse_digits(src: &[u8], from: usize, to: usize, base: u64, init: u64) -> (r: Option<u64>)
    requires
        from <= to <= src@.len(),
        1 <= base <= 16,
    ensures
        match r {
            Some(v) => v == number_value(src@, from as int, to as int, base as int, init as int),
            None => number_value(src@, from as int, to as int, base as int, init as int)
                > u64::MAX,
        },
{
    let mut acc: u64 = init;
    let mut i: usize = from;
    while i < to
        invariant
            from <= i <= to <= src@.len(),
            1 <= base <= 16,
            number_value(src@, i as int, to as int, base as int, acc as int) == number_value(
                src@,
                from as int,
                to as int,
                base as int,
                init as int,
            ),
        decreases to - i,
    {
        let d: u64 = digit_of(src[i]);
        let next: Option<u64> = match acc.checked_mul(base) {
            Some(m) => m.checked_add(d),
            None => None,
        };
        match next {
            Some(v) => {
                acc = v;
            },
            None => {
                proof {
                    lemma_number_value_grows(
                        src@,
                        i as int + 1,
                        to as int,
                        base as int,
                        acc as int * base as int + digit_value(src@[i as int]),
                    );
                }
                return None;
            },
        }
        i = i + 1;
    }
    Some(acc)
}

/// The line of the byte at an offset: one more than the number of line
/// feeds before it, held at the largest number that fits.
pub open spec fn line_at(src: Seq<u8>, off: int) -> u32
    decreases off,
{
    if off <= 0 {
        1
    } else {
        let prev = line_at(src, off - 1);
        if off - 1 < src.len() && src[off - 1] == 10 && prev < u32::MAX {
            (prev + 1) as u32
        } else {
            prev
        }
    }
}

/// The column of the byte at an offset: one more than the number of bytes
/// between it and the last line feed before it, held at the largest number
/// that fits.
pub open spec fn column_at(src: Seq<u8>, off: int) -> u32
    decreases off,
{
    if off <= 0 {
        1
    } else if off - 1 < src.len() && src[off - 1] == 10 {
        1
    } else {
        let prev = column_at(src, off - 1);
        if prev < u32::MAX {
            (prev + 1) as u32
        } else {
            prev
        }
    }
}

/// The place of the byte at an offset.
pub open spec fn location_at(src: Seq<u8>, file: u32, off: int) -> Location {
    Location { file, line: line_at(src, off), column: column_at(src, off), offset: off as usize }
}

/// The offset just past the first `*/` that starts at or after `pos`; one
/// past the end of the text if there is none.
pub open spec fn comment_end(src: Seq<u8>, pos: int) -> int
    decreases src.len() - pos,
{
    if pos < 0 || pos + 1 >= src.len() {
        (src.len() + 1) as int
    } else if src[pos] == '*' as u8 && src[pos + 1] == '/' as u8 {
        pos + 2
    } else {
        comment_end(src, pos + 1)
    }
}

/// Where the white space and comments that start at an offset end, and the
/// start of the comment that runs to the end of the text, if one does.
pub struct Trivia {
    pub end: int,
    pub unterminated: bool,
    pub comment_start: int,
}

pub open spec fn trivia_end(src: Seq<u8>, pos: int) -> Trivia
    decreases src.len() - pos,
{
    if pos < 0 || pos >= src.len() {
        Trivia { end: pos, unterminated: false, comment_start: 0 }
    } else if CharClass::Space.has(src[pos]) {
        trivia_end(src, pos + 1)
    } else if src[pos] == '/' as u8 && pos + 1 < src.len() && src[pos + 1] == '/' as u8 {
        let e = run_end(src, pos + 2, CharClass::NotNewline);
        if pos + 2 <= e <= src.len() {
            trivia_end(src, e)
        } else {
            Trivia { end: pos, unterminated: false, comment_start: 0 }
        }
    } else if src[pos] == '/' as u8 && pos + 1 < src.len() && src[pos + 1] == '*' as u8 {
        let e = comment_end(src, pos + 2);
        if e > src.len() {
            Trivia { end: src.len() as int, unterminated: true, comment_start: pos }
        } else if e >= pos + 2 {
            trivia_end(src, e)
        } else {
            Trivia { end: pos, unterminated: false, comment_start: 0 }
        }
    } else {
        Trivia { end: pos, unterminated: false, comment_start: 0 }
    }
}

/// Finds the end of a block comment whose body starts at `pos`.
pub fn scan_comment(src: &[u8], pos: usize) -> (r: Option<usize>)
    requires
        pos <= src@.len(),
    ensures
        match r {
            Some(e) => e == comment_end(src@, pos as int) && pos + 2 <= e <= src@.len(),
            None => comment_end(src@, pos as int) > src@.len(),
        },
{
    let mut i: usize = pos;
    while i < src.len() && src.len() - i >= 2
        invariant
            pos <= i <= src@.len(),
            comment_end(src@, i as int) == comment_end(src@, pos as int),
        decreases src@.len() - i,
    {
        if src[i] == '*' as u8 && src[i + 1] == '/' as u8 {
            return Some(i + 2);
        }
        i = i + 1;
    }
    None
}

/// Skips white space and comments. The result is the offset of the first
/// byte that belongs to neither, and the start of a comment that was not
/// closed, if there is one.
pub fn skip_trivia(src: &[u8], pos: usize) -> (r: (usize, Option<usize>))
    requires
        pos <= src@.len(),
    ensures
        r.0 == trivia_end(src@, pos as int).end,
        pos <= r.0 <= src@.len(),
        match r.1 {
            Some(s) => trivia_end(src@, pos as int).unterminated && s == trivia_end(
                src@,
                pos as int,
            ).comment_start && pos <= s <= r.0,
            None => !trivia_end(src@, pos as int).unterminated,
        },
{
    let mut i: usize = pos;
    loop
        invariant
            pos <= i <= src@.len(),
            trivia_end(src@, i as int) == trivia_end(src@, pos as int),
        decreases src@.len() - i,
    {
        if i >= src.len() {
            return (i, None);
        }
        let c: u8 = src[i];
        if CharClass::Space.contains(c) {
            i = i + 1;
        } else if c == '/' as u8 && src.len() - i >= 2 && src[i + 1] == '/' as u8 {
            i = scan_run(src, i + 2, CharClass::NotNewline);
        } else if c == '/' as u8 && src.len() - i >= 2 && src[i + 1] == '*' as u8 {
            match scan_comment(src, i + 2) {
                Some(e) => {
                    i = e;
                },
                None => {
                    return (src.len(), Some(i));
                },
            }
        } else {
            return (i, None);
        }
    }
}

/// The lower-case form of a letter; other bytes are unchanged.
pub open spec fn lower(c: u8) -> u8 {
    if 'A' as u8 <= c <= 'Z' as u8 {
        (c + 32) as u8
    } else {
        c
    }
}

pub fn to_lower(c: u8) -> (r: u8)
    ensures
        r == lower(c),
{
    if 'A' as u8 <= c && c <= 'Z' as u8 {
        c + 32
    } else {
        c
    }
}

/// What the suffix `src[from..to]` of an integer literal asks for: whether
/// the type is unsigned, and how many times `long` it is. The suffixes are
/// `u`, `l`, `ll` and the combinations of `u` with the other two, in either
/// order and either case, the two letters of `ll` being the same.
pub open spec fn int_suffix(src: Seq<u8>, from: int, to: int) -> Option<(bool, u8)> {
    let n = to - from;
    if n == 0 {
        Some((false, 0u8))
    } else if n == 1 {
        let a = lower(src[from]);
        if a == 'u' as u8 {
            Some((true, 0u8))
        } else if a == 'l' as u8 {
            Some((false, 1u8))
        } else {
            None
        }
    } else if n == 2 {
        let a = lower(src[from]);
        let b = lower(src[from + 1]);
        if (a == 'u' as u8 && b == 'l' as u8) || (a == 'l' as u8 && b == 'u' as u8) {
            Some((true, 1u8))
        } else if a == 'l' as u8 && src[from] == src[from + 1] {
            Some((false, 2u8))
        } else {
            None
        }
    } else if n == 3 {
        let a = lower(src[from]);
        let b = lower(src[from + 1]);
        let c = lower(src[from + 2]);
        if a == 'u' as u8 && b == 'l' as u8 && src[from + 1] == src[from + 2] {
            Some((true, 2u8))
        } else if c == 'u' as u8 && a == 'l' as u8 && src[from] == src[from + 1] {
            Some((true, 2u8))
        } else {
            None
        }
    } else {
        None
    }
}

/// What the suffix of a floating literal asks for: whether the type has
/// single precision. The suffixes are `f` and `l`, in either case.
pub open spec fn float_suffix(src: Seq<u8>, from: int, to: int) -> Option<bool> {
    let n = to - from;
    if n == 0 {
        Some(false)
    } else if n == 1 {
        let a = lower(src[from]);
        if a == 'f' as u8 {
            Some(true)
        } else if a == 'l' as u8 {
            Some(false)
        } else {
            None
        }
    } else {
        None
    }
}

pub fn int_suffix_of(src: &[u8], from: usize, to: usize) -> (r: Option<(bool, u8)>)
    requires
        from <= to <= src@.len(),
    ensures
        r == int_suffix(src@, from as int, to as int),
{
    let n: usize = to - from;
    if n == 0 {
        Some((false, 0u8))
    } else if n == 1 {
        let a: u8 = to_lower(src[from]);
        if a == 'u' as u8 {
            Some((true, 0u8))
        } else if a == 'l' as u8 {
            Some((false, 1u8))
        } else {
            None
        }
    } else if n == 2 {
        let a: u8 = to_lower(src[from]);
        let b: u8 = to_lower(src[from + 1]);
        if (a == 'u' as u8 && b == 'l' as u8) || (a == 'l' as u8 && b == 'u' as u8) {
            Some((true, 1u8))
        } else if a == 'l' as u8 && src[from] == src[from + 1] {
            Some((false, 2u8))
        } else {
            None
        }
    } else if n == 3 {
        let a: u8 = to_lower(src[from]);
        let b: u8 = to_lower(src[from + 1]);
        let c: u8 = to_lower(src[from + 2]);
        if a == 'u' as u8 && b == 'l' as u8 && src[from + 1] == src[from + 2] {
            Some((true, 2u8))
        } else if c == 'u' as u8 && a == 'l' as u8 && src[from] == src[from + 1] {
            Some((true, 2u8))
        } else {
            None
        }
    } else {
        None
    }
}

pub fn float_suffix_of(src: &[u8], from: usize, to: usize) -> (r: Option<bool>)
    requires
        from <= to <= src@.len(),
    ensures
        r == float_suffix(src@, from as int, to as int),
{
    let n: usize = to - from;
    if n == 0 {
        Some(false)
    } else if n == 1 {
        let a: u8 = to_lower(src[from]);
        if a == 'f' as u8 {
            Some(true)
        } else if a == 'l' as u8 {
            Some(false)
        } else {
            None
        }
    } else {
        None
    }
}

/// What scanning one token finds: its kind, the offset just past it, and
/// the error in it, if there is one.
pub struct Scan {
    pub kind: TokenKind,
    pub end: int,
    pub error: Option<DiagCode>,
}

/// A scan as the lexer computes it.
#[derive(Clone, Copy, Debug)]
pub struct Scanned {
    pub kind: TokenKind,
    pub end: usize,
    pub error: Option<DiagCode>,
}

impl View for Scanned {
    type V = Scan;

    open spec fn view(&self) -> Scan {
        Scan { kind: self.kind, end: self.end as int, error: self.error }
    }
}

/// The scan of text that is no literal.
pub open spec fn malformed(end: int) -> Scan {
    Scan { kind: TokenKind::Invalid, end, error: Some(DiagCode::MalformedLiteral) }
}

fn malformed_at(end: usize) -> (r: Scanned)
    ensures
        r@ == malformed(end as int),
{
    Scanned { kind: TokenKind::Invalid, end, error: Some(DiagCode::MalformedLiteral) }
}

/// The largest exponent, and the largest number of digits after the point,
/// that a floating literal may have.
pub const FLOAT_LIMIT: u64 = 100000;

/// The scan of a hexadecimal literal, whose `0x` starts at `pos`: at least
/// one digit, then a suffix. The token runs to the end of the letters and
/// digits that follow the digits.
pub open spec fn scan_hex(src: Seq<u8>, pos: int) -> Scan {
    let digits_end = run_end(src, pos + 2, CharClass::Hex);
    let end = run_end(src, digits_end, CharClass::Ident);
    let value = number_value(src, pos + 2, digits_end, 16, 0);
    let suffix = int_suffix(src, digits_end, end);
    if digits_end > pos + 2 && value <= u64::MAX && suffix is Some {
        Scan {
            kind: TokenKind::Int(
                IntLiteral {
                    value: value as u64,
                    base: 16,
                    unsigned: suffix.unwrap().0,
                    longs: suffix.unwrap().1,
                },
            ),
            end,
            error: None,
        }
    } else {
        malformed(end)
    }
}

/// The scan of a decimal or octal integer literal whose digits are
/// `src[pos..digits_end]`. A literal that starts with `0` is octal, and
/// each of its digits must be one.
pub open spec fn scan_integer(src: Seq<u8>, pos: int, digits_end: int) -> Scan {
    let end = run_end(src, digits_end, CharClass::Ident);
    let octal = src[pos] == '0' as u8;
    let base: u8 = if octal {
        8
    } else {
        10
    };
    let value = number_value(src, pos, digits_end, base as int, 0);
    let suffix = int_suffix(src, digits_end, end);
    let digits_ok = !octal || run_end(src, pos, CharClass::Octal) == digits_end;
    if digits_ok && value <= u64::MAX && suffix is Some {
        Scan {
            kind: TokenKind::Int(
                IntLiteral { value: value as u64, base, unsigned: suffix.unwrap().0, longs: suffix.unwrap().1 },
            ),
            end,
            error: None,
        }
    } else {
        malformed(end)
    }
}

/// The scan of a floating literal whose integer digits are
/// `src[pos..int_end]`: an optional point and fraction, an optional
/// exponent, a suffix. Its value is the number that all its digits denote
/// together, times ten to the exponent less the number of fraction digits.
pub open spec fn scan_float(src: Seq<u8>, pos: int, int_end: int) -> Scan {
    let has_dot = int_end < src.len() && src[int_end] == '.' as u8;
    let frac_start = if has_dot {
        int_end + 1
    } else {
        int_end
    };
    let frac_end = if has_dot {
        run_end(src, frac_start, CharClass::Digit)
    } else {
        int_end
    };
    let has_exp = 0 <= frac_end < src.len() && lower(src[frac_end]) == 'e' as u8;
    let sign_pos = frac_end + 1;
    let has_sign = has_exp && sign_pos < src.len() && (src[sign_pos] == '+' as u8 || src[sign_pos]
        == '-' as u8);
    let negative = has_sign && src[sign_pos] == '-' as u8;
    let exp_start = if has_sign {
        sign_pos + 1
    } else if has_exp {
        sign_pos
    } else {
        frac_end
    };
    let exp_end = if has_exp {
        run_end(src, exp_start, CharClass::Digit)
    } else {
        frac_end
    };
    let end = run_end(src, exp_end, CharClass::Ident);
    let mantissa = number_value(
        src,
        frac_start,
        frac_end,
        10,
        number_value(src, pos, int_end, 10, 0),
    );
    let exponent = number_value(src, exp_start, exp_end, 10, 0);
    let suffix = float_suffix(src, exp_end, end);
    if mantissa <= u64::MAX && (has_exp ==> exp_end > exp_start) && exponent <= FLOAT_LIMIT
        && frac_end - frac_start <= FLOAT_LIMIT && suffix is Some {
        Scan {
            kind: TokenKind::Float(
                FloatLiteral {
                    mantissa: mantissa as u64,
                    exp10: ((if negative {
                        -exponent
                    } else {
                        exponent
                    }) - (frac_end - frac_start)) as i32,
                    single: suffix->0,
                },
            ),
            end,
            error: None,
        }
    } else {
        malformed(end)
    }
}

/// The scan of a numeric literal that starts at `pos`.
pub open spec fn scan_number(src: Seq<u8>, pos: int) -> Scan {
    if src[pos] == '0' as u8 && pos + 1 < src.len() && lower(src[pos + 1]) == 'x' as u8 {
        scan_hex(src, pos)
    } else {
        let int_end = run_end(src, pos, CharClass::Digit);
        if 0 <= int_end < src.len() && (src[int_end] == '.' as u8 || lower(src[int_end])
            == 'e' as u8) {
            scan_float(src, pos, int_end)
        } else {
            scan_integer(src, pos, int_end)
        }
    }
}

fn lex_hex(src: &[u8], pos: usize) -> (r: Scanned)
    requires
        pos + 1 < src@.len(),
    ensures
        r@ == scan_hex(src@, pos as int),
        pos < r.end <= src@.len(),
{
    let len: usize = src.len();
    let digits_end: usize = scan_run(src, pos + 2, CharClass::Hex);
    let end: usize = scan_run(src, digits_end, CharClass::Ident);
    let value: Option<u64> = parse_digits(src, pos + 2, digits_end, 16, 0);
    let suffix: Option<(bool, u8)> = int_suffix_of(src, digits_end, end);
    if digits_end > pos + 2 {
        if let Some(v) = value {
            if let Some(sfx) = suffix {
                return Scanned {
                    kind: TokenKind::Int(
                        IntLiteral { value: v, base: 16, unsigned: sfx.0, longs: sfx.1 },
                    ),
                    end,
                    error: None,
                };
            }
        }
    }
    malformed_at(end)
}

fn lex_integer(src: &[u8], pos: usize, digits_end: usize) -> (r: Scanned)
    requires
        pos < digits_end <= src@.len(),
    ensures
        r@ == scan_integer(src@, pos as int, digits_end as int),
        pos < r.end <= src@.len(),
{
    let end: usize = scan_run(src, digits_end, CharClass::Ident);
    let octal: bool = src[pos] == '0' as u8;
    let base: u8 = if octal {
        8
    } else {
        10
    };
    let value: Option<u64> = parse_digits(src, pos, digits_end, base as u64, 0);
    let suffix: Option<(bool, u8)> = int_suffix_of(src, digits_end, end);
    let digits_ok: bool = !octal || scan_run(src, pos, CharClass::Octal) == digits_end;
    if digits_ok {
        if let Some(v) = value {
            if let Some(sfx) = suffix {
                return Scanned {
                    kind: TokenKind::Int(
                        IntLiteral { value: v, base, unsigned: sfx.0, longs: sfx.1 },
                    ),
                    end,
                    error: None,
                };
            }
        }
    }
    malformed_at(end)
}

fn lex_float(src: &[u8], pos: usize, int_end: usize) -> (r: Scanned)
    requires
        pos <= int_end < src@.len(),
        src@[int_end as int] == '.' as u8 || lower(src@[int_end as int]) == 'e' as u8,
    ensures
        r@ == scan_float(src@, pos as int, int_end as int),
        pos < r.end <= src@.len(),
{
    let has_dot: bool = src[int_end] == '.' as u8;
    let frac_start: usize = if has_dot {
        int_end + 1
    } else {
        int_end
    };
    let frac_end: usize = if has_dot {
        scan_run(src, frac_start, CharClass::Digit)
    } else {
        int_end
    };
    let has_exp: bool = frac_end < src.len() && to_lower(src[frac_end]) == 'e' as u8;
    let has_sign: bool = has_exp && src.len() - frac_end >= 2 && (src[frac_end + 1] == '+' as u8
        || src[frac_end + 1] == '-' as u8);
    let negative: bool = has_sign && src[frac_end + 1] == '-' as u8;
    let exp_start: usize = if has_sign {
        frac_end + 2
    } else if has_exp {
        frac_end + 1
    } else {
        frac_end
    };
    let exp_end: usize = if has_exp {
        scan_run(src, exp_start, CharClass::Digit)
    } else {
        frac_end
    };
    let end: usize = scan_run(src, exp_end, CharClass::Ident);
    let suffix: Option<bool> = float_suffix_of(src, exp_end, end);
    let whole: Option<u64> = parse_digits(src, pos, int_end, 10, 0);
    let mantissa: Option<u64> = match whole {
        Some(w) => parse_digits(src, frac_start, frac_end, 10, w),
        None => {
            proof {
                lemma_number_value_grows(
                    src@,
                    frac_start as int,
                    frac_end as int,
                    10,
                    number_value(src@, pos as int, int_end as int, 10, 0),
                );
            }
            None
        },
    };
    let exponent: Option<u64> = parse_digits(src, exp_start, exp_end, 10, 0);
    if !has_exp || exp_end > exp_start {
        if frac_end - frac_start <= FLOAT_LIMIT as usize {
            if let Some(m) = mantissa {
                if let Some(e) = exponent {
                    if e <= FLOAT_LIMIT {
                        if let Some(single) = suffix {
                            let scale: i32 = if negative {
                                -(e as i32)
                            } else {
                                e as i32
                            };
                            let exp10: i32 = scale - ((frac_end - frac_start) as i32);
                            return Scanned {
                                kind: TokenKind::Float(FloatLiteral { mantissa: m, exp10, single }),
                                end,
                                error: None,
                            };
                        }
                    }
                }
            }
        }
    }
    malformed_at(end)
}

/// Scans a numeric literal.
pub fn lex_number(src: &[u8], pos: usize) -> (r: Scanned)
    requires
        pos < src@.len(),
        CharClass::Digit.has(src@[pos as int]) || (src@[pos as int] == '.' as u8 && pos + 1
            < src@.len() && CharClass::Digit.has(src@[pos + 1])),
    ensures
        r@ == scan_number(src@, pos as int),
        pos < r.end <= src@.len(),
{
    if src[pos] == '0' as u8 && src.len() - pos >= 2 && to_lower(src[pos + 1]) == 'x' as u8 {
        lex_hex(src, pos)
    } else {
        let int_end: usize = scan_run(src, pos, CharClass::Digit);
        if int_end < src.len() && (src[int_end] == '.' as u8 || to_lower(src[int_end])
            == 'e' as u8) {
            lex_float(src, pos, int_end)
        } else {
            proof {
                lemma_run_end(src@, pos as int + 1, CharClass::Digit);
            }
            lex_integer(src, pos, int_end)
        }
    }
}

/// The value of an escape sequence of one letter or sign after the
/// backslash.
pub open spec fn simple_escape(c: u8) -> Option<u8> {
    if c == 'n' as u8 {
        Some(10u8)
    } else if c == 't' as u8 {
        Some(9u8)
    } else if c == 'r' as u8 {
        Some(13u8)
    } else if c == 'a' as u8 {
        Some(7u8)
    } else if c == 'b' as u8 {
        Some(8u8)
    } else if c == 'f' as u8 {
        Some(12u8)
    } else if c == 'v' as u8 {
        Some(11u8)
    } else if c == '\\' as u8 || c == '\'' as u8 || c == '"' as u8 || c == '?' as u8 {
        Some(c)
    } else {
        None
    }
}

pub fn simple_escape_of(c: u8) -> (r: Option<u8>)
    ensures
        r == simple_escape(c),
{
    if c == 'n' as u8 {
        Some(10u8)
    } else if c == 't' as u8 {
        Some(9u8)
    } else if c == 'r' as u8 {
        Some(13u8)
    } else if c == 'a' as u8 {
        Some(7u8)
    } else if c == 'b' as u8 {
        Some(8u8)
    } else if c == 'f' as u8 {
        Some(12u8)
    } else if c == 'v' as u8 {
        Some(11u8)
    } else if c == '\\' as u8 || c == '\'' as u8 || c == '"' as u8 || c == '?' as u8 {
        Some(c)
    } else {
        None
    }
}

/// An escape sequence: the byte it denotes, the offset just past it, and
/// whether it is one at all.
pub struct Escape {
    pub value: u8,
    pub end: int,
    pub ok: bool,
}

/// The escape sequence whose backslash is at `pos`: up to three octal
/// digits, `x` and hexadecimal digits, or one of the letters and signs of
/// `simple_escape`. The digits must denote a number that fits in a byte.
pub open spec fn escape_at(src: Seq<u8>, pos: int) -> Escape {
    if pos + 1 >= src.len() {
        Escape { value: 0, end: pos + 1, ok: false }
    } else {
        let c = src[pos + 1];
        if CharClass::Octal.has(c) {
            let run = run_end(src, pos + 1, CharClass::Octal);
            let end = if run > pos + 4 {
                pos + 4
            } else {
                run
            };
            let v = number_value(src, pos + 1, end, 8, 0);
            Escape { value: if v <= 255 {
                v as u8
            } else {
                0
            }, end, ok: v <= 255 }
        } else if c == 'x' as u8 {
            let end = run_end(src, pos + 2, CharClass::Hex);
            let v = number_value(src, pos + 2, end, 16, 0);
            let ok = end > pos + 2 && v <= 255;
            Escape { value: if ok {
                v as u8
            } else {
                0
            }, end, ok }
        } else {
            match simple_escape(c) {
                Some(v) => Escape { value: v, end: pos + 2, ok: true },
                None => Escape { value: 0, end: pos + 2, ok: false },
            }
        }
    }
}

/// An escape sequence as the lexer computes it.
pub struct Escaped {
    pub value: u8,
    pub end: usize,
    pub ok: bool,
}

impl View for Escaped {
    type V = Escape;

    open spec fn view(&self) -> Escape {
        Escape { value: self.value, end: self.end as int, ok: self.ok }
    }
}

/// Reads the escape sequence whose backslash is at `pos`.
pub fn lex_escape(src: &[u8], pos: usize) -> (r: Escaped)
    requires
        pos < src@.len(),
    ensures
        r@ == escape_at(src@, pos as int),
        pos < r.end <= src@.len(),
{
    if src.len() - pos < 2 {
        return Escaped { value: 0, end: pos + 1, ok: false };
    }
    let c: u8 = src[pos + 1];
    if CharClass::Octal.contains(c) {
        let run: usize = scan_run(src, pos + 1, CharClass::Octal);
        let end: usize = if run - pos > 4 {
            pos + 4
        } else {
            run
        };
        match parse_digits(src, pos + 1, end, 8, 0) {
            Some(v) => if v <= 255 {
                Escaped { value: v as u8, end, ok: true }
            } else {
                Escaped { value: 0, end, ok: false }
            },
            None => Escaped { value: 0, end, ok: false },
        }
    } else if c == 'x' as u8 {
        let end: usize = scan_run(src, pos + 2, CharClass::Hex);
        match parse_digits(src, pos + 2, end, 16, 0) {
            Some(v) => if end > pos + 2 && v <= 255 {
                Escaped { value: v as u8, end, ok: true }
            } else {
                Escaped { value: 0, end, ok: false }
            },
            None => Escaped { value: 0, end, ok: false },
        }
    } else {
        match simple_escape_of(c) {
            Some(v) => Escaped { value: v, end: pos + 2, ok: true },
            None => Escaped { value: 0, end: pos + 2, ok: false },
        }
    }
}

/// The scan of a character literal whose opening quote is at `pos`: one
/// byte or one escape sequence between two quotes on one line.
pub open spec fn scan_char(src: Seq<u8>, pos: int) -> Scan {
    let p = pos + 1;
    if p >= src.len() || src[p] == 10 {
        Scan { kind: TokenKind::Invalid, end: p, error: Some(DiagCode::UnterminatedChar) }
    } else if src[p] == '\'' as u8 {
        malformed(p + 1)
    } else {
        let esc = if src[p] == '\\' as u8 {
            escape_at(src, p)
        } else {
            Escape { value: src[p], end: p + 1, ok: true }
        };
        if 0 <= esc.end < src.len() && src[esc.end] == '\'' as u8 {
            if esc.ok {
                Scan { kind: TokenKind::Char(esc.value), end: esc.end + 1, error: None }
            } else {
                malformed(esc.end + 1)
            }
        } else {
            Scan {
                kind: TokenKind::Invalid,
                end: esc.end,
                error: Some(DiagCode::UnterminatedChar),
            }
        }
    }
}

/// Scans a character literal.
pub fn lex_char(src: &[u8], pos: usize) -> (r: Scanned)
    requires
        pos < src@.len(),
    ensures
        r@ == scan_char(src@, pos as int),
        pos < r.end <= src@.len(),
{
    let len: usize = src.len();
    let p: usize = pos + 1;
    if p >= len || src[p] == 10 {
        return Scanned {
            kind: TokenKind::Invalid,
            end: p,
            error: Some(DiagCode::UnterminatedChar),
        };
    }
    if src[p] == '\'' as u8 {
        return malformed_at(p + 1);
    }
    let esc: Escaped = if src[p] == '\\' as u8 {
        lex_escape(src, p)
    } else {
        Escaped { value: src[p], end: p + 1, ok: true }
    };
    if esc.end < src.len() && src[esc.end] == '\'' as u8 {
        if esc.ok {
            Scanned { kind: TokenKind::Char(esc.value), end: esc.end + 1, error: None }
        } else {
            malformed_at(esc.end + 1)
        }
    } else {
        Scanned { kind: TokenKind::Invalid, end: esc.end, error: Some(DiagCode::UnterminatedChar) }
    }
}

/// What scanning the body of a string literal finds: the offset just past
/// it, the number of bytes it denotes, whether an escape sequence in it is
/// none, and whether it is closed.
pub struct StrScan {
    pub end: int,
    pub count: int,
    pub bad: bool,
    pub closed: bool,
}

/// The scan of the rest of a string literal from `pos` on, after `count`
/// bytes. The literal ends at the first quote that no backslash precedes;
/// it is not closed if the line or the text ends first.
pub open spec fn string_body(src: Seq<u8>, pos: int, count: int, bad: bool) -> StrScan
    decreases src.len() - pos,
{
    if pos < 0 || pos >= src.len() || src[pos] == 10 {
        StrScan { end: pos, count, bad, closed: false }
    } else if src[pos] == '"' as u8 {
        StrScan { end: pos + 1, count, bad, closed: true }
    } else if src[pos] == '\\' as u8 {
        let esc = escape_at(src, pos);
        if pos < esc.end <= src.len() {
            string_body(src, esc.end, count + 1, bad || !esc.ok)
        } else {
            StrScan { end: pos, count, bad, closed: false }
        }
    } else {
        string_body(src, pos + 1, count + 1, bad)
    }
}

/// The scan of a string literal whose opening quote is at `pos`.
pub open spec fn scan_string(src: Seq<u8>, pos: int) -> Scan {
    let body = string_body(src, pos + 1, 0, false);
    if !body.closed {
        Scan { kind: TokenKind::Invalid, end: body.end, error: Some(DiagCode::UnterminatedString) }
    } else if body.bad {
        malformed(body.end)
    } else {
        Scan { kind: TokenKind::Str(body.count as usize), end: body.end, error: None }
    }
}

/// Scans a string literal.
pub fn lex_string(src: &[u8], pos: usize) -> (r: Scanned)
    requires
        pos < src@.len(),
    ensures
        r@ == scan_string(src@, pos as int),
        pos < r.end <= src@.len(),
{
    let len: usize = src.len();
    let mut i: usize = pos + 1;
    let mut count: usize = 0;
    let mut bad: bool = false;
    loop
        invariant
            pos < i <= src@.len(),
            count <= i,
            string_body(src@, i as int, count as int, bad) == string_body(
                src@,
                pos as int + 1,
                0,
                false,
            ),
        decreases src@.len() - i,
    {
        if i >= src.len() || src[i] == 10 {
            return Scanned {
                kind: TokenKind::Invalid,
                end: i,
                error: Some(DiagCode::UnterminatedString),
            };
        }
        let c: u8 = src[i];
        if c == '"' as u8 {
            if bad {
                return malformed_at(i + 1);
            }
            return Scanned { kind: TokenKind::Str(count), end: i + 1, error: None };
        }
        if c == '\\' as u8 {
            let esc: Escaped = lex_escape(src, i);
            bad = bad || !esc.ok;
            i = esc.end;
        } else {
            i = i + 1;
        }
        count = count + 1;
    }
}

/// The punctuator of three bytes that these bytes spell.
pub open spec fn punct3(a: u8, b: u8, c: u8) -> Option<Punct> {
    if a == '.' as u8 && b == '.' as u8 && c == '.' as u8 {
        Some(Punct::Ellipsis)
    } else if a == '<' as u8 && b == '<' as u8 && c == '=' as u8 {
        Some(Punct::ShlAssign)
    } else if a == '>' as u8 && b == '>' as u8 && c == '=' as u8 {
        Some(Punct::ShrAssign)
    } else {
        None
    }
}

/// The punctuator of two bytes that these bytes spell.
pub open spec fn punct2(a: u8, b: u8) -> Option<Punct> {
    if a == '-' as u8 && b == '>' as u8 {
        Some(Punct::Arrow)
    } else if a == '+' as u8 && b == '+' as u8 {
        Some(Punct::PlusPlus)
    } else if a == '-' as u8 && b == '-' as u8 {
        Some(Punct::MinusMinus)
    } else if a == '<' as u8 && b == '<' as u8 {
        Some(Punct::Shl)
    } else if a == '>' as u8 && b == '>' as u8 {
        Some(Punct::Shr)
    } else if a == '&' as u8 && b == '&' as u8 {
        Some(Punct::AndAnd)
    } else if a == '|' as u8 && b == '|' as u8 {
        Some(Punct::OrOr)
    } else if b == '=' as u8 {
        if a == '<' as u8 {
            Some(Punct::Le)
        } else if a == '>' as u8 {
            Some(Punct::Ge)
        } else if a == '=' as u8 {
            Some(Punct::EqEq)
        } else if a == '!' as u8 {
            Some(Punct::Ne)
        } else if a == '+' as u8 {
            Some(Punct::PlusAssign)
        } else if a == '-' as u8 {
            Some(Punct::MinusAssign)
        } else if a == '*' as u8 {
            Some(Punct::StarAssign)
        } else if a == '/' as u8 {
            Some(Punct::SlashAssign)
        } else if a == '%' as u8 {
            Some(Punct::PercentAssign)
        } else if a == '&' as u8 {
            Some(Punct::AmpAssign)
        } else if a == '|' as u8 {
            Some(Punct::PipeAssign)
        } else if a == '^' as u8 {
            Some(Punct::CaretAssign)
        } else {
            None
        }
    } else {
        None
    }
}

/// The punctuator of one byte that this byte spells.
pub open spec fn punct1(a: u8) -> Option<Punct> {
    if a == '(' as u8 {
        Some(Punct::LParen)
    } else if a == ')' as u8 {
        Some(Punct::RParen)
    } else if a == '{' as u8 {
        Some(Punct::LBrace)
    } else if a == '}' as u8 {
        Some(Punct::RBrace)
    } else if a == '[' as u8 {
        Some(Punct::LBracket)
    } else if a == ']' as u8 {
        Some(Punct::RBracket)
    } else if a == ';' as u8 {
        Some(Punct::Semi)
    } else if a == ',' as u8 {
        Some(Punct::Comma)
    } else if a == '.' as u8 {
        Some(Punct::Dot)
    } else if a == '?' as u8 {
        Some(Punct::Question)
    } else if a == ':' as u8 {
        Some(Punct::Colon)
    } else if a == '+' as u8 {
        Some(Punct::Plus)
    } else if a == '-' as u8 {
        Some(Punct::Minus)
    } else if a == '*' as u8 {
        Some(Punct::Star)
    } else if a == '/' as u8 {
        Some(Punct::Slash)
    } else if a == '%' as u8 {
        Some(Punct::Percent)
    } else if a == '&' as u8 {
        Some(Punct::Amp)
    } else if a == '|' as u8 {
        Some(Punct::Pipe)
    } else if a == '^' as u8 {
        Some(Punct::Caret)
    } else if a == '~' as u8 {
        Some(Punct::Tilde)
    } else if a == '!' as u8 {
        Some(Punct::Bang)
    } else if a == '=' as u8 {
        Some(Punct::Assign)
    } else if a == '<' as u8 {
        Some(Punct::Lt)
    } else if a == '>' as u8 {
        Some(Punct::Gt)
    } else {
        None
    }
}

pub fn punct3_of(a: u8, b: u8, c: u8) -> (r: Option<Punct>)
    ensures
        r == punct3(a, b, c),
{
    if a == '.' as u8 && b == '.' as u8 && c == '.' as u8 {
        Some(Punct::Ellipsis)
    } else if a == '<' as u8 && b == '<' as u8 && c == '=' as u8 {
        Some(Punct::ShlAssign)
    } else if a == '>' as u8 && b == '>' as u8 && c == '=' as u8 {
        Some(Punct::ShrAssign)
    } else {
        None
    }
}

pub fn punct2_of(a: u8, b: u8) -> (r: Option<Punct>)
    ensures
        r == punct2(a, b),
{
    if a == '-' as u8 && b == '>' as u8 {
        Some(Punct::Arrow)
    } else if a == '+' as u8 && b == '+' as u8 {
        Some(Punct::PlusPlus)
    } else if a == '-' as u8 && b == '-' as u8 {
        Some(Punct::MinusMinus)
    } else if a == '<' as u8 && b == '<' as u8 {
        Some(Punct::Shl)
    } else if a == '>' as u8 && b == '>' as u8 {
        Some(Punct::Shr)
    } else if a == '&' as u8 && b == '&' as u8 {
        Some(Punct::AndAnd)
    } else if a == '|' as u8 && b == '|' as u8 {
        Some(Punct::OrOr)
    } else if b == '=' as u8 {
        if a == '<' as u8 {
            Some(Punct::Le)
        } else if a == '>' as u8 {
            Some(Punct::Ge)
        } else if a == '=' as u8 {
            Some(Punct::EqEq)
        } else if a == '!' as u8 {
            Some(Punct::Ne)
        } else if a == '+' as u8 {
            Some(Punct::PlusAssign)
        } else if a == '-' as u8 {
            Some(Punct::MinusAssign)
        } else if a == '*' as u8 {
            Some(Punct::StarAssign)
        } else if a == '/' as u8 {
            Some(Punct::SlashAssign)
        } else if a == '%' as u8 {
            Some(Punct::PercentAssign)
        } else if a == '&' as u8 {
            Some(Punct::AmpAssign)
        } else if a == '|' as u8 {
            Some(Punct::PipeAssign)
        } else if a == '^' as u8 {
            Some(Punct::CaretAssign)
        } else {
            None
        }
    } else {
        None
    }
}

pub fn punct1_of(a: u8) -> (r: Option<Punct>)
    ensures
        r == punct1(a),
{
    if a == '(' as u8 {
        Some(Punct::LParen)
    } else if a == ')' as u8 {
        Some(Punct::RParen)
    } else if a == '{' as u8 {
        Some(Punct::LBrace)
    } else if a == '}' as u8 {
        Some(Punct::RBrace)
    } else if a == '[' as u8 {
        Some(Punct::LBracket)
    } else if a == ']' as u8 {
        Some(Punct::RBracket)
    } else if a == ';' as u8 {
        Some(Punct::Semi)
    } else if a == ',' as u8 {
        Some(Punct::Comma)
    } else if a == '.' as u8 {
        Some(Punct::Dot)
    } else if a == '?' as u8 {
        Some(Punct::Question)
    } else if a == ':' as u8 {
        Some(Punct::Colon)
    } else if a == '+' as u8 {
        Some(Punct::Plus)
    } else if a == '-' as u8 {
        Some(Punct::Minus)
    } else if a == '*' as u8 {
        Some(Punct::Star)
    } else if a == '/' as u8 {
        Some(Punct::Slash)
    } else if a == '%' as u8 {
        Some(Punct::Percent)
    } else if a == '&' as u8 {
        Some(Punct::Amp)
    } else if a == '|' as u8 {
        Some(Punct::Pipe)
    } else if a == '^' as u8 {
        Some(Punct::Caret)
    } else if a == '~' as u8 {
        Some(Punct::Tilde)
    } else if a == '!' as u8 {
        Some(Punct::Bang)
    } else if a == '=' as u8 {
        Some(Punct::Assign)
    } else if a == '<' as u8 {
        Some(Punct::Lt)
    } else if a == '>' as u8 {
        Some(Punct::Gt)
    } else {
        None
    }
}

/// The scan of a punctuator at `pos`: the longest one that the text spells
/// there. A byte that starts none is an error of its own.
pub open spec fn scan_punct(src: Seq<u8>, pos: int) -> Scan {
    if pos + 2 < src.len() && punct3(src[pos], src[pos + 1], src[pos + 2]) is Some {
        Scan {
            kind: TokenKind::Punct(punct3(src[pos], src[pos + 1], src[pos + 2])->0),
            end: pos + 3,
            error: None,
        }
    } else if pos + 1 < src.len() && punct2(src[pos], src[pos + 1]) is Some {
        Scan { kind: TokenKind::Punct(punct2(src[pos], src[pos + 1])->0), end: pos + 2, error: None }
    } else if punct1(src[pos]) is Some {
        Scan { kind: TokenKind::Punct(punct1(src[pos])->0), end: pos + 1, error: None }
    } else {
        Scan { kind: TokenKind::Invalid, end: pos + 1, error: Some(DiagCode::InvalidCharacter) }
    }
}

/// Scans a punctuator.
pub fn lex_punct(src: &[u8], pos: usize) -> (r: Scanned)
    requires
        pos < src@.len(),
    ensures
        r@ == scan_punct(src@, pos as int),
        pos < r.end <= src@.len(),
{
    if src.len() - pos >= 3 {
        if let Some(p) = punct3_of(src[pos], src[pos + 1], src[pos + 2]) {
            return Scanned { kind: TokenKind::Punct(p), end: pos + 3, error: None };
        }
    }
    if src.len() - pos >= 2 {
        if let Some(p) = punct2_of(src[pos], src[pos + 1]) {
            return Scanned { kind: TokenKind::Punct(p), end: pos + 2, error: None };
        }
    }
    if let Some(p) = punct1_of(src[pos]) {
        return Scanned { kind: TokenKind::Punct(p), end: pos + 1, error: None };
    }
    Scanned { kind: TokenKind::Invalid, end: pos + 1, error: Some(DiagCode::InvalidCharacter) }
}

/// The first reserved word at or after a position of the table that is
/// written as `word`.
pub open spec fn keyword_from(word: Seq<u8>, from: int) -> Option<Keyword>
    decreases KEYWORD_COUNT - from,
{
    if from < 0 || from >= KEYWORD_COUNT {
        None
    } else if Keyword::at(from).spelling().spec_bytes() == word {
        Some(Keyword::at(from))
    } else {
        keyword_from(word, from + 1)
    }
}

/// The reserved word that is written as `word`.
pub open spec fn keyword_of(word: Seq<u8>) -> Option<Keyword> {
    keyword_from(word, 0)
}

/// Looks a word up among the reserved words.
pub fn find_keyword(word: &[u8]) -> (r: Option<Keyword>)
    ensures
        r == keyword_of(word@),
{
    let mut i: usize = 0;
    while i < KEYWORD_COUNT
        invariant
            i <= KEYWORD_COUNT,
            keyword_from(word@, i as int) == keyword_of(word@),
        decreases KEYWORD_COUNT - i,
    {
        let k: Keyword = Keyword::from_index(i);
        if bytes_equal(k.text().as_bytes(), word) {
            return Some(k);
        }
        i = i + 1;
    }
    None
}

/// The scan of a token together with the table of names after it.
pub struct TokenScan {
    pub scan: Scan,
    pub names: Seq<Seq<u8>>,
}

/// The scan of the token that starts at `pos`, where the text holds a byte
/// that is neither white space nor the start of a comment. A word is a
/// reserved word or an identifier, which is interned.
pub open spec fn scan_token(src: Seq<u8>, pos: int, names: Seq<Seq<u8>>) -> TokenScan {
    let c = src[pos];
    if CharClass::Digit.has(c) || (c == '.' as u8 && pos + 1 < src.len() && CharClass::Digit.has(
        src[pos + 1],
    )) {
        TokenScan { scan: scan_number(src, pos), names }
    } else if CharClass::Ident.has(c) {
        let end = run_end(src, pos, CharClass::Ident);
        let word = src.subrange(pos, end);
        match keyword_of(word) {
            Some(k) => TokenScan {
                scan: Scan { kind: TokenKind::Keyword(k), end, error: None },
                names,
            },
            None => TokenScan {
                scan: Scan {
                    kind: TokenKind::Ident(interned_id(names, word) as usize),
                    end,
                    error: None,
                },
                names: interned_names(names, word),
            },
        }
    } else if c == '\'' as u8 {
        TokenScan { scan: scan_char(src, pos), names }
    } else if c == '"' as u8 {
        TokenScan { scan: scan_string(src, pos), names }
    } else {
        TokenScan { scan: scan_punct(src, pos), names }
    }
}

/// Scans the token that starts at `pos`.
pub fn lex_token(src: &[u8], pos: usize, names: &mut NameTable) -> (r: Scanned)
    requires
        pos < src@.len(),
    ensures
        r@ == scan_token(src@, pos as int, old(names)@).scan,
        final(names)@ == scan_token(src@, pos as int, old(names)@).names,
        pos < r.end <= src@.len(),
{
    let c: u8 = src[pos];
    if CharClass::Digit.contains(c) || (c == '.' as u8 && src.len() - pos >= 2
        && CharClass::Digit.contains(src[pos + 1])) {
        lex_number(src, pos)
    } else if CharClass::Ident.contains(c) {
        let end: usize = scan_run(src, pos, CharClass::Ident);
        proof {
            lemma_run_end(src@, pos as int + 1, CharClass::Ident);
        }
        let word: &[u8] = slice_subrange(src, pos, end);
        match find_keyword(word) {
            Some(k) => Scanned { kind: TokenKind::Keyword(k), end, error: None },
            None => {
                let id: usize = names.intern(word);
                Scanned { kind: TokenKind::Ident(id), end, error: None }
            },
        }
    } else if c == '\'' as u8 {
        lex_char(src, pos)
    } else if c == '"' as u8 {
        lex_string(src, pos)
    } else {
        lex_punct(src, pos)
    }
}

/// The error that the lexer records for the text at an offset.
pub open spec fn error_at(src: Seq<u8>, file: u32, off: int, code: DiagCode) -> Diagnostic {
    Diagnostic { severity: Severity::Error, code, location: location_at(src, file, off) }
}

/// One step of the lexer: the token found, the offset at which the next
/// step starts, the table of names after it, and the errors recorded.
pub struct Step {
    pub token: Token,
    pub next: int,
    pub names: Seq<Seq<u8>>,
    pub diags: Seq<Diagnostic>,
}

/// The step of the lexer from an offset: white space and comments are
/// skipped, then a token is scanned, or the end of the text is reported.
/// A comment that is not closed and a token that is malformed are each
/// recorded as an error at the place where they start; the malformed text
/// becomes an `Invalid` token.
pub open spec fn next_token_spec(src: Seq<u8>, file: u32, pos: int, names: Seq<Seq<u8>>) -> Step {
    let t = trivia_end(src, pos);
    let d0 = if t.unterminated {
        seq![error_at(src, file, t.comment_start, DiagCode::UnterminatedComment)]
    } else {
        Seq::empty()
    };
    if t.end >= src.len() {
        Step {
            token: Token {
                kind: TokenKind::Eof,
                location: location_at(src, file, t.end),
                end: t.end as usize,
            },
            next: t.end,
            names,
            diags: d0,
        }
    } else {
        let ts = scan_token(src, t.end, names);
        Step {
            token: Token {
                kind: ts.scan.kind,
                location: location_at(src, file, t.end),
                end: ts.scan.end as usize,
            },
            next: ts.scan.end,
            names: ts.names,
            diags: match ts.scan.error {
                Some(code) => d0.push(error_at(src, file, t.end, code)),
                None => d0,
            },
        }
    }
}

/// The tokens of a text, the table of names after lexing it, and the
/// errors recorded on the way.
pub struct Lexed {
    pub tokens: Seq<Token>,
    pub names: Seq<Seq<u8>>,
    pub diags: Seq<Diagnostic>,
}

/// What lexing gives from an offset on, after what `acc` holds: the steps
/// of the lexer one after another, up to and with the token `Eof`.
pub open spec fn lex_from(src: Seq<u8>, file: u32, pos: int, acc: Lexed) -> Lexed
    decreases src.len() - pos,
{
    let step = next_token_spec(src, file, pos, acc.names);
    let out = Lexed {
        tokens: acc.tokens.push(step.token),
        names: step.names,
        diags: acc.diags + step.diags,
    };
    if step.token.kind is Eof || step.next <= pos || step.next > src.len() {
        out
    } else {
        lex_from(src, file, step.next, out)
    }
}

/// What lexing a whole text gives.
pub open spec fn lex_spec(src: Seq<u8>, file: u32, names: Seq<Seq<u8>>) -> Lexed {
    lex_from(src, file, 0, Lexed { tokens: Seq::empty(), names, diags: Seq::empty() })
}

/// A lexer over one text: it hands out the tokens one by one and keeps
/// track of the line and column it has reached.
pub struct Lexer<'a> {
    src: &'a [u8],
    file: u32,
    pos: usize,
    line: u32,
    column: u32,
}

impl<'a> Lexer<'a> {
    pub closed spec fn source(&self) -> Seq<u8> {
        self.src@
    }

    pub closed spec fn file(&self) -> u32 {
        self.file
    }

    /// The offset at which the next token is looked for.
    pub closed spec fn offset(&self) -> int {
        self.pos as int
    }

    /// The offset lies within the text, and the line and column are those
    /// of the offset.
    pub closed spec fn wf(&self) -> bool {
        &&& self.pos <= self.src@.len()
        &&& self.line == line_at(self.src@, self.pos as int)
        &&& self.column == column_at(self.src@, self.pos as int)
    }

    pub fn new(src: &'a [u8], file: u32) -> (lexer: Lexer<'a>)
        ensures
            lexer.wf(),
            lexer.source() == src@,
            lexer.file() == file,
            lexer.offset() == 0,
    {
        Lexer { src, file, pos: 0, line: 1, column: 1 }
    }

    fn advance_to(&mut self, target: usize)
        requires
            old(self).wf(),
            old(self).pos <= target <= old(self).src@.len(),
        ensures
            final(self).wf(),
            final(self).pos == target,
            final(self).src == old(self).src,
            final(self).file == old(self).file,
    {
        while self.pos < target
            invariant
                self.wf(),
                self.pos <= target <= self.src@.len(),
                self.src == old(self).src,
                self.file == old(self).file,
            decreases target - self.pos,
        {
            if self.src[self.pos] == 10 {
                if self.line < u32::MAX {
                    self.line = self.line + 1;
                }
                self.column = 1;
            } else if self.column < u32::MAX {
                self.column = self.column + 1;
            }
            self.pos = self.pos + 1;
        }
    }

    fn location(&self) -> (l: Location)
        requires
            self.wf(),
        ensures
            l == location_at(self.src@, self.file, self.pos as int),
    {
        Location { file: self.file, line: self.line, column: self.column, offset: self.pos }
    }

    /// Hands out the next token and records the errors found on the way.
    /// At the end of the text every call gives `Eof`.
    pub fn next_token(&mut self, names: &mut NameTable, handler: &mut ErrorHandler) -> (token:
        Token)
        requires
            old(self).wf(),
        ensures
            final(self).wf(),
            final(self).source() == old(self).source(),
            final(self).file() == old(self).file(),
            ({
                let step = next_token_spec(
                    old(self).source(),
                    old(self).file(),
                    old(self).offset(),
                    old(names)@,
                );
                &&& token == step.token
                &&& final(self).offset() == step.next
                &&& final(names)@ == step.names
                &&& final(handler).errors() == old(handler).errors() + step.diags
            }),
            final(handler).warnings() == old(handler).warnings(),
            old(self).offset() <= final(self).offset() <= old(self).source().len(),
            !(token.kind is Eof) ==> old(self).offset() < final(self).offset(),
    {
        let ghost errors0 = handler.errors();
        let (start, open) = skip_trivia(self.src, self.pos);
        if let Some(c) = open {
            self.advance_to(c);
            let at: Location = self.location();
            handler.error(DiagCode::UnterminatedComment, at);
        }
        let ghost errors1 = handler.errors();
        self.advance_to(start);
        let location: Location = self.location();
        if start >= self.src.len() {
            assert(errors1 =~= errors0 + next_token_spec(
                old(self).source(),
                old(self).file(),
                old(self).offset(),
                old(names)@,
            ).diags);
            return Token { kind: TokenKind::Eof, location, end: start };
        }
        let scanned: Scanned = lex_token(self.src, start, names);
        if let Some(code) = scanned.error {
            handler.error(code, location);
        }
        self.advance_to(scanned.end);
        assert(handler.errors() =~= errors0 + next_token_spec(
            old(self).source(),
            old(self).file(),
            old(self).offset(),
            old(names)@,
        ).diags);
        Token { kind: scanned.kind, location, end: scanned.end }
    }
}

/// Whether a token is the one that ends a text.
pub fn is_eof(token: &Token) -> (b: bool)
    ensures
        b == (token.kind is Eof),
{
    match token.kind {
        TokenKind::Eof => true,
        _ => false,
    }
}

/// Lexes a whole text. The tokens end with `Eof`, which occurs nowhere
/// else among them; identifiers are interned in `names`, and each error is
/// recorded in `handler`.
pub fn lex(src: &[u8], file: u32, names: &mut NameTable, handler: &mut ErrorHandler) -> (tokens:
    Vec<Token>)
    ensures
        tokens@ == lex_spec(src@, file, old(names)@).tokens,
        final(names)@ == lex_spec(src@, file, old(names)@).names,
        final(handler).errors() == old(handler).errors() + lex_spec(
            src@,
            file,
            old(names)@,
        ).diags,
        final(handler).warnings() == old(handler).warnings(),
        tokens@.len() > 0,
        tokens@[tokens@.len() - 1].kind is Eof,
        forall|i: int| 0 <= i < tokens@.len() - 1 ==> !((#[trigger] tokens@[i]).kind is Eof),
{
    let mut lexer: Lexer = Lexer::new(src, file);
    let mut tokens: Vec<Token> = Vec::new();
    let ghost mut acc: Lexed = Lexed {
        tokens: Seq::empty(),
        names: names@,
        diags: Seq::empty(),
    };
    assert(handler.errors() =~= old(handler).errors() + acc.diags);
    loop
        invariant
            lexer.wf(),
            lexer.source() == src@,
            lexer.file() == file,
            acc.tokens == tokens@,
            acc.names == names@,
            handler.errors() == old(handler).errors() + acc.diags,
            handler.warnings() == old(handler).warnings(),
            lex_from(src@, file, lexer.offset(), acc) == lex_spec(src@, file, old(names)@),
            forall|i: int| 0 <= i < tokens@.len() ==> !((#[trigger] tokens@[i]).kind is Eof),
        decreases src@.len() - lexer.offset(),
    {
        let ghost step = next_token_spec(src@, file, lexer.offset(), acc.names);
        let ghost before = acc;
        let token: Token = lexer.next_token(names, handler);
        tokens.push(token);
        proof {
            acc = Lexed {
                tokens: before.tokens.push(step.token),
                names: step.names,
                diags: before.diags + step.diags,
            };
            assert(handler.errors() =~= old(handler).errors() + acc.diags);
        }
        if is_eof(&token) {
            return tokens;
        }
    }
}

} // verus!
