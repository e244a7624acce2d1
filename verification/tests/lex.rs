use saltwater_parser::error::{DiagCode, ErrorHandler};
use saltwater_parser::lex::{lex, Lexer};
use saltwater_parser::names::NameTable;
use saltwater_parser::token::{FloatLiteral, IntLiteral, Keyword, Punct, Token, TokenKind};

fn kinds(src: &str) -> (Vec<TokenKind>, NameTable, ErrorHandler) {
    let mut names = NameTable::new();
    let mut handler = ErrorHandler::new();
    let tokens = lex(src.as_bytes(), 0, &mut names, &mut handler);
    (tokens.iter().map(|t| t.kind).collect(), names, handler)
}

fn int_c(value: u64, base: u8, unsigned: bool, longs: u8) -> TokenKind {
    TokenKind::Int(IntLiteral { value, base, unsigned, longs })
}

#[test]
fn lexes_a_declaration() {
    let (k, names, handler) = kinds("int x = 0x1Fu;");
    assert_eq!(
        k,
        vec![
            TokenKind::Keyword(Keyword::Int),
            TokenKind::Ident(0),
            TokenKind::Punct(Punct::Assign),
            int_c(31, 16, true, 0),
            TokenKind::Punct(Punct::Semi),
            TokenKind::Eof,
        ]
    );
    assert_eq!(names.spelling(0).as_slice(), b"x");
    assert!(handler.is_empty());
}

#[test]
fn lexes_integer_forms() {
    let (k, _, handler) = kinds("0 017 42 42u 42L 42ul 42LL 42llu 0XffUL 18446744073709551615");
    assert_eq!(
        k,
        vec![
            int_c(0, 8, false, 0),
            int_c(15, 8, false, 0),
            int_c(42, 10, false, 0),
            int_c(42, 10, true, 0),
            int_c(42, 10, false, 1),
            int_c(42, 10, true, 1),
            int_c(42, 10, false, 2),
            int_c(42, 10, true, 2),
            int_c(255, 16, true, 1),
            int_c(u64::MAX, 10, false, 0),
            TokenKind::Eof,
        ]
    );
    assert!(handler.is_empty());
}

#[test]
fn rejects_malformed_numbers() {
    for src in ["0x", "089", "12abc", "18446744073709551616", "1e", "1.5q", "42lL", "1e+"] {
        let (k, _, handler) = kinds(src);
        assert_eq!(k, vec![TokenKind::Invalid, TokenKind::Eof], "{}", src);
        assert_eq!(handler.error_count(), 1, "{}", src);
        assert_eq!(handler.error_at(0).code, DiagCode::MalformedLiteral, "{}", src);
    }
}

#[test]
fn lexes_float_forms() {
    let (k, _, handler) = kinds("3.14f 1e10 .5 2. 1.5e-3L 0.000125");
    let f = |mantissa, exp10, single| TokenKind::Float(FloatLiteral { mantissa, exp10, single });
    assert_eq!(
        k,
        vec![
            f(314, -2, true),
            f(1, 10, false),
            f(5, -1, false),
            f(2, 0, false),
            f(15, -4, false),
            f(125, -6, false),
            TokenKind::Eof,
        ]
    );
    assert!(handler.is_empty());
}

#[test]
fn lexes_character_literals() {
    let (k, _, handler) = kinds(r"'a' '\n' '\0' '\x41' '\101' '\\' '\''");
    assert_eq!(
        k,
        vec![
            TokenKind::Char(97),
            TokenKind::Char(10),
            TokenKind::Char(0),
            TokenKind::Char(65),
            TokenKind::Char(65),
            TokenKind::Char(92),
            TokenKind::Char(39),
            TokenKind::Eof,
        ]
    );
    assert!(handler.is_empty());
}

#[test]
fn rejects_bad_character_literals() {
    let (k, _, handler) = kinds("''");
    assert_eq!(k, vec![TokenKind::Invalid, TokenKind::Eof]);
    assert_eq!(handler.error_at(0).code, DiagCode::MalformedLiteral);
    let (k, _, handler) = kinds(r"'\q'");
    assert_eq!(k, vec![TokenKind::Invalid, TokenKind::Eof]);
    assert_eq!(handler.error_at(0).code, DiagCode::MalformedLiteral);
    let (k, _, handler) = kinds(r"'\x100'");
    assert_eq!(k, vec![TokenKind::Invalid, TokenKind::Eof]);
    assert_eq!(handler.error_at(0).code, DiagCode::MalformedLiteral);
    let (k, _, handler) = kinds("'a");
    assert_eq!(k, vec![TokenKind::Invalid, TokenKind::Eof]);
    assert_eq!(handler.error_at(0).code, DiagCode::UnterminatedChar);
}

#[test]
fn lexes_string_literals() {
    let (k, _, handler) = kinds(r#""" "abc" "a\tb\"c" "\x41\101""#);
    assert_eq!(
        k,
        vec![TokenKind::Str(0), TokenKind::Str(3), TokenKind::Str(5), TokenKind::Str(2), TokenKind::Eof]
    );
    assert!(handler.is_empty());
}

#[test]
fn unterminated_string_is_recovered() {
    let (k, _, handler) = kinds("\"abc\nint");
    assert_eq!(k, vec![TokenKind::Invalid, TokenKind::Keyword(Keyword::Int), TokenKind::Eof]);
    assert_eq!(handler.error_count(), 1);
    assert_eq!(handler.error_at(0).code, DiagCode::UnterminatedString);
}

#[test]
fn invalid_character_is_recovered() {
    let (k, _, handler) = kinds("a @ b");
    assert_eq!(
        k,
        vec![TokenKind::Ident(0), TokenKind::Invalid, TokenKind::Ident(1), TokenKind::Eof]
    );
    assert_eq!(handler.error_count(), 1);
    assert_eq!(handler.error_at(0).code, DiagCode::InvalidCharacter);
    assert_eq!(handler.error_at(0).location.offset, 2);
}

#[test]
fn skips_comments() {
    let (k, _, handler) = kinds("a // line\n/* block\n * more */ b /**/ c");
    assert_eq!(
        k,
        vec![TokenKind::Ident(0), TokenKind::Ident(1), TokenKind::Ident(2), TokenKind::Eof]
    );
    assert!(handler.is_empty());
}

#[test]
fn unterminated_comment_is_reported_at_its_start() {
    let (k, _, handler) = kinds("a\n  /* never closed");
    assert_eq!(k, vec![TokenKind::Ident(0), TokenKind::Eof]);
    assert_eq!(handler.error_count(), 1);
    let d = handler.error_at(0);
    assert_eq!(d.code, DiagCode::UnterminatedComment);
    assert_eq!((d.location.line, d.location.column, d.location.offset), (2, 3, 4));
}

#[test]
fn punctuators_take_the_longest_match() {
    let (k, _, _) = kinds("a>>=b>>c>d->e...f..g++ +h<<=i<=j&&k&l");
    let p = |x| TokenKind::Punct(x);
    let names: Vec<TokenKind> = k.iter().copied().filter(|t| matches!(t, TokenKind::Punct(_))).collect();
    assert_eq!(
        names,
        vec![
            p(Punct::ShrAssign),
            p(Punct::Shr),
            p(Punct::Gt),
            p(Punct::Arrow),
            p(Punct::Ellipsis),
            p(Punct::Dot),
            p(Punct::Dot),
            p(Punct::PlusPlus),
            p(Punct::Plus),
            p(Punct::ShlAssign),
            p(Punct::Le),
            p(Punct::AndAnd),
            p(Punct::Amp),
        ]
    );
}

#[test]
fn keywords_and_identifiers() {
    let (k, names, _) = kinds("while whilst int integer _x x1 while _x");
    assert_eq!(
        k,
        vec![
            TokenKind::Keyword(Keyword::While),
            TokenKind::Ident(0),
            TokenKind::Keyword(Keyword::Int),
            TokenKind::Ident(1),
            TokenKind::Ident(2),
            TokenKind::Ident(3),
            TokenKind::Keyword(Keyword::While),
            TokenKind::Ident(2),
            TokenKind::Eof,
        ]
    );
    assert_eq!(names.len(), 4);
    assert_eq!(names.spelling(1).as_slice(), b"integer");
}

#[test]
fn every_keyword_is_recognised() {
    for i in 0..32 {
        let k = Keyword::from_index(i);
        let (kinds, _, _) = kinds(k.text());
        assert_eq!(kinds, vec![TokenKind::Keyword(k), TokenKind::Eof]);
    }
}

#[test]
fn tokens_carry_their_place() {
    let mut names = NameTable::new();
    let mut handler = ErrorHandler::new();
    let tokens: Vec<Token> = lex(b"int\n  x;\n", 7, &mut names, &mut handler);
    let places: Vec<(u32, u32, u32, usize, usize)> = tokens
        .iter()
        .map(|t| (t.location.file, t.location.line, t.location.column, t.location.offset, t.end))
        .collect();
    assert_eq!(places, vec![(7, 1, 1, 0, 3), (7, 2, 3, 6, 7), (7, 2, 4, 7, 8), (7, 3, 1, 9, 9)]);
}

#[test]
fn lexer_hands_out_tokens_one_by_one() {
    let mut names = NameTable::new();
    let mut handler = ErrorHandler::new();
    let mut lexer = Lexer::new(b"a b", 0);
    assert_eq!(lexer.next_token(&mut names, &mut handler).kind, TokenKind::Ident(0));
    assert_eq!(lexer.next_token(&mut names, &mut handler).kind, TokenKind::Ident(1));
    assert_eq!(lexer.next_token(&mut names, &mut handler).kind, TokenKind::Eof);
    assert_eq!(lexer.next_token(&mut names, &mut handler).kind, TokenKind::Eof);
}

#[test]
fn lexing_twice_gives_the_same_tokens() {
    let src = "int f(void) { return 1 + 'a'; } /* x";
    let (a, _, ha) = kinds(src);
    let (b, _, hb) = kinds(src);
    assert_eq!(a, b);
    assert_eq!(ha.error_count(), hb.error_count());
}

#[test]
fn empty_text_is_one_eof() {
    let (k, names, handler) = kinds("");
    assert_eq!(k, vec![TokenKind::Eof]);
    assert_eq!(names.len(), 0);
    assert!(handler.is_empty());
}
