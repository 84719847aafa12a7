use finnlang::ast::{Expr, Stmt, Type};
use finnlang::interpreter::Interpreter;
use finnlang::lexer::{Lexer, TokenKind};
use finnlang::literal::{double_literal_value, int_literal_value};
use finnlang::ops::RuntimeError;
use finnlang::parse_program;
use finnlang::parser::ParseError;
use finnlang::text::push_double_text;

fn chars(s: &str) -> Vec<char> {
    s.chars().collect()
}

fn kinds(src: &str) -> Vec<TokenKind> {
    let mut lexer = Lexer::new(src);
    let mut out = Vec::new();
    loop {
        let t = lexer.next_token();
        out.push(t.kind);
        if t.kind == TokenKind::EOF {
            break;
        }
    }
    out
}

#[test]
fn lexer_reads_operators_and_keywords() {
    assert_eq!(
        kinds("let x = 1 == 2 <= 3 >= 4 != 5;"),
        vec![
            TokenKind::Let,
            TokenKind::Ident,
            TokenKind::Assign,
            TokenKind::Number,
            TokenKind::Eq,
            TokenKind::Number,
            TokenKind::LessEqual,
            TokenKind::Number,
            TokenKind::GreaterEqual,
            TokenKind::Number,
            TokenKind::Neq,
            TokenKind::Number,
            TokenKind::Semicolon,
            TokenKind::EOF,
        ]
    );
    assert_eq!(
        kinds("funct if elif else while for return and or not woof print"),
        vec![
            TokenKind::Funct,
            TokenKind::If,
            TokenKind::Elif,
            TokenKind::Else,
            TokenKind::While,
            TokenKind::For,
            TokenKind::Return,
            TokenKind::And,
            TokenKind::Or,
            TokenKind::Not,
            TokenKind::Ident,
            TokenKind::Print,
            TokenKind::EOF,
        ]
    );
}

#[test]
fn lexer_texts_and_unknown() {
    let mut lexer = Lexer::new("  \"hi there\" 3.25.5 abc1 @");
    let s = lexer.next_token();
    assert_eq!(s.kind, TokenKind::StrLiteral);
    assert_eq!(s.text, chars("hi there"));
    let d = lexer.next_token();
    assert_eq!(d.kind, TokenKind::Double);
    assert_eq!(d.text, chars("3.25"));
    let u = lexer.next_token();
    assert_eq!(u.kind, TokenKind::Unknown);
    assert_eq!(u.text, chars("."));
    let n = lexer.next_token();
    assert_eq!(n.kind, TokenKind::Number);
    assert_eq!(n.text, chars("5"));
    let w = lexer.next_token();
    assert_eq!(w.kind, TokenKind::Ident);
    assert_eq!(w.text, chars("abc1"));
    let at = lexer.next_token();
    assert_eq!(at.kind, TokenKind::Unknown);
    assert_eq!(at.text, chars("@"));
    assert_eq!(lexer.next_token().kind, TokenKind::EOF);
    assert_eq!(lexer.next_token().kind, TokenKind::EOF);
}

#[test]
fn lexer_unterminated_string_runs_to_end() {
    let mut lexer = Lexer::new("\"open");
    let t = lexer.next_token();
    assert_eq!(t.kind, TokenKind::StrLiteral);
    assert_eq!(t.text, chars("open"));
    assert_eq!(lexer.next_token().kind, TokenKind::EOF);
}

#[test]
fn lexer_character_steps() {
    let mut lexer = Lexer::new("  ab");
    assert_eq!(lexer.peek(), Some(' '));
    lexer.skip_whitespace();
    assert_eq!(lexer.peek(), Some('a'));
    assert_eq!(lexer.advance(), Some('a'));
    assert_eq!(lexer.advance(), Some('b'));
    assert_eq!(lexer.advance(), None);
    assert_eq!(lexer.peek(), None);
    assert_eq!(lexer.advance(), None);
    assert_eq!(lexer.next_token().kind, TokenKind::EOF);
}

#[test]
fn lexer_skips_unicode_whitespace() {
    let mut lexer = Lexer::new("\u{a0}\u{2003}\u{3000}\u{85}x");
    lexer.skip_whitespace();
    assert_eq!(lexer.peek(), Some('x'));
    assert_eq!(kinds("\u{a0}"), vec![TokenKind::EOF]);
    assert_eq!(kinds("\u{2028}let\u{202f}x"), vec![TokenKind::Let, TokenKind::Ident, TokenKind::EOF]);
}

#[test]
fn parser_builds_precedence_tree() {
    let program = parse_program("print(1 + 2 * 3);").unwrap();
    assert_eq!(program.len(), 1);
    match &program[0] {
        Stmt::Print(Expr::Add(l, r)) => {
            assert!(matches!(**l, Expr::Number(1)));
            assert!(matches!(**r, Expr::Mul(_, _)));
        }
        other => panic!("unexpected tree {:?}", other),
    }
}

#[test]
fn parser_reads_typed_let_and_function() {
    let program = parse_program("let s: string = \"x\"; funct add(a: int, b: double): bool { return a; }").unwrap();
    assert_eq!(program.len(), 2);
    assert!(matches!(&program[0], Stmt::Let(Type::String, _, Expr::StrLiteral(_))));
    match &program[1] {
        Stmt::FunctionDef(name, params, ret, body) => {
            assert_eq!(*name, chars("add"));
            assert_eq!(params.len(), 2);
            assert_eq!(params[1].1, Type::Double);
            assert_eq!(*ret, Some(Type::Bool));
            assert_eq!(body.len(), 1);
        }
        other => panic!("unexpected tree {:?}", other),
    }
}

#[test]
fn parser_skips_what_does_not_parse() {
    let program = parse_program("print(1); ) ) ; let y = 2;").unwrap();
    assert_eq!(program.len(), 2);
    assert!(matches!(&program[1], Stmt::Let(Type::Int, _, Expr::Number(2))));
}

#[test]
fn parser_faults() {
    assert_eq!(parse_program("print(a[1);").unwrap_err(), ParseError::UnclosedIndex);
    assert_eq!(parse_program("print([1, 2);").unwrap_err(), ParseError::UnclosedArray);
    assert_eq!(parse_program("print(123456789012345678901);").unwrap_err(), ParseError::NumberOutOfRange);
}

#[test]
fn interpreter_runs_parsed_program() {
    let program = parse_program("let x = 2; while (x > 0) { print(x); x = x - 1; }").unwrap();
    let mut interpreter = Interpreter::new();
    assert_eq!(interpreter.run(&program, 1000).unwrap(), chars("2\n1"));
}

#[test]
fn interpreter_budget_runs_out() {
    let program = parse_program("while (true) { print(1); }").unwrap();
    let mut interpreter = Interpreter::new();
    assert!(matches!(interpreter.run(&program, 50), Err(RuntimeError::StepLimitExceeded)));
}

#[test]
fn literal_values() {
    assert_eq!(int_literal_value(&chars("0")), Some(0));
    assert_eq!(int_literal_value(&chars("9223372036854775807")), Some(i64::MAX));
    assert_eq!(int_literal_value(&chars("9223372036854775808")), None);
    assert_eq!(double_literal_value(&chars("3"), &chars("5")), Some(3_500_000));
    assert_eq!(double_literal_value(&chars("0"), &chars("1234567")), Some(123_456));
    assert_eq!(double_literal_value(&chars("1"), &chars("")), Some(1_000_000));
}

#[test]
fn double_text_rendering() {
    let mut out = Vec::new();
    push_double_text(-1_050_000, &mut out);
    assert_eq!(out, chars("-1.05"));
    let mut zero = Vec::new();
    push_double_text(0, &mut zero);
    assert_eq!(zero, chars("0"));
    let mut small = Vec::new();
    push_double_text(7, &mut small);
    assert_eq!(small, chars("0.000007"));
}
