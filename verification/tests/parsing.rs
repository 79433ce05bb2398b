//! Tokenizer and parser behaviour: precedence, associativity, token
//! handling, and the parse errors.

use rcc2::ast::{BinaryNode, ExpressionNode, PrimaryNode, UnaryNode};
use rcc2::lexer::Lexer;
use rcc2::parser::parser;
use rcc2::token::{Associativity, ParseError, Property, Token, Tokens};

fn lex(src: &str) -> Tokens {
    Lexer::new().lex(src.to_string())
}

fn num(s: &str) -> ExpressionNode {
    ExpressionNode::Unary(UnaryNode::Primary(PrimaryNode { token: Token::Num(s.to_string()) }))
}

fn ide(s: &str) -> ExpressionNode {
    ExpressionNode::Unary(UnaryNode::Primary(PrimaryNode { token: Token::Ide(s.to_string()) }))
}

fn op(sym: &str, precedence: u32, associativity: Associativity) -> Token {
    Token::Op(sym.to_string(), Property { precedence, associativity })
}

fn binary(op_token: Token, lhs: ExpressionNode, rhs: ExpressionNode) -> ExpressionNode {
    ExpressionNode::Binary(BinaryNode { op: op_token, lhs: Box::new(lhs), rhs: Box::new(rhs) })
}

#[test]
fn test_precedence_tree() {
    let mut tokens = lex("1 + 2 * 3");
    let e = ExpressionNode::new(&mut tokens).unwrap();
    let expected = binary(
        op("+", 12, Associativity::Left),
        num("1"),
        binary(op("*", 13, Associativity::Left), num("2"), num("3")),
    );
    assert_eq!(e, expected);
}

#[test]
fn test_assignment_right_associative() {
    let mut tokens = lex("a = b = 5");
    let e = ExpressionNode::new(&mut tokens).unwrap();
    let expected = binary(
        op("=", 2, Associativity::Right),
        ide("a"),
        binary(op("=", 2, Associativity::Right), ide("b"), num("5")),
    );
    assert_eq!(e, expected);
}

#[test]
fn test_equal_precedence_left_associative() {
    let mut tokens = lex("8 - 3 - 2");
    let e = ExpressionNode::new(&mut tokens).unwrap();
    let expected = binary(
        op("-", 12, Associativity::Left),
        binary(op("-", 12, Associativity::Left), num("8"), num("3")),
        num("2"),
    );
    assert_eq!(e, expected);
}

#[test]
fn test_parse_idempotent() {
    let src = "int plus(int x, int y){ return x + y; } int main(){ int a[2]; a[0] = plus(1, 2); return a[0]; }";
    let mut tokens1 = lex(src);
    let mut tokens2 = lex(src);
    let node1 = parser(&mut tokens1).unwrap();
    let node2 = parser(&mut tokens2).unwrap();
    assert_eq!(node1, node2);
}

#[test]
fn test_lexer_tokens() {
    let tokens = lex("int a[3];");
    let expected = vec![
        Token::Type("int".to_string()),
        Token::Ide("a".to_string()),
        Token::SquareS,
        Token::Num("3".to_string()),
        Token::SquareE,
        Token::Semi,
    ];
    assert_eq!(tokens.tokens, expected);
}

#[test]
fn test_lexer_skips_unknown_characters() {
    let tokens = lex("a @# b");
    let expected = vec![Token::Ide("a".to_string()), Token::Ide("b".to_string())];
    assert_eq!(tokens.tokens, expected);
}

#[test]
fn test_lexer_maximal_munch() {
    let tokens = lex("intx return1 int");
    let expected = vec![
        Token::Ide("intx".to_string()),
        Token::Ide("return1".to_string()),
        Token::Type("int".to_string()),
    ];
    assert_eq!(tokens.tokens, expected);
}

#[test]
fn test_lexer_operators_carry_properties() {
    let tokens = lex("= + *");
    let expected = vec![
        Token::Op(
            "=".to_string(),
            Property { precedence: 2, associativity: Associativity::Right },
        ),
        Token::Op(
            "+".to_string(),
            Property { precedence: 12, associativity: Associativity::Left },
        ),
        Token::Op(
            "*".to_string(),
            Property { precedence: 13, associativity: Associativity::Left },
        ),
    ];
    assert_eq!(tokens.tokens, expected);
}

#[test]
fn test_tokens_pop_and_peek() {
    let mut tokens = lex("int a");
    assert_eq!(tokens.peek(0), Some(Token::Type("int".to_string())));
    assert_eq!(tokens.peek(1), Some(Token::Ide("a".to_string())));
    assert_eq!(tokens.peek(2), None);
    assert_eq!(tokens.pop(), Some(Token::Type("int".to_string())));
    assert_eq!(tokens.pop(), Some(Token::Ide("a".to_string())));
    assert_eq!(tokens.pop(), None);
}

#[test]
fn test_tokens_consume_helpers() {
    let mut tokens = lex("; { } ( ) [ ] return x");
    assert_eq!(tokens.consume_semi(), Ok(Token::Semi));
    assert_eq!(tokens.consume_block_s(), Ok(Token::BlockS));
    assert_eq!(tokens.consume_block_e(), Ok(Token::BlockE));
    assert_eq!(tokens.consume_paren_s(), Ok(Token::ParenS));
    assert_eq!(tokens.consume_paren_e(), Ok(Token::ParenE));
    assert_eq!(tokens.consume_square_s(), Ok(Token::SquareS));
    assert_eq!(tokens.consume_square_e(), Ok(Token::SquareE));
    assert_eq!(tokens.consume_return(), Ok(Token::Return));
    assert_eq!(tokens.expect_identifier(), Ok("x".to_string()));
    assert_eq!(tokens.consume_identifier(), Ok("x".to_string()));
    assert_eq!(tokens.consume_semi(), Err(ParseError::ExpectedSemi));
}

#[test]
fn test_consume_wrong_token_reports_expected_kind() {
    let mut tokens = lex("x");
    assert_eq!(tokens.consume_type(), Err(ParseError::ExpectedType));
    assert_eq!(tokens.consume_operator(), Err(ParseError::ExpectedOperator));
    assert_eq!(tokens.consume_return(), Err(ParseError::ExpectedReturn));
}

#[test]
fn test_get_property_table() {
    let p = rcc2::token::get_property(&"=".to_string());
    assert_eq!(p, Property { precedence: 2, associativity: Associativity::Right });
    let p = rcc2::token::get_property(&"/".to_string());
    assert_eq!(p, Property { precedence: 13, associativity: Associativity::Left });
    let p = rcc2::token::get_property(&"&".to_string());
    assert_eq!(p, Property { precedence: 15, associativity: Associativity::Left });
}

#[test]
fn test_get_number_u64() {
    let p = PrimaryNode { token: Token::Num("12345".to_string()) };
    assert_eq!(p.get_number_u64(), Some(12345));
    let p = PrimaryNode { token: Token::Num("18446744073709551615".to_string()) };
    assert_eq!(p.get_number_u64(), Some(u64::MAX));
    let p = PrimaryNode { token: Token::Num("18446744073709551616".to_string()) };
    assert_eq!(p.get_number_u64(), None);
    let p = PrimaryNode { token: Token::Ide("a".to_string()) };
    assert_eq!(p.get_number_u64(), None);
    let p = PrimaryNode { token: Token::Ide("a".to_string()) };
    assert_eq!(p.get_identifier(), Some("a".to_string()));
}

#[test]
fn test_parse_missing_semi() {
    let mut tokens = lex("int main(){ return 1 }");
    assert_eq!(parser(&mut tokens), Err(ParseError::ExpectedSemi));
}

#[test]
fn test_parse_missing_close_brace() {
    let mut tokens = lex("int main(){ return 1;");
    assert_eq!(parser(&mut tokens), Err(ParseError::ExpectedBlockE));
}

#[test]
fn test_parse_missing_close_paren() {
    let mut tokens = lex("int main({ return 1; }");
    assert_eq!(parser(&mut tokens), Err(ParseError::ExpectedParenE));
}

#[test]
fn test_parse_requires_leading_type_keyword() {
    let mut tokens = lex("main(){ return 1; }");
    assert_eq!(parser(&mut tokens), Err(ParseError::ExpectedType));
    let mut tokens = lex("");
    assert_eq!(parser(&mut tokens), Err(ParseError::ExpectedType));
}

#[test]
fn test_parse_array_size_must_be_literal() {
    let mut tokens = lex("int main(){ int a[n]; return 0; }");
    assert_eq!(parser(&mut tokens), Err(ParseError::ArraySizeNotLiteral));
}

#[test]
fn test_parse_array_size_too_large() {
    let mut tokens = lex("int main(){ int a[99999999999999999999]; return 0; }");
    assert_eq!(parser(&mut tokens), Err(ParseError::NumberTooLarge));
}
