use tokenizer::ast::{BinaryExpr, Node, NodeId, PrimaryExpr, UnaryExpr};
use tokenizer::lexer::{
    as_keyword, escape_sequence, is_decimal_digit, is_part_of_identifier, Lexer,
};
use tokenizer::token::{Token, TokenKind};
use tokenizer::{Error, Parser};

#[test]
fn token_new_keeps_its_arguments() {
    let token = Token::new(TokenKind::Integer(-3), 17);
    assert_eq!(token.kind, TokenKind::Integer(-3));
    assert_eq!(token.offset, 17);
    let token = Token::new(TokenKind::Constant, 0);
    assert_eq!(token.kind, TokenKind::Constant);
}

#[test]
fn tokens_compare_by_kind_and_offset() {
    assert_eq!(Token::new(TokenKind::Plus, 1), Token::new(TokenKind::Plus, 1));
    assert_ne!(Token::new(TokenKind::Plus, 1), Token::new(TokenKind::Plus, 2));
    assert_ne!(Token::new(TokenKind::Plus, 1), Token::new(TokenKind::Minus, 1));
    assert_ne!(
        Token::new(TokenKind::Identifier("a".to_string()), 0),
        Token::new(TokenKind::String("a".to_string()), 0)
    );
    assert_ne!(
        Token::new(TokenKind::Identifier("a".to_string()), 0),
        Token::new(TokenKind::Identifier("b".to_string()), 0)
    );
    assert_eq!(TokenKind::Integer(5).clone(), TokenKind::Integer(5));
}

#[test]
fn identifier_characters() {
    for c in ['a', 'm', 'z', 'A', 'M', 'Z', '0', '5', '8', '9', '_'] {
        assert!(is_part_of_identifier(c));
    }
    for c in ['`', '{', '@', '[', '/', ':', '-', ' ', '\n', 'é', 'ß', '٣', '\u{0}'] {
        assert!(!is_part_of_identifier(c));
    }
}

#[test]
fn escape_table() {
    assert_eq!(escape_sequence('r'), Some('\r'));
    assert_eq!(escape_sequence('n'), Some('\n'));
    assert_eq!(escape_sequence('t'), Some('\t'));
    assert_eq!(escape_sequence('e'), Some('\u{1B}'));
    assert_eq!(escape_sequence('"'), Some('"'));
    assert_eq!(escape_sequence('\''), Some('\''));
    assert_eq!(escape_sequence('\\'), Some('\\'));
    for c in ['a', '0', 'N', 'x', 'u', ' ', '\n'] {
        assert_eq!(escape_sequence(c), None);
    }
}

#[test]
fn keywords() {
    assert_eq!(as_keyword("if"), Some(TokenKind::If));
    assert_eq!(as_keyword("else"), Some(TokenKind::Else));
    assert_eq!(as_keyword("let"), Some(TokenKind::Let));
    assert_eq!(as_keyword("fn"), Some(TokenKind::Fn));
    for text in ["", "i", "f", "fi", "nf", "If", "lets", "le", "elsa", "else ", "fn1", "éé"] {
        assert_eq!(as_keyword(text), None);
    }
}

#[test]
fn parser_advance_consumes() {
    let mut parser = Parser::from_source("a = 1");
    assert_eq!(parser.advance(), Some(Token::new(TokenKind::Identifier("a".to_string()), 0)));
    assert_eq!(parser.advance(), Some(Token::new(TokenKind::Assign, 2)));
    assert_eq!(parser.advance(), Some(Token::new(TokenKind::Integer(1), 4)));
    assert_eq!(parser.advance(), Some(Token::new(TokenKind::EndOfFile, 5)));
    assert_eq!(parser.advance(), Some(Token::new(TokenKind::EndOfFile, 5)));
}

#[test]
fn parser_peek_does_not_consume() {
    let mut parser = Parser::from_source("a b");
    assert_eq!(parser.peek(), Some(Token::new(TokenKind::Identifier("a".to_string()), 0)));
    assert_eq!(parser.peek(), Some(Token::new(TokenKind::Identifier("a".to_string()), 0)));
    assert_eq!(parser.advance(), Some(Token::new(TokenKind::Identifier("a".to_string()), 0)));
    assert_eq!(parser.peek(), Some(Token::new(TokenKind::Identifier("b".to_string()), 2)));
}

#[test]
fn parser_gives_none_on_error() {
    let mut parser = Parser::from_source("! x");
    assert_eq!(parser.peek(), None);
    assert_eq!(parser.advance(), None);
    assert_eq!(parser.advance(), Some(Token::new(TokenKind::Identifier("x".to_string()), 2)));
}

#[test]
fn parser_from_lexer_goes_on_where_the_lexer_stands() {
    let mut lexer = Lexer::new("1 2 3");
    assert_eq!(lexer.next(), Ok(Token::new(TokenKind::Integer(1), 0)));
    let mut parser = Parser::from_lexer(lexer);
    assert_eq!(parser.advance(), Some(Token::new(TokenKind::Integer(2), 2)));
}

#[test]
fn every_node_is_an_expression() {
    let id = NodeId { gen: 1, offset: 0 };
    let primary = Node::Primary(PrimaryExpr { value: Token::new(TokenKind::Integer(1), 0) });
    let unary = Node::Unary(UnaryExpr { operator: TokenKind::Minus, operand: id });
    let binary = Node::Binary(BinaryExpr { operator: TokenKind::Plus, left: id, right: id });
    assert!(primary.is_expression());
    assert!(unary.is_expression());
    assert!(binary.is_expression());
}

#[test]
fn errors_compare() {
    assert_eq!(Error::UnknownCodepoint, Error::UnknownCodepoint);
    assert_ne!(Error::UnterminatedString, Error::InvalidMultiLineString);
    assert_eq!(format!("{:?}", Error::InvalidOperator), "InvalidOperator");
}

#[test]
fn decimal_digits() {
    for c in ['0', '1', '5', '9'] {
        assert!(is_decimal_digit(c));
    }
    for c in ['/', ':', 'a', '_', ' ', '٣', '½', '²'] {
        assert!(!is_decimal_digit(c));
    }
}

#[test]
fn kinds_are_equal_only_to_themselves() {
    let all = vec![
        TokenKind::Identifier("a".to_string()),
        TokenKind::Identifier("b".to_string()),
        TokenKind::String("a".to_string()),
        TokenKind::String("".to_string()),
        TokenKind::Integer(0),
        TokenKind::Integer(1),
        TokenKind::Constant,
        TokenKind::Plus,
        TokenKind::Minus,
        TokenKind::Star,
        TokenKind::Slash,
        TokenKind::Modulo,
        TokenKind::ShiftRight,
        TokenKind::ShiftLeft,
        TokenKind::Tilde,
        TokenKind::And,
        TokenKind::Or,
        TokenKind::Equal,
        TokenKind::NotEqual,
        TokenKind::Gt,
        TokenKind::GtEq,
        TokenKind::Lt,
        TokenKind::LtEq,
        TokenKind::Assign,
        TokenKind::Dot,
        TokenKind::Semicolon,
        TokenKind::Colon,
        TokenKind::Comma,
        TokenKind::ParenOpen,
        TokenKind::ParenClose,
        TokenKind::SquareOpen,
        TokenKind::SquareClose,
        TokenKind::CurlyOpen,
        TokenKind::CurlyClose,
        TokenKind::Fn,
        TokenKind::If,
        TokenKind::Else,
        TokenKind::Let,
        TokenKind::EndOfFile,
    ];
    for (i, a) in all.iter().enumerate() {
        for (j, b) in all.iter().enumerate() {
            assert_eq!(a == b, i == j);
            assert_eq!(a.clone() == *b, i == j);
        }
    }
}
