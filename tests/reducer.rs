use softver::ast::{Any, ArithmeticExpression, BooleanExpression, ParseError, Statement, Token};
use softver::parser::{
    parse, parse_arithmetic_expression, parse_arithmetic_subexpression, parse_arithmetic_unop,
    parse_atomic, parse_bool_expression, parse_bool_value, parse_lit, parse_skip, parse_var, parse_bool_subexpression, reduce_arithmetic,
    reduce_boolean, AnyVec, TokenVec,
};

fn num(n: i64) -> Box<ArithmeticExpression> {
    Box::new(ArithmeticExpression::Numeral(n))
}

fn boxed_bool(b: bool) -> Box<BooleanExpression> {
    Box::new(BooleanExpression::BooleanLiteral(b))
}

fn seq_of(tokens: Vec<Token>) -> AnyVec {
    let mut v = AnyVec::new();
    for t in tokens {
        v.push_token(t);
    }
    v
}

#[test]
fn numeral_alone() {
    for n in [0i64, 7, -3, i64::MAX, i64::MIN] {
        assert_eq!(reduce_arithmetic(vec![Token::Numeral(n)]), Ok(ArithmeticExpression::Numeral(n)));
    }
}

#[test]
fn identifier_alone() {
    assert_eq!(
        reduce_arithmetic(vec![Token::Identifier("x".to_string())]),
        Ok(ArithmeticExpression::Variable("x".to_string()))
    );
    assert_eq!(
        reduce_arithmetic(vec![Token::Identifier("counter".to_string())]),
        Ok(ArithmeticExpression::Variable("counter".to_string()))
    );
}

#[test]
fn flat_binding_without_precedence() {
    let r = reduce_arithmetic(vec![
        Token::Numeral(2),
        Token::Plus,
        Token::Numeral(3),
        Token::Multiply,
        Token::Numeral(4),
    ]);
    assert_eq!(
        r,
        Ok(ArithmeticExpression::Product(
            Box::new(ArithmeticExpression::Add(num(2), num(3))),
            num(4)
        ))
    );
    assert_ne!(
        r,
        Ok(ArithmeticExpression::Add(
            num(2),
            Box::new(ArithmeticExpression::Product(num(3), num(4)))
        ))
    );
}

#[test]
fn leading_group_then_product() {
    let r = reduce_arithmetic(vec![
        Token::OpenParen,
        Token::Numeral(2),
        Token::Plus,
        Token::Numeral(3),
        Token::CloseParen,
        Token::Multiply,
        Token::Numeral(4),
    ]);
    assert_eq!(
        r,
        Ok(ArithmeticExpression::Product(
            Box::new(ArithmeticExpression::Add(num(2), num(3))),
            num(4)
        ))
    );
}

#[test]
fn right_group_binds_as_operand() {
    let r = reduce_arithmetic(vec![
        Token::Numeral(2),
        Token::Multiply,
        Token::OpenParen,
        Token::Numeral(3),
        Token::Plus,
        Token::Numeral(4),
        Token::CloseParen,
    ]);
    assert_eq!(
        r,
        Ok(ArithmeticExpression::Product(
            num(2),
            Box::new(ArithmeticExpression::Add(num(3), num(4)))
        ))
    );
}

#[test]
fn nested_groups() {
    let r = reduce_arithmetic(vec![
        Token::OpenParen,
        Token::OpenParen,
        Token::Numeral(1),
        Token::Minus,
        Token::Numeral(2),
        Token::CloseParen,
        Token::CloseParen,
    ]);
    assert_eq!(r, Ok(ArithmeticExpression::Minus(num(1), num(2))));
}

#[test]
fn unary_minus() {
    assert_eq!(
        reduce_arithmetic(vec![Token::Minus, Token::Numeral(5)]),
        Ok(ArithmeticExpression::Uminus(num(5)))
    );
}

#[test]
fn unary_minus_of_group_and_double_negation() {
    assert_eq!(
        reduce_arithmetic(vec![
            Token::Minus,
            Token::OpenParen,
            Token::Numeral(1),
            Token::Plus,
            Token::Numeral(2),
            Token::CloseParen,
        ]),
        Ok(ArithmeticExpression::Uminus(Box::new(ArithmeticExpression::Add(num(1), num(2)))))
    );
    assert_eq!(
        reduce_arithmetic(vec![Token::Minus, Token::Minus, Token::Numeral(5)]),
        Ok(ArithmeticExpression::Uminus(Box::new(ArithmeticExpression::Uminus(num(5)))))
    );
}

#[test]
fn binary_minus_after_operand() {
    assert_eq!(
        reduce_arithmetic(vec![Token::Numeral(5), Token::Minus, Token::Numeral(3)]),
        Ok(ArithmeticExpression::Minus(num(5), num(3)))
    );
    assert_eq!(
        reduce_arithmetic(vec![Token::Numeral(5), Token::Minus, Token::Minus, Token::Numeral(3)]),
        Ok(ArithmeticExpression::Minus(num(5), Box::new(ArithmeticExpression::Uminus(num(3)))))
    );
}

#[test]
fn boolean_connective() {
    assert_eq!(
        reduce_boolean(vec![Token::True, Token::And, Token::False]),
        Ok(BooleanExpression::And(boxed_bool(true), boxed_bool(false)))
    );
    assert_eq!(
        reduce_boolean(vec![Token::False, Token::Or, Token::True]),
        Ok(BooleanExpression::Or(boxed_bool(false), boxed_bool(true)))
    );
}

#[test]
fn comparisons_before_connective() {
    let r = reduce_boolean(vec![
        Token::Numeral(2),
        Token::Less,
        Token::Numeral(3),
        Token::And,
        Token::Numeral(4),
        Token::GreatEqual,
        Token::Numeral(1),
    ]);
    assert_eq!(
        r,
        Ok(BooleanExpression::And(
            Box::new(BooleanExpression::Less(num(2), num(3))),
            Box::new(BooleanExpression::GreatEqual(num(4), num(1)))
        ))
    );
}

#[test]
fn every_comparison_operator() {
    let cases = vec![
        (Token::Equal, BooleanExpression::Equal(num(1), num(2))),
        (Token::Less, BooleanExpression::Less(num(1), num(2))),
        (Token::LessEqual, BooleanExpression::LessEqual(num(1), num(2))),
        (Token::Greater, BooleanExpression::Great(num(1), num(2))),
        (Token::GreatEqual, BooleanExpression::GreatEqual(num(1), num(2))),
    ];
    for (op, expected) in cases {
        assert_eq!(reduce_boolean(vec![Token::Numeral(1), op, Token::Numeral(2)]), Ok(expected));
    }
}

#[test]
fn comparison_of_arithmetic_sides() {
    let r = reduce_boolean(vec![
        Token::Identifier("x".to_string()),
        Token::Plus,
        Token::Numeral(1),
        Token::Less,
        Token::OpenParen,
        Token::Numeral(2),
        Token::Multiply,
        Token::Numeral(3),
        Token::CloseParen,
    ]);
    assert_eq!(
        r,
        Ok(BooleanExpression::Less(
            Box::new(ArithmeticExpression::Add(
                Box::new(ArithmeticExpression::Variable("x".to_string())),
                num(1)
            )),
            Box::new(ArithmeticExpression::Product(num(2), num(3)))
        ))
    );
}

#[test]
fn boolean_group() {
    let r = reduce_boolean(vec![
        Token::True,
        Token::And,
        Token::OpenParen,
        Token::False,
        Token::Or,
        Token::True,
        Token::CloseParen,
    ]);
    assert_eq!(
        r,
        Ok(BooleanExpression::And(
            boxed_bool(true),
            Box::new(BooleanExpression::Or(boxed_bool(false), boxed_bool(true)))
        ))
    );
}

#[test]
fn unbalanced_group() {
    assert_eq!(
        reduce_arithmetic(vec![
            Token::OpenParen,
            Token::Numeral(2),
            Token::Plus,
            Token::Numeral(3),
        ]),
        Err(ParseError::UnbalancedParentheses)
    );
}

#[test]
fn operator_without_left_operand() {
    assert_eq!(
        reduce_arithmetic(vec![Token::Plus, Token::Numeral(3)]),
        Err(ParseError::MissingLeftOperand)
    );
}

#[test]
fn operator_without_right_operand() {
    assert_eq!(
        reduce_arithmetic(vec![Token::Numeral(3), Token::Multiply]),
        Err(ParseError::MissingRightOperand)
    );
    assert_eq!(
        reduce_arithmetic(vec![Token::Minus]),
        Err(ParseError::MissingRightOperand)
    );
}

#[test]
fn arithmetic_operator_on_booleans() {
    assert_eq!(
        reduce_boolean(vec![Token::True, Token::Plus, Token::False]),
        Err(ParseError::TypeMismatch)
    );
}

#[test]
fn connective_on_numbers() {
    assert_eq!(
        reduce_boolean(vec![Token::Numeral(1), Token::And, Token::Numeral(2)]),
        Err(ParseError::TypeMismatch)
    );
    assert_eq!(
        reduce_arithmetic(vec![Token::Minus, Token::True]),
        Err(ParseError::TypeMismatch)
    );
}

#[test]
fn malformed_results() {
    assert_eq!(
        reduce_arithmetic(vec![Token::Numeral(1), Token::Numeral(2)]),
        Err(ParseError::MalformedSubexpression)
    );
    assert_eq!(reduce_arithmetic(vec![Token::True]), Err(ParseError::MalformedSubexpression));
    assert_eq!(reduce_boolean(vec![Token::Numeral(1)]), Err(ParseError::MalformedSubexpression));
    assert_eq!(reduce_arithmetic(vec![]), Err(ParseError::MalformedSubexpression));
    assert_eq!(
        reduce_arithmetic(vec![
            Token::Numeral(1),
            Token::Plus,
            Token::OpenParen,
            Token::True,
            Token::CloseParen,
        ]),
        Err(ParseError::MalformedSubexpression)
    );
}

#[test]
fn reduced_node_is_left_alone() {
    let node = ArithmeticExpression::Add(num(1), num(2));
    let mut v = AnyVec::new();
    v.push_arithmetic_expr(ArithmeticExpression::Add(num(1), num(2)));
    let mut index: usize = 0;
    parse_atomic(&mut v, &mut index);
    index = 0;
    assert_eq!(parse_arithmetic_unop(&mut v, &mut index), Ok(()));
    index = 0;
    assert_eq!(parse_arithmetic_expression(&mut v, &mut index), Ok(()));
    index = 0;
    assert_eq!(parse_bool_expression(&mut v, &mut index), Ok(()));
    assert_eq!(v.len(), 1);
    assert_eq!(v.get(0), Ok(&Any::ArithmeticExpression(node)));

    let mut b = AnyVec::new();
    b.push_boolean_expr(BooleanExpression::BooleanLiteral(true));
    let mut index: usize = 0;
    assert_eq!(parse_bool_expression(&mut b, &mut index), Ok(()));
    assert_eq!(b.get(0), Ok(&Any::BooleanExpression(BooleanExpression::BooleanLiteral(true))));
}

#[test]
fn atomic_pass_resolves_leaves_only() {
    let mut v = seq_of(vec![
        Token::Numeral(4),
        Token::Identifier("y".to_string()),
        Token::True,
        Token::False,
        Token::Skip,
        Token::Plus,
    ]);
    let mut index: usize = 0;
    parse_atomic(&mut v, &mut index);
    assert_eq!(index, 6);
    assert_eq!(v.get(0), Ok(&Any::ArithmeticExpression(ArithmeticExpression::Numeral(4))));
    assert_eq!(
        v.get(1),
        Ok(&Any::ArithmeticExpression(ArithmeticExpression::Variable("y".to_string())))
    );
    assert_eq!(v.get(2), Ok(&Any::BooleanExpression(BooleanExpression::BooleanLiteral(true))));
    assert_eq!(v.get(3), Ok(&Any::BooleanExpression(BooleanExpression::BooleanLiteral(false))));
    assert_eq!(v.get(4), Ok(&Any::Statement(Statement::Skip)));
    assert_eq!(v.get(5), Ok(&Any::Token(Token::Plus)));
    assert_eq!(v.get(6), Err(ParseError::IndexOutOfRange));
}

#[test]
fn leaf_helpers_report_bad_slots() {
    let mut v = AnyVec::new();
    v.push_statement(Statement::Skip);
    let mut index: usize = 0;
    assert_eq!(parse_lit(&mut v, &mut index), Err(ParseError::UnexpectedNodeKind));
    assert_eq!(parse_var(&mut v, &mut index), Err(ParseError::UnexpectedNodeKind));
    assert_eq!(parse_bool_value(&mut v, &mut index), Err(ParseError::UnexpectedNodeKind));
    assert_eq!(parse_skip(&mut v, &mut index), Err(ParseError::UnexpectedNodeKind));
    index = 1;
    assert_eq!(parse_lit(&mut v, &mut index), Err(ParseError::IndexOutOfRange));
    assert_eq!(index, 1);

    let mut w = seq_of(vec![Token::Numeral(9), Token::Plus]);
    let mut index: usize = 1;
    assert_eq!(parse_lit(&mut w, &mut index), Ok(()));
    assert_eq!(w.get(1), Ok(&Any::Token(Token::Plus)));
    index = 0;
    assert_eq!(parse_lit(&mut w, &mut index), Ok(()));
    assert_eq!(w.get(0), Ok(&Any::ArithmeticExpression(ArithmeticExpression::Numeral(9))));
}

#[test]
fn subexpression_is_spliced_in_place() {
    let mut v = seq_of(vec![
        Token::Plus,
        Token::OpenParen,
        Token::Numeral(1),
        Token::Multiply,
        Token::Numeral(2),
        Token::CloseParen,
        Token::Minus,
    ]);
    let mut index: usize = 0;
    parse_atomic(&mut v, &mut index);
    let mut index: usize = 1;
    assert_eq!(parse_arithmetic_subexpression(&mut v, &mut index), Ok(()));
    assert_eq!(index, 1);
    assert_eq!(v.len(), 3);
    assert_eq!(v.get(0), Ok(&Any::Token(Token::Plus)));
    assert_eq!(
        v.get(1),
        Ok(&Any::ArithmeticExpression(ArithmeticExpression::Product(num(1), num(2))))
    );
    assert_eq!(v.get(2), Ok(&Any::Token(Token::Minus)));
}

#[test]
fn subexpression_errors() {
    let mut v = seq_of(vec![Token::OpenParen, Token::True, Token::CloseParen]);
    let mut index: usize = 0;
    parse_atomic(&mut v, &mut index);
    index = 0;
    assert_eq!(
        parse_arithmetic_subexpression(&mut v, &mut index),
        Err(ParseError::MalformedSubexpression)
    );

    let mut b = seq_of(vec![Token::OpenParen, Token::True, Token::CloseParen]);
    let mut index: usize = 0;
    parse_atomic(&mut b, &mut index);
    index = 0;
    assert_eq!(parse_bool_subexpression(&mut b, &mut index), Ok(()));
    assert_eq!(b.len(), 1);
    assert_eq!(b.get(0), Ok(&Any::BooleanExpression(BooleanExpression::BooleanLiteral(true))));

    let mut n = seq_of(vec![Token::Numeral(1)]);
    let mut index: usize = 0;
    assert_eq!(
        parse_bool_subexpression(&mut n, &mut index),
        Err(ParseError::UnexpectedNodeKind)
    );
    index = 3;
    assert_eq!(parse_bool_subexpression(&mut n, &mut index), Err(ParseError::IndexOutOfRange));

    let mut u = seq_of(vec![Token::OpenParen, Token::OpenParen, Token::CloseParen]);
    let mut index: usize = 0;
    assert_eq!(
        parse_arithmetic_subexpression(&mut u, &mut index),
        Err(ParseError::UnbalancedParentheses)
    );
}

#[test]
fn parse_runs_every_pass() {
    let program = TokenVec::new(vec![
        Token::Skip,
        Token::Semicolon,
        Token::Numeral(1),
        Token::Plus,
        Token::Numeral(2),
        Token::Equal,
        Token::Numeral(3),
    ]);
    let v = parse(program).unwrap();
    assert_eq!(v.len(), 3);
    assert_eq!(v.get(0), Ok(&Any::Statement(Statement::Skip)));
    assert_eq!(v.get(1), Ok(&Any::Token(Token::Semicolon)));
    assert_eq!(
        v.get(2),
        Ok(&Any::BooleanExpression(BooleanExpression::Equal(
            Box::new(ArithmeticExpression::Add(num(1), num(2))),
            num(3)
        )))
    );
    assert_eq!(
        parse(TokenVec::new(vec![Token::Plus])).err(),
        Some(ParseError::MissingLeftOperand)
    );
}

#[test]
fn node_sequence_operations() {
    let mut v = AnyVec::new();
    assert_eq!(v.len(), 0);
    v.push_token(Token::Plus);
    v.push_arithmetic_expr(ArithmeticExpression::Numeral(1));
    assert_eq!(v.insert(1, Any::Token(Token::Minus)), Ok(()));
    assert_eq!(v.insert(9, Any::Token(Token::Minus)), Err(ParseError::IndexOutOfRange));
    assert_eq!(v.len(), 3);
    assert_eq!(v.remove(0), Ok(Any::Token(Token::Plus)));
    assert_eq!(v.remove(5), Err(ParseError::IndexOutOfRange));
    assert_eq!(v.get(0), Ok(&Any::Token(Token::Minus)));
    assert_eq!(v.get(1).unwrap().as_arithmetic_expr(), Some(&ArithmeticExpression::Numeral(1)));
    assert_eq!(v.get(1).unwrap().as_token(), None);
    assert_eq!(v.get(0).unwrap().as_token(), Some(&Token::Minus));
}

#[test]
fn node_conversions() {
    let a = Any::from_boolean_expr(BooleanExpression::BooleanLiteral(false));
    assert_eq!(a.as_boolean_expr(), Some(&BooleanExpression::BooleanLiteral(false)));
    assert_eq!(a.as_arithmetic_expr(), None);
    let s = Any::from_statement(Statement::Skip);
    assert_eq!(s.as_statement(), Some(&Statement::Skip));
    assert_eq!(s.as_boolean_expr(), None);
    let t = Any::from_token(Token::Or);
    assert_eq!(t.as_token(), Some(&Token::Or));
    assert_eq!(t.as_statement(), None);
    let e = Any::from_arithmetic_expr(ArithmeticExpression::Numeral(3));
    assert_eq!(e, Any::ArithmeticExpression(ArithmeticExpression::Numeral(3)));
}

#[test]
fn arithmetic_reducer_binds_leading_minus() {
    let mut v = seq_of(vec![Token::Minus, Token::Numeral(5)]);
    let mut index: usize = 0;
    parse_atomic(&mut v, &mut index);
    index = 0;
    assert_eq!(parse_arithmetic_expression(&mut v, &mut index), Ok(()));
    assert_eq!(v.len(), 1);
    assert_eq!(
        v.get(0),
        Ok(&Any::ArithmeticExpression(ArithmeticExpression::Uminus(num(5))))
    );
}

#[test]
fn unary_resolver_reduces_leaf_token_on_the_spot() {
    let mut v = seq_of(vec![Token::Minus, Token::Numeral(5)]);
    let mut index: usize = 0;
    assert_eq!(parse_arithmetic_unop(&mut v, &mut index), Ok(()));
    assert_eq!(v.len(), 1);
    assert_eq!(
        v.get(0),
        Ok(&Any::ArithmeticExpression(ArithmeticExpression::Uminus(num(5))))
    );

    let mut w = seq_of(vec![Token::Minus, Token::Identifier("z".to_string())]);
    let mut index: usize = 0;
    assert_eq!(parse_arithmetic_unop(&mut w, &mut index), Ok(()));
    assert_eq!(
        w.get(0),
        Ok(&Any::ArithmeticExpression(ArithmeticExpression::Uminus(Box::new(
            ArithmeticExpression::Variable("z".to_string())
        ))))
    );

    let mut b = seq_of(vec![Token::Minus, Token::True]);
    let mut index: usize = 0;
    assert_eq!(parse_arithmetic_unop(&mut b, &mut index), Err(ParseError::TypeMismatch));
}
