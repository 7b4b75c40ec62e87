use vstd::prelude::*;

verus! {

/// A lexical token as the tokenizer hands it over.
#[derive(Clone, Debug, PartialEq, Eq)]
pub enum Token {
    Numeral(i64),
    Identifier(String),
    Plus,
    Minus,
    Multiply,
    Divide,
    Assign,
    Less,
    LessEqual,
    Greater,
    GreatEqual,
    Equal,
    And,
    Or,
    Not,
    Increment,
    If,
    Then,
    Else,
    While,
    Repeat,
    Until,
    For,
    Skip,
    True,
    False,
    OpenParen,
    CloseParen,
    OpenBrace,
    CloseBrace,
    Semicolon,
}

/// An arithmetic expression tree; each node owns its operands.
#[derive(Debug, PartialEq, Eq)]
pub enum ArithmeticExpression {
    Numeral(i64),
    Variable(String),
    Add(Box<ArithmeticExpression>, Box<ArithmeticExpression>),
    Minus(Box<ArithmeticExpression>, Box<ArithmeticExpression>),
    Product(Box<ArithmeticExpression>, Box<ArithmeticExpression>),
    Uminus(Box<ArithmeticExpression>),
}

/// A boolean expression tree: connectives over booleans, comparisons over arithmetic.
#[derive(Debug, PartialEq, Eq)]
pub enum BooleanExpression {
    BooleanLiteral(bool),
    And(Box<BooleanExpression>, Box<BooleanExpression>),
    Or(Box<BooleanExpression>, Box<BooleanExpression>),
    Equal(Box<ArithmeticExpression>, Box<ArithmeticExpression>),
    Less(Box<ArithmeticExpression>, Box<ArithmeticExpression>),
    LessEqual(Box<ArithmeticExpression>, Box<ArithmeticExpression>),
    Great(Box<ArithmeticExpression>, Box<ArithmeticExpression>),
    GreatEqual(Box<ArithmeticExpression>, Box<ArithmeticExpression>),
}

/// Statements; only the `skip` leaf is built by the expression engine.
#[derive(Clone, Copy, Debug, PartialEq, Eq)]
pub enum Statement {
    Skip,
}

/// One slot of the working sequence: a token not yet consumed, or a finished node.
#[derive(Debug, PartialEq, Eq)]
pub enum Any {
    BooleanExpression(BooleanExpression),
    ArithmeticExpression(ArithmeticExpression),
    Statement(Statement),
    Token(Token),
}

/// Why a parse failed. Every failure aborts the whole parse.
#[derive(Clone, Copy, Debug, PartialEq, Eq)]
pub enum ParseError {
    IndexOutOfRange,
    UnexpectedNodeKind,
    MissingLeftOperand,
    MissingRightOperand,
    TypeMismatch,
    UnbalancedParentheses,
    MalformedSubexpression,
}

impl Any {
    pub fn from_boolean_expr(expr: BooleanExpression) -> (r: Any)
        ensures
            r == Any::BooleanExpression(expr),
    {
        Any::BooleanExpression(expr)
    }

    pub fn from_arithmetic_expr(expr: ArithmeticExpression) -> (r: Any)
        ensures
            r == Any::ArithmeticExpression(expr),
    {
        Any::ArithmeticExpression(expr)
    }

    pub fn from_statement(stmt: Statement) -> (r: Any)
        ensures
            r == Any::Statement(stmt),
    {
        Any::Statement(stmt)
    }

    pub fn from_token(token: Token) -> (r: Any)
        ensures
            r == Any::Token(token),
    {
        Any::Token(token)
    }

    pub fn as_boolean_expr(&self) -> (r: Option<&BooleanExpression>)
        ensures
            r == (if self is BooleanExpression {
                Some(&self->BooleanExpression_0)
            } else {
                None
            }),
    {
        if let Any::BooleanExpression(expr) = self {
            Some(expr)
        } else {
            None
        }
    }

    pub fn as_arithmetic_expr(&self) -> (r: Option<&ArithmeticExpression>)
        ensures
            r == (if self is ArithmeticExpression {
                Some(&self->ArithmeticExpression_0)
            } else {
                None
            }),
    {
        if let Any::ArithmeticExpression(expr) = self {
            Some(expr)
        } else {
            None
        }
    }

    pub fn as_statement(&self) -> (r: Option<&Statement>)
        ensures
            r == (if self is Statement {
                Some(&self->Statement_0)
            } else {
                None
            }),
    {
        if let Any::Statement(stmt) = self {
            Some(stmt)
        } else {
            None
        }
    }

    pub fn as_token(&self) -> (r: Option<&Token>)
        ensures
            r == (if self is Token {
                Some(&self->Token_0)
            } else {
                None
            }),
    {
        if let Any::Token(token) = self {
            Some(token)
        } else {
            None
        }
    }
}

} // verus!
