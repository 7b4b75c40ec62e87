//! The reduction engine as mathematics: each pass is a function from a node
//! sequence (and a scan position) to the rewritten sequence or the first error.
use vstd::prelude::*;

use crate::ast::{Any, ArithmeticExpression, BooleanExpression, ParseError, Statement, Token};

verus! {

/// The kind of node a reduction must end in.
#[derive(Clone, Copy, Debug, PartialEq, Eq, Structural)]
pub enum Category {
    Arithmetic,
    Boolean,
    /// Either an arithmetic or a boolean expression.
    Expression,
}

/// Which operators an operator pass binds.
#[derive(Clone, Copy, Debug, PartialEq, Eq, Structural)]
pub enum Stage {
    /// `+`, `-`, `*`.
    Arithmetic,
    /// `and`, `or`, `=`, `<`, `<=`, `>`, `>=`.
    Boolean,
}

pub open spec fn fits(a: Any, cat: Category) -> bool {
    match cat {
        Category::Arithmetic => a is ArithmeticExpression,
        Category::Boolean => a is BooleanExpression,
        Category::Expression => a is ArithmeticExpression || a is BooleanExpression,
    }
}

/// What the atomic resolver makes of one slot.
pub open spec fn atomic_leaf(a: Any) -> Any {
    match a {
        Any::Token(Token::Numeral(n)) => Any::ArithmeticExpression(ArithmeticExpression::Numeral(n)),
        Any::Token(Token::Identifier(x)) => Any::ArithmeticExpression(
            ArithmeticExpression::Variable(x),
        ),
        Any::Token(Token::True) => Any::BooleanExpression(BooleanExpression::BooleanLiteral(true)),
        Any::Token(Token::False) => Any::BooleanExpression(BooleanExpression::BooleanLiteral(false)),
        Any::Token(Token::Skip) => Any::Statement(Statement::Skip),
        _ => a,
    }
}

pub open spec fn atomic_pass(s: Seq<Any>) -> Seq<Any> {
    s.map_values(|a: Any| atomic_leaf(a))
}

pub open spec fn token_nodes(ts: Seq<Token>) -> Seq<Any> {
    ts.map_values(|t: Token| Any::Token(t))
}

/// `s` with the slots `lo..hi` replaced by the single node `x`.
pub open spec fn splice(s: Seq<Any>, lo: int, hi: int, x: Any) -> Seq<Any> {
    s.subrange(0, lo).push(x) + s.subrange(hi, s.len() as int)
}

/// Position of the closer that brings the nesting `depth` (at least 1) back to zero,
/// scanning from `j`.
pub open spec fn matching_close(s: Seq<Any>, j: int, depth: nat) -> Option<int>
    decreases s.len() - j,
{
    if j < 0 || j >= s.len() {
        None
    } else if s[j] == Any::Token(Token::CloseParen) {
        if depth <= 1 {
            Some(j)
        } else {
            matching_close(s, j + 1, (depth - 1) as nat)
        }
    } else if s[j] == Any::Token(Token::OpenParen) {
        matching_close(s, j + 1, depth + 1)
    } else {
        matching_close(s, j + 1, depth)
    }
}

/// A negation sign is unary at the start, or after a token other than a closer.
pub open spec fn unary_position(s: Seq<Any>, i: int) -> bool {
    i == 0 || (s[i - 1] is Token && s[i - 1] != Any::Token(Token::CloseParen))
}

pub open spec fn binds_at(t: Token, stage: Stage) -> bool {
    match stage {
        Stage::Arithmetic => t is Plus || t is Minus || t is Multiply,
        Stage::Boolean => t is And || t is Or || t is Equal || t is Less || t is LessEqual
            || t is Greater || t is GreatEqual,
    }
}

pub open spec fn is_comparison(a: Any) -> bool {
    a is Token && (a->Token_0 is Equal || a->Token_0 is Less || a->Token_0 is LessEqual
        || a->Token_0 is Greater || a->Token_0 is GreatEqual)
}

/// Connectives take booleans; every other operator takes arithmetic operands.
pub open spec fn operand_category(t: Token) -> Category {
    if t is And || t is Or {
        Category::Boolean
    } else {
        Category::Arithmetic
    }
}

/// The node that operator `op` builds from its two operands.
pub open spec fn combine(op: Token, l: Any, r: Any) -> Any {
    let la = Box::new(l->ArithmeticExpression_0);
    let ra = Box::new(r->ArithmeticExpression_0);
    let lb = Box::new(l->BooleanExpression_0);
    let rb = Box::new(r->BooleanExpression_0);
    match op {
        Token::Plus => Any::ArithmeticExpression(ArithmeticExpression::Add(la, ra)),
        Token::Minus => Any::ArithmeticExpression(ArithmeticExpression::Minus(la, ra)),
        Token::Multiply => Any::ArithmeticExpression(ArithmeticExpression::Product(la, ra)),
        Token::And => Any::BooleanExpression(BooleanExpression::And(lb, rb)),
        Token::Or => Any::BooleanExpression(BooleanExpression::Or(lb, rb)),
        Token::Equal => Any::BooleanExpression(BooleanExpression::Equal(la, ra)),
        Token::Less => Any::BooleanExpression(BooleanExpression::Less(la, ra)),
        Token::LessEqual => Any::BooleanExpression(BooleanExpression::LessEqual(la, ra)),
        Token::Greater => Any::BooleanExpression(BooleanExpression::Great(la, ra)),
        Token::GreatEqual => Any::BooleanExpression(BooleanExpression::GreatEqual(la, ra)),
        _ => l,
    }
}

/// Replaces the negation sign at `i` and the arithmetic node after it by one `Uminus`.
pub open spec fn bind_negation(s: Seq<Any>, i: nat) -> Result<Seq<Any>, ParseError> {
    if i + 1 < s.len() && s[i + 1int] is ArithmeticExpression {
        let neg = ArithmeticExpression::Uminus(Box::new(s[i + 1int]->ArithmeticExpression_0));
        Ok(splice(s, i as int, i + 2int, Any::ArithmeticExpression(neg)))
    } else {
        Err(ParseError::TypeMismatch)
    }
}

/// Replaces the operator at `i` and its two neighbours by the node it builds.
pub open spec fn bind_operator(s: Seq<Any>, i: nat) -> Result<Seq<Any>, ParseError> {
    let op = s[i as int]->Token_0;
    let cat = operand_category(op);
    if 0 < i && i + 1 < s.len() && fits(s[i - 1], cat) && fits(s[i + 1int], cat) {
        Ok(splice(s, i - 1, i + 2int, combine(op, s[i - 1], s[i + 1int])))
    } else {
        Err(ParseError::TypeMismatch)
    }
}

/// Reduces a whole sequence and demands one node of category `cat`.
pub open spec fn reduction(s: Seq<Any>, cat: Category) -> Result<Any, ParseError>
    decreases s.len(), 5nat, 0int,
{
    match after_passes(s) {
        Ok(r) => if r.len() == 1 && fits(r[0], cat) {
            Ok(r[0])
        } else {
            Err(ParseError::MalformedSubexpression)
        },
        Err(e) => Err(e),
    }
}

/// Atomic, arithmetic (unary resolver, then `+ - *`) and boolean passes, in this order.
/// No pass lengthens the sequence (`passes_never_lengthen`); the length
/// comparison below only makes that visible to the termination measure.
pub open spec fn after_passes(s: Seq<Any>) -> Result<Seq<Any>, ParseError>
    decreases s.len(), 4nat, 0int,
{
    let s1 = atomic_pass(s);
    match after_arithmetic(s1, 0) {
        Err(e) => Err(e),
        Ok(s2) => if s2.len() <= s.len() {
            after_operators(s2, 0, Stage::Boolean)
        } else {
            Ok(s2)
        },
    }
}

/// The arithmetic reducer from scan position `i`: the unary resolver, then the
/// `+ - *` scan, both from `i`. The length comparison is there for the
/// termination measure only (`passes_never_lengthen`).
pub open spec fn after_arithmetic(s: Seq<Any>, i: nat) -> Result<Seq<Any>, ParseError>
    decreases s.len(), 3nat, 0int,
{
    match after_unary(s, i) {
        Err(e) => Err(e),
        Ok(s1) => if s1.len() <= s.len() {
            after_operators(s1, i, Stage::Arithmetic)
        } else {
            Ok(s1)
        },
    }
}

/// The unary pass from scan position `i`.
pub open spec fn after_unary(s: Seq<Any>, i: nat) -> Result<Seq<Any>, ParseError>
    decreases s.len(), 2nat, s.len() - i,
{
    if i >= s.len() {
        Ok(s)
    } else if s[i as int] == Any::Token(Token::Minus) && unary_position(s, i as int) {
        match after_negation(s, i) {
            Err(e) => Err(e),
            Ok(s2) => if s2.len() < s.len() {
                after_unary(s2, i + 1)
            } else {
                Ok(s2)
            },
        }
    } else {
        after_unary(s, i + 1)
    }
}

/// Binds the negation sign at `i` to its operand: a parenthesized group, a
/// further negation, or a node, where a leaf token is resolved on the spot.
pub open spec fn after_negation(s: Seq<Any>, i: nat) -> Result<Seq<Any>, ParseError>
    decreases s.len(), 1nat, s.len() - i,
{
    if i + 1 >= s.len() {
        Err(ParseError::MissingRightOperand)
    } else if s[i + 1int] == Any::Token(Token::OpenParen) {
        match after_group(s, i + 1, Category::Arithmetic) {
            Err(e) => Err(e),
            Ok(s2) => bind_negation(s2, i),
        }
    } else if s[i + 1int] == Any::Token(Token::Minus) {
        match after_negation(s, i + 1) {
            Err(e) => Err(e),
            Ok(s2) => bind_negation(s2, i),
        }
    } else {
        bind_negation(s.update(i + 1int, atomic_leaf(s[i + 1int])), i)
    }
}

/// Replaces the parenthesized group opened at `o` by the reduction of what it
/// encloses, which must be of category `cat`.
pub open spec fn after_group(s: Seq<Any>, o: nat, cat: Category) -> Result<Seq<Any>, ParseError>
    decreases s.len(), 0nat, 0int,
{
    if o >= s.len() {
        Err(ParseError::IndexOutOfRange)
    } else if s[o as int] != Any::Token(Token::OpenParen) {
        Err(ParseError::UnexpectedNodeKind)
    } else {
        match matching_close(s, o + 1int, 1) {
            None => Err(ParseError::UnbalancedParentheses),
            Some(c) => if o < c < s.len() {
                match reduction(s.subrange(o + 1int, c), cat) {
                    Err(e) => Err(e),
                    Ok(x) => Ok(splice(s, o as int, c + 1, x)),
                }
            } else {
                Err(ParseError::UnbalancedParentheses)
            },
        }
    }
}

/// An operator pass from scan position `i`: each operator of `stage` binds its
/// immediate neighbours when the scan reaches it. In the arithmetic pass a group
/// standing on its own is reduced where it stands.
pub open spec fn after_operators(s: Seq<Any>, i: nat, stage: Stage) -> Result<Seq<Any>, ParseError>
    decreases s.len(), 2nat, s.len() - i,
{
    if i >= s.len() {
        Ok(s)
    } else if stage == Stage::Arithmetic && s[i as int] == Any::Token(Token::OpenParen) {
        match after_group(s, i, Category::Expression) {
            Err(e) => Err(e),
            Ok(s2) => if s2.len() < s.len() {
                after_operators(s2, i + 1, stage)
            } else {
                Ok(s2)
            },
        }
    } else if s[i as int] is Token && binds_at(s[i as int]->Token_0, stage) {
        match after_binary(s, i) {
            Err(e) => Err(e),
            Ok(s2) => if s2.len() < s.len() {
                after_operators(s2, i, stage)
            } else {
                Ok(s2)
            },
        }
    } else {
        after_operators(s, i + 1, stage)
    }
}

/// Binds the operator at `i` to the node before it and to the node, or
/// parenthesized group, after it. A connective whose right neighbour is an
/// arithmetic node followed by a comparison first binds that comparison.
pub open spec fn after_binary(s: Seq<Any>, i: nat) -> Result<Seq<Any>, ParseError>
    decreases s.len(), 1nat, s.len() - i,
{
    let cat = operand_category(s[i as int]->Token_0);
    if i == 0 {
        Err(ParseError::MissingLeftOperand)
    } else if !fits(s[i - 1], cat) {
        Err(ParseError::TypeMismatch)
    } else if i + 1 >= s.len() {
        Err(ParseError::MissingRightOperand)
    } else if s[i + 1int] == Any::Token(Token::OpenParen) {
        match after_group(s, i + 1, cat) {
            Err(e) => Err(e),
            Ok(s2) => bind_operator(s2, i),
        }
    } else if cat == Category::Boolean && s[i + 1int] is ArithmeticExpression && i + 2 < s.len()
        && is_comparison(s[i + 2int]) {
        match after_binary(s, i + 2) {
            Err(e) => Err(e),
            Ok(s2) => bind_operator(s2, i),
        }
    } else {
        bind_operator(s, i)
    }
}

/// The outcome of reducing a token sequence to an arithmetic expression.
pub open spec fn arithmetic_result(ts: Seq<Token>) -> Result<ArithmeticExpression, ParseError> {
    match reduction(token_nodes(ts), Category::Arithmetic) {
        Ok(x) => if x is ArithmeticExpression {
            Ok(x->ArithmeticExpression_0)
        } else {
            Err(ParseError::MalformedSubexpression)
        },
        Err(e) => Err(e),
    }
}

/// The outcome of reducing a token sequence to a boolean expression.
pub open spec fn boolean_result(ts: Seq<Token>) -> Result<BooleanExpression, ParseError> {
    match reduction(token_nodes(ts), Category::Boolean) {
        Ok(x) => if x is BooleanExpression {
            Ok(x->BooleanExpression_0)
        } else {
            Err(ParseError::MalformedSubexpression)
        },
        Err(e) => Err(e),
    }
}

/// An executable step agrees with its model: the same error, or success with
/// the sequence the model gives.
pub open spec fn agrees(r: Result<(), ParseError>, after: Seq<Any>, model: Result<Seq<Any>, ParseError>) -> bool {
    match model {
        Ok(s) => r is Ok && after == s,
        Err(e) => r == Err::<(), ParseError>(e),
    }
}

} // verus!
