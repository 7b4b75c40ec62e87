//! Laws of the reducer, proved over the model that the executable passes follow.
use vstd::prelude::*;

use crate::ast::{Any, ArithmeticExpression, ParseError, Token};
use crate::semantics::{
    after_arithmetic, after_binary, after_group, after_negation, after_operators, after_passes,
    after_unary, arithmetic_result, atomic_pass, fits, reduction, token_nodes, Category, Stage,
};

verus! {

/// A sequence that is already one finished node is left alone by every pass:
/// no pass finds a token to act on, and the reduction hands the node back.
pub proof fn reduced_node_is_fixed(x: Any, cat: Category)
    requires
        !(x is Token),
    ensures
        atomic_pass(seq![x]) == seq![x],
        after_unary(seq![x], 0) == Ok::<Seq<Any>, ParseError>(seq![x]),
        after_operators(seq![x], 0, Stage::Arithmetic) == Ok::<Seq<Any>, ParseError>(seq![x]),
        after_operators(seq![x], 0, Stage::Boolean) == Ok::<Seq<Any>, ParseError>(seq![x]),
        after_passes(seq![x]) == Ok::<Seq<Any>, ParseError>(seq![x]),
        fits(x, cat) ==> reduction(seq![x], cat) == Ok::<Any, ParseError>(x),
{
    let s = seq![x];
    assert(atomic_pass(s) =~= s);
    reveal_with_fuel(after_unary, 2);
    reveal_with_fuel(after_operators, 2);
}

/// Reducing the node that a reduction produced gives that node again.
pub proof fn reduction_is_idempotent(s: Seq<Any>, cat: Category)
    requires
        reduction(s, cat) is Ok,
    ensures
        reduction(seq![reduction(s, cat)->Ok_0], cat) == reduction(s, cat),
{
    let x = reduction(s, cat)->Ok_0;
    reduced_node_is_fixed(x, cat);
}

/// A lone numeral token reduces to that numeral.
pub proof fn lone_numeral_reduces_to_itself(n: i64)
    ensures
        arithmetic_result(seq![Token::Numeral(n)]) == Ok::<ArithmeticExpression, ParseError>(
            ArithmeticExpression::Numeral(n),
        ),
{
    let x = Any::ArithmeticExpression(ArithmeticExpression::Numeral(n));
    assert(atomic_pass(token_nodes(seq![Token::Numeral(n)])) =~= seq![x]);
    reduced_node_is_fixed(x, Category::Arithmetic);
}

/// A lone identifier token reduces to the variable of that name.
pub proof fn lone_identifier_reduces_to_variable(name: String)
    ensures
        arithmetic_result(seq![Token::Identifier(name)]) == Ok::<ArithmeticExpression, ParseError>(
            ArithmeticExpression::Variable(name),
        ),
{
    let x = Any::ArithmeticExpression(ArithmeticExpression::Variable(name));
    assert(atomic_pass(token_nodes(seq![Token::Identifier(name)])) =~= seq![x]);
    reduced_node_is_fixed(x, Category::Arithmetic);
}

proof fn group_shortens(s: Seq<Any>, o: nat, cat: Category)
    ensures
        after_group(s, o, cat) is Ok ==> after_group(s, o, cat)->Ok_0.len() < s.len(),
{
}

proof fn negation_shortens(s: Seq<Any>, i: nat)
    ensures
        after_negation(s, i) is Ok ==> after_negation(s, i)->Ok_0.len() < s.len(),
    decreases s.len() - i,
{
    if i + 1 < s.len() {
        if s[i + 1int] == Any::Token(Token::OpenParen) {
            group_shortens(s, i + 1, Category::Arithmetic);
        } else if s[i + 1int] == Any::Token(Token::Minus) {
            negation_shortens(s, i + 1);
        }
    }
}

proof fn binary_shortens(s: Seq<Any>, i: nat)
    ensures
        after_binary(s, i) is Ok ==> after_binary(s, i)->Ok_0.len() < s.len(),
    decreases s.len() - i,
{
    if 0 < i && i + 1 < s.len() {
        group_shortens(s, i + 1, crate::semantics::operand_category(s[i as int]->Token_0));
        if i + 2 < s.len() {
            binary_shortens(s, i + 2);
        }
    }
}

proof fn unary_never_lengthens(s: Seq<Any>, i: nat)
    ensures
        after_unary(s, i) is Ok ==> after_unary(s, i)->Ok_0.len() <= s.len(),
    decreases s.len(), s.len() - i,
{
    if i < s.len() {
        if s[i as int] == Any::Token(Token::Minus) && crate::semantics::unary_position(s, i as int) {
            negation_shortens(s, i);
            if after_negation(s, i) is Ok {
                unary_never_lengthens(after_negation(s, i)->Ok_0, i + 1);
            }
        } else {
            unary_never_lengthens(s, i + 1);
        }
    }
}

proof fn operators_never_lengthen(s: Seq<Any>, i: nat, stage: Stage)
    ensures
        after_operators(s, i, stage) is Ok ==> after_operators(s, i, stage)->Ok_0.len() <= s.len(),
    decreases s.len(), s.len() - i,
{
    if i < s.len() {
        if stage == Stage::Arithmetic && s[i as int] == Any::Token(Token::OpenParen) {
            group_shortens(s, i, Category::Expression);
            if after_group(s, i, Category::Expression) is Ok {
                operators_never_lengthen(after_group(s, i, Category::Expression)->Ok_0, i + 1, stage);
            }
        } else if s[i as int] is Token && crate::semantics::binds_at(s[i as int]->Token_0, stage) {
            binary_shortens(s, i);
            if after_binary(s, i) is Ok {
                operators_never_lengthen(after_binary(s, i)->Ok_0, i, stage);
            }
        } else {
            operators_never_lengthen(s, i + 1, stage);
        }
    }
}

/// No pass makes the node sequence longer: every reduction replaces several
/// slots by one. So the length comparisons in `after_arithmetic` and
/// `after_passes` always hold.
pub proof fn passes_never_lengthen(s: Seq<Any>, i: nat, stage: Stage)
    ensures
        after_unary(s, i) is Ok ==> after_unary(s, i)->Ok_0.len() <= s.len(),
        after_operators(s, i, stage) is Ok ==> after_operators(s, i, stage)->Ok_0.len() <= s.len(),
        after_arithmetic(s, i) is Ok ==> after_arithmetic(s, i)->Ok_0.len() <= s.len(),
        after_passes(s) is Ok ==> after_passes(s)->Ok_0.len() <= s.len(),
{
    unary_never_lengthens(s, i);
    operators_never_lengthen(s, i, stage);
    if after_unary(s, i) is Ok {
        operators_never_lengthen(after_unary(s, i)->Ok_0, i, Stage::Arithmetic);
    }
    let s1 = atomic_pass(s);
    unary_never_lengthens(s1, 0);
    if after_unary(s1, 0) is Ok {
        operators_never_lengthen(after_unary(s1, 0)->Ok_0, 0, Stage::Arithmetic);
    }
    if after_arithmetic(s1, 0) is Ok {
        operators_never_lengthen(after_arithmetic(s1, 0)->Ok_0, 0, Stage::Boolean);
    }
}

} // verus!
