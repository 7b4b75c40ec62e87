//! The expression-reduction engine: passes that rewrite a node sequence in place.
use vstd::prelude::*;

use crate::ast::{Any, ArithmeticExpression, BooleanExpression, ParseError, Statement, Token};
use crate::semantics::{
    after_binary, after_group, after_negation, after_operators, after_passes, after_unary, after_arithmetic, agrees,
    atomic_leaf, atomic_pass, arithmetic_result, bind_negation, bind_operator, binds_at,
    boolean_result, combine, fits, matching_close, operand_category, reduction, splice, token_nodes,
    is_comparison, Category, Stage,
};

verus! {

/// The token sequence of a program, as the tokenizer produced it.
pub struct TokenVec {
    tokens: Vec<Token>,
}

impl View for TokenVec {
    type V = Seq<Token>;

    closed spec fn view(&self) -> Seq<Token> {
        self.tokens@
    }
}

impl TokenVec {
    pub fn new(tokens: Vec<Token>) -> (r: TokenVec)
        ensures
            r@ == tokens@,
    {
        TokenVec { tokens }
    }
}

/// The working sequence that the passes rewrite.
pub struct AnyVec {
    nodes: Vec<Any>,
}

impl View for AnyVec {
    type V = Seq<Any>;

    closed spec fn view(&self) -> Seq<Any> {
        self.nodes@
    }
}

impl AnyVec {
    pub fn push_boolean_expr(&mut self, expr: BooleanExpression)
        ensures
            final(self)@ == old(self)@.push(Any::BooleanExpression(expr)),
    {
        self.nodes.push(Any::from_boolean_expr(expr));
    }

    pub fn push_arithmetic_expr(&mut self, expr: ArithmeticExpression)
        ensures
            final(self)@ == old(self)@.push(Any::ArithmeticExpression(expr)),
    {
        self.nodes.push(Any::from_arithmetic_expr(expr));
    }

    pub fn push_statement(&mut self, stmt: Statement)
        ensures
            final(self)@ == old(self)@.push(Any::Statement(stmt)),
    {
        self.nodes.push(Any::from_statement(stmt));
    }

    pub fn push_token(&mut self, token: Token)
        ensures
            final(self)@ == old(self)@.push(Any::Token(token)),
    {
        self.nodes.push(Any::from_token(token));
    }

    pub fn new() -> (r: AnyVec)
        ensures
            r@ == Seq::<Any>::empty(),
    {
        AnyVec { nodes: Vec::new() }
    }

    /// One token slot per token, in order.
    pub fn from_tokens(tokens: Vec<Token>) -> (r: AnyVec)
        ensures
            r@ == token_nodes(tokens@),
    {
        let mut rest = tokens;
        let mut nodes: Vec<Any> = Vec::new();
        while rest.len() > 0
            invariant
                nodes@ + token_nodes(rest@) == token_nodes(tokens@),
            decreases rest.len(),
        {
            let ghost before = rest@;
            let t = rest.remove(0);
            nodes.push(Any::Token(t));
            assert(token_nodes(before) =~= seq![Any::Token(t)] + token_nodes(rest@));
        }
        assert(nodes@ =~= token_nodes(tokens@));
        AnyVec { nodes }
    }

    pub fn len(&self) -> (r: usize)
        ensures
            r == self@.len(),
    {
        self.nodes.len()
    }

    pub fn get(&self, i: usize) -> (r: Result<&Any, ParseError>)
        ensures
            i < self@.len() ==> r == Ok::<&Any, ParseError>(&self@[i as int]),
            i >= self@.len() ==> r == Err::<&Any, ParseError>(ParseError::IndexOutOfRange),
    {
        if i < self.nodes.len() {
            Ok(&self.nodes[i])
        } else {
            Err(ParseError::IndexOutOfRange)
        }
    }

    pub fn remove(&mut self, i: usize) -> (r: Result<Any, ParseError>)
        ensures
            i < old(self)@.len() ==> r == Ok::<Any, ParseError>(old(self)@[i as int])
                && final(self)@ == old(self)@.remove(i as int),
            i >= old(self)@.len() ==> r == Err::<Any, ParseError>(ParseError::IndexOutOfRange)
                && final(self)@ == old(self)@,
    {
        if i < self.nodes.len() {
            Ok(self.nodes.remove(i))
        } else {
            Err(ParseError::IndexOutOfRange)
        }
    }

    pub fn insert(&mut self, i: usize, node: Any) -> (r: Result<(), ParseError>)
        ensures
            i <= old(self)@.len() ==> r is Ok && final(self)@ == old(self)@.insert(i as int, node),
            i > old(self)@.len() ==> r == Err::<(), ParseError>(ParseError::IndexOutOfRange)
                && final(self)@ == old(self)@,
    {
        if i <= self.nodes.len() {
            self.nodes.insert(i, node);
            Ok(())
        } else {
            Err(ParseError::IndexOutOfRange)
        }
    }
}

/// Success exactly when slot `i` exists and holds a token.
pub open spec fn token_slot(s: Seq<Any>, i: int) -> Result<(), ParseError> {
    if i >= s.len() {
        Err(ParseError::IndexOutOfRange)
    } else if !(s[i] is Token) {
        Err(ParseError::UnexpectedNodeKind)
    } else {
        Ok(())
    }
}

/// Slot `i` resolved to its leaf when `pick` holds of its token, else left alone.
pub open spec fn resolved_if(s: Seq<Any>, i: int, pick: spec_fn(Token) -> bool) -> Seq<Any> {
    if pick(s[i]->Token_0) {
        s.update(i, atomic_leaf(s[i]))
    } else {
        s
    }
}

/// Turns a numeral token at `index` into a `Numeral` leaf.
pub fn parse_lit(tok_vec: &mut AnyVec, index: &mut usize) -> (r: Result<(), ParseError>)
    ensures
        *final(index) == *old(index),
        r == token_slot(old(tok_vec)@, *old(index) as int),
        r is Ok ==> final(tok_vec)@ == resolved_if(
            old(tok_vec)@,
            *old(index) as int,
            |t: Token| t is Numeral,
        ),
        r is Err ==> final(tok_vec)@ == old(tok_vec)@,
{
    let i = *index;
    if i >= tok_vec.nodes.len() {
        return Err(ParseError::IndexOutOfRange);
    }
    match &tok_vec.nodes[i] {
        Any::Token(Token::Numeral(value)) => {
            let n = *value;
            tok_vec.nodes.set(i, Any::ArithmeticExpression(ArithmeticExpression::Numeral(n)));
            Ok(())
        },
        Any::Token(_) => Ok(()),
        _ => Err(ParseError::UnexpectedNodeKind),
    }
}

/// Turns a `true` or `false` token at `index` into a `BooleanLiteral` leaf.
pub fn parse_bool_value(tok_vec: &mut AnyVec, index: &mut usize) -> (r: Result<(), ParseError>)
    ensures
        *final(index) == *old(index),
        r == token_slot(old(tok_vec)@, *old(index) as int),
        r is Ok ==> final(tok_vec)@ == resolved_if(
            old(tok_vec)@,
            *old(index) as int,
            |t: Token| t is True || t is False,
        ),
        r is Err ==> final(tok_vec)@ == old(tok_vec)@,
{
    let i = *index;
    if i >= tok_vec.nodes.len() {
        return Err(ParseError::IndexOutOfRange);
    }
    match &tok_vec.nodes[i] {
        Any::Token(Token::True) => {
            tok_vec.nodes.set(i, Any::BooleanExpression(BooleanExpression::BooleanLiteral(true)));
            Ok(())
        },
        Any::Token(Token::False) => {
            tok_vec.nodes.set(i, Any::BooleanExpression(BooleanExpression::BooleanLiteral(false)));
            Ok(())
        },
        Any::Token(_) => Ok(()),
        _ => Err(ParseError::UnexpectedNodeKind),
    }
}

/// Turns an identifier token at `index` into a `Variable` leaf.
pub fn parse_var(tok_vec: &mut AnyVec, index: &mut usize) -> (r: Result<(), ParseError>)
    ensures
        *final(index) == *old(index),
        r == token_slot(old(tok_vec)@, *old(index) as int),
        r is Ok ==> final(tok_vec)@ == resolved_if(
            old(tok_vec)@,
            *old(index) as int,
            |t: Token| t is Identifier,
        ),
        r is Err ==> final(tok_vec)@ == old(tok_vec)@,
{
    let i = *index;
    if i >= tok_vec.nodes.len() {
        return Err(ParseError::IndexOutOfRange);
    }
    match &tok_vec.nodes[i] {
        Any::Token(Token::Identifier(_)) => {},
        Any::Token(_) => {
            return Ok(());
        },
        _ => {
            return Err(ParseError::UnexpectedNodeKind);
        },
    }
    let ghost s = tok_vec@;
    let node = tok_vec.nodes.remove(i);
    let leaf = match node {
        Any::Token(Token::Identifier(name)) => Any::ArithmeticExpression(
            ArithmeticExpression::Variable(name),
        ),
        other => other,
    };
    tok_vec.nodes.insert(i, leaf);
    assert(tok_vec@ =~= s.update(i as int, atomic_leaf(s[i as int])));
    Ok(())
}

/// Turns a `skip` token at `index` into the `Skip` statement.
pub fn parse_skip(tok_vec: &mut AnyVec, index: &mut usize) -> (r: Result<(), ParseError>)
    ensures
        *final(index) == *old(index),
        r == token_slot(old(tok_vec)@, *old(index) as int),
        r is Ok ==> final(tok_vec)@ == resolved_if(
            old(tok_vec)@,
            *old(index) as int,
            |t: Token| t is Skip,
        ),
        r is Err ==> final(tok_vec)@ == old(tok_vec)@,
{
    let i = *index;
    if i >= tok_vec.nodes.len() {
        return Err(ParseError::IndexOutOfRange);
    }
    match &tok_vec.nodes[i] {
        Any::Token(Token::Skip) => {
            tok_vec.nodes.set(i, Any::Statement(Statement::Skip));
            Ok(())
        },
        Any::Token(_) => Ok(()),
        _ => Err(ParseError::UnexpectedNodeKind),
    }
}

/// Resolves the slot at `index` to its leaf node, if it holds a leaf token.
fn resolve_slot(tok_vec: &mut AnyVec, index: &mut usize)
    requires
        *old(index) < old(tok_vec)@.len(),
    ensures
        *final(index) == *old(index),
        final(tok_vec)@ == old(tok_vec)@.update(
            *old(index) as int,
            atomic_leaf(old(tok_vec)@[*old(index) as int]),
        ),
{
    let ghost s = tok_vec@;
    let i = *index;
    let kind: u8 = match &tok_vec.nodes[i] {
        Any::Token(Token::Numeral(_)) => 1,
        Any::Token(Token::Identifier(_)) => 2,
        Any::Token(Token::Skip) => 3,
        Any::Token(Token::True) => 4,
        Any::Token(Token::False) => 4,
        _ => 0,
    };
    let resolved = if kind == 1 {
        parse_lit(tok_vec, index)
    } else if kind == 2 {
        parse_var(tok_vec, index)
    } else if kind == 3 {
        parse_skip(tok_vec, index)
    } else if kind == 4 {
        parse_bool_value(tok_vec, index)
    } else {
        Ok(())
    };
    assert(resolved is Ok);
    assert(tok_vec@ =~= s.update(i as int, atomic_leaf(s[i as int])));
}

/// The atomic resolver from `index` to the end: every leaf token becomes its leaf node.
pub fn parse_atomic(tok_vec: &mut AnyVec, index: &mut usize)
    ensures
        final(tok_vec)@.len() == old(tok_vec)@.len(),
        forall|k: int|
            0 <= k < old(tok_vec)@.len() ==> #[trigger] final(tok_vec)@[k] == if k
                >= *old(index) {
                atomic_leaf(old(tok_vec)@[k])
            } else {
                old(tok_vec)@[k]
            },
        *final(index) == if *old(index) < old(tok_vec)@.len() {
            old(tok_vec)@.len()
        } else {
            *old(index) as nat
        },
{
    let ghost s = tok_vec@;
    let ghost i0 = *index;
    while *index < tok_vec.nodes.len()
        invariant
            tok_vec@.len() == s.len(),
            i0 < s.len() ==> i0 <= *index <= s.len(),
            i0 >= s.len() ==> *index == i0,
            forall|k: int|
                0 <= k < s.len() ==> #[trigger] tok_vec@[k] == if i0 <= k < *index {
                    atomic_leaf(s[k])
                } else {
                    s[k]
                },
        decreases s.len() - *index,
    {
        let i = *index;
        resolve_slot(tok_vec, index);
        *index = i + 1;
    }
}

fn is_open_paren(a: &Any) -> (r: bool)
    ensures
        r == (*a == Any::Token(Token::OpenParen)),
{
    match a {
        Any::Token(Token::OpenParen) => true,
        _ => false,
    }
}

fn is_close_paren(a: &Any) -> (r: bool)
    ensures
        r == (*a == Any::Token(Token::CloseParen)),
{
    match a {
        Any::Token(Token::CloseParen) => true,
        _ => false,
    }
}

fn is_minus(a: &Any) -> (r: bool)
    ensures
        r == (*a == Any::Token(Token::Minus)),
{
    match a {
        Any::Token(Token::Minus) => true,
        _ => false,
    }
}

/// Whether a negation sign right after `prev` is unary.
fn opens_operand(prev: &Any) -> (r: bool)
    ensures
        r == (*prev is Token && *prev != Any::Token(Token::CloseParen)),
{
    match prev {
        Any::Token(Token::CloseParen) => false,
        Any::Token(_) => true,
        _ => false,
    }
}

fn fits_category(a: &Any, cat: Category) -> (r: bool)
    ensures
        r == fits(*a, cat),
{
    match a {
        Any::ArithmeticExpression(_) => match cat {
            Category::Boolean => false,
            _ => true,
        },
        Any::BooleanExpression(_) => match cat {
            Category::Arithmetic => false,
            _ => true,
        },
        _ => false,
    }
}

fn binds_in(a: &Any, stage: Stage) -> (r: bool)
    ensures
        r == (*a is Token && binds_at(a->Token_0, stage)),
{
    match a {
        Any::Token(t) => match stage {
            Stage::Arithmetic => match t {
                Token::Plus | Token::Minus | Token::Multiply => true,
                _ => false,
            },
            Stage::Boolean => match t {
                Token::And | Token::Or | Token::Equal | Token::Less | Token::LessEqual
                | Token::Greater | Token::GreatEqual => true,
                _ => false,
            },
        },
        _ => false,
    }
}

fn is_comparison_token(a: &Any) -> (r: bool)
    ensures
        r == is_comparison(*a),
{
    match a {
        Any::Token(Token::Equal) | Any::Token(Token::Less) | Any::Token(Token::LessEqual)
        | Any::Token(Token::Greater) | Any::Token(Token::GreatEqual) => true,
        _ => false,
    }
}

fn operand_category_of(a: &Any) -> (r: Category)
    requires
        *a is Token,
    ensures
        r == operand_category(a->Token_0),
{
    match a {
        Any::Token(Token::And) | Any::Token(Token::Or) => Category::Boolean,
        _ => Category::Arithmetic,
    }
}

fn into_arithmetic(a: Any) -> (e: ArithmeticExpression)
    requires
        a is ArithmeticExpression,
    ensures
        e == a->ArithmeticExpression_0,
{
    match a {
        Any::ArithmeticExpression(e) => e,
        _ => ArithmeticExpression::Numeral(0),
    }
}

fn into_boolean(a: Any) -> (e: BooleanExpression)
    requires
        a is BooleanExpression,
    ensures
        e == a->BooleanExpression_0,
{
    match a {
        Any::BooleanExpression(e) => e,
        _ => BooleanExpression::BooleanLiteral(false),
    }
}

/// Builds the node of operator `op` from operands of its category.
fn combine_nodes(op: Any, l: Any, r: Any) -> (n: Any)
    requires
        op is Token,
        fits(l, operand_category(op->Token_0)),
        fits(r, operand_category(op->Token_0)),
    ensures
        n == combine(op->Token_0, l, r),
{
    match op {
        Any::Token(Token::Plus) => Any::ArithmeticExpression(
            ArithmeticExpression::Add(Box::new(into_arithmetic(l)), Box::new(into_arithmetic(r))),
        ),
        Any::Token(Token::Minus) => Any::ArithmeticExpression(
            ArithmeticExpression::Minus(Box::new(into_arithmetic(l)), Box::new(into_arithmetic(r))),
        ),
        Any::Token(Token::Multiply) => Any::ArithmeticExpression(
            ArithmeticExpression::Product(
                Box::new(into_arithmetic(l)),
                Box::new(into_arithmetic(r)),
            ),
        ),
        Any::Token(Token::And) => Any::BooleanExpression(
            BooleanExpression::And(Box::new(into_boolean(l)), Box::new(into_boolean(r))),
        ),
        Any::Token(Token::Or) => Any::BooleanExpression(
            BooleanExpression::Or(Box::new(into_boolean(l)), Box::new(into_boolean(r))),
        ),
        Any::Token(Token::Equal) => Any::BooleanExpression(
            BooleanExpression::Equal(Box::new(into_arithmetic(l)), Box::new(into_arithmetic(r))),
        ),
        Any::Token(Token::Less) => Any::BooleanExpression(
            BooleanExpression::Less(Box::new(into_arithmetic(l)), Box::new(into_arithmetic(r))),
        ),
        Any::Token(Token::LessEqual) => Any::BooleanExpression(
            BooleanExpression::LessEqual(
                Box::new(into_arithmetic(l)),
                Box::new(into_arithmetic(r)),
            ),
        ),
        Any::Token(Token::Greater) => Any::BooleanExpression(
            BooleanExpression::Great(Box::new(into_arithmetic(l)), Box::new(into_arithmetic(r))),
        ),
        Any::Token(Token::GreatEqual) => Any::BooleanExpression(
            BooleanExpression::GreatEqual(
                Box::new(into_arithmetic(l)),
                Box::new(into_arithmetic(r)),
            ),
        ),
        _ => l,
    }
}

/// Replaces the negation sign at `i` and the arithmetic node after it by one `Uminus`.
fn bind_negation_at(v: &mut AnyVec, i: usize) -> (r: Result<(), ParseError>)
    requires
        i < old(v)@.len(),
    ensures
        agrees(r, final(v)@, bind_negation(old(v)@, i as nat)),
        r is Ok ==> final(v)@.len() + 1 == old(v)@.len(),
{
    let n = v.nodes.len();
    if i + 1 >= n {
        return Err(ParseError::TypeMismatch);
    }
    let ghost s = v@;
    let operand = v.nodes.remove(i + 1);
    match operand {
        Any::ArithmeticExpression(e) => {
            let neg = Any::ArithmeticExpression(ArithmeticExpression::Uminus(Box::new(e)));
            v.nodes.set(i, neg);
            assert(v@ =~= splice(s, i as int, i + 2, neg));
            Ok(())
        },
        _ => Err(ParseError::TypeMismatch),
    }
}

/// Replaces the operator at `i` and its two neighbours by the node it builds.
fn bind_operator_at(v: &mut AnyVec, i: usize) -> (r: Result<(), ParseError>)
    requires
        i < old(v)@.len(),
        old(v)@[i as int] is Token,
    ensures
        agrees(r, final(v)@, bind_operator(old(v)@, i as nat)),
        r is Ok ==> final(v)@.len() + 2 == old(v)@.len() && i <= final(v)@.len(),
{
    let n = v.nodes.len();
    if i == 0 || i + 1 >= n {
        return Err(ParseError::TypeMismatch);
    }
    let cat = operand_category_of(&v.nodes[i]);
    if !fits_category(&v.nodes[i - 1], cat) || !fits_category(&v.nodes[i + 1], cat) {
        return Err(ParseError::TypeMismatch);
    }
    let ghost s = v@;
    let right = v.nodes.remove(i + 1);
    let op = v.nodes.remove(i);
    let left = v.nodes.remove(i - 1);
    let node = combine_nodes(op, left, right);
    v.nodes.insert(i - 1, node);
    assert(v@ =~= splice(s, i - 1, i + 2, node));
    Ok(())
}

/// Position of the closer matching an opener just before `start`.
fn find_close(v: &AnyVec, start: usize) -> (r: Option<usize>)
    requires
        1 <= start <= v@.len(),
    ensures
        r is None ==> matching_close(v@, start as int, 1) is None,
        r is Some ==> matching_close(v@, start as int, 1) == Some(r->0 as int),
        r is Some ==> start <= r->0 < v@.len(),
{
    let n = v.nodes.len();
    let mut j = start;
    let mut depth: usize = 1;
    while j < n
        invariant
            start <= j <= n,
            n == v@.len(),
            1 <= start,
            1 <= depth <= j - start + 1,
            matching_close(v@, j as int, depth as nat) == matching_close(v@, start as int, 1),
        decreases n - j,
    {
        if is_close_paren(&v.nodes[j]) {
            if depth == 1 {
                return Some(j);
            }
            depth = depth - 1;
        } else if is_open_paren(&v.nodes[j]) {
            depth = depth + 1;
        }
        j = j + 1;
    }
    None
}

/// The subexpression extractor: the group opened at `index` is cut out, reduced
/// on its own to a node of category `cat`, and that node takes the group's place.
fn extract_group(v: &mut AnyVec, index: &mut usize, cat: Category) -> (r: Result<(), ParseError>)
    ensures
        agrees(r, final(v)@, after_group(old(v)@, *old(index) as nat, cat)),
        *final(index) == *old(index),
        r is Ok ==> *old(index) < final(v)@.len() < old(v)@.len(),
    decreases old(v)@.len(), 0nat, 0int,
{
    let o = *index;
    let n = v.nodes.len();
    if o >= n {
        return Err(ParseError::IndexOutOfRange);
    }
    if !is_open_paren(&v.nodes[o]) {
        return Err(ParseError::UnexpectedNodeKind);
    }
    let ghost s = v@;
    let c = match find_close(v, o + 1) {
        None => {
            return Err(ParseError::UnbalancedParentheses);
        },
        Some(c) => c,
    };
    let mut inner: Vec<Any> = Vec::new();
    let mut k: usize = o + 1;
    while k < c
        invariant
            o + 1 <= k <= c,
            c < s.len(),
            v@ == s.subrange(0, o + 1) + s.subrange(k as int, s.len() as int),
            inner@ == s.subrange(o + 1, k as int),
        decreases c - k,
    {
        let x = v.nodes.remove(o + 1);
        inner.push(x);
        assert(v@ =~= s.subrange(0, o + 1) + s.subrange(k + 1, s.len() as int));
        assert(inner@ =~= s.subrange(o + 1, k + 1));
        k = k + 1;
    }
    assert(v@ =~= s.subrange(0, o + 1) + s.subrange(c as int, s.len() as int));
    match reduce_nodes(AnyVec { nodes: inner }, cat) {
        Err(e) => Err(e),
        Ok(x) => {
            v.nodes.set(o, x);
            v.nodes.remove(o + 1);
            assert(v@ =~= splice(s, o as int, c + 1, x));
            Ok(())
        },
    }
}

/// Extracts the group opened at `index` and reduces it to an arithmetic expression.
pub fn parse_arithmetic_subexpression(tok_vec: &mut AnyVec, index: &mut usize) -> (r: Result<
    (),
    ParseError,
>)
    ensures
        agrees(r, final(tok_vec)@, after_group(old(tok_vec)@, *old(index) as nat, Category::Arithmetic)),
        *final(index) == *old(index),
        r is Ok ==> *old(index) < final(tok_vec)@.len() < old(tok_vec)@.len(),
    decreases old(tok_vec)@.len(), 0nat, 1int,
{
    extract_group(tok_vec, index, Category::Arithmetic)
}

/// Extracts the group opened at `index` and reduces it to a boolean expression.
pub fn parse_bool_subexpression(tok_vec: &mut AnyVec, index: &mut usize) -> (r: Result<
    (),
    ParseError,
>)
    ensures
        agrees(r, final(tok_vec)@, after_group(old(tok_vec)@, *old(index) as nat, Category::Boolean)),
        *final(index) == *old(index),
        r is Ok ==> *old(index) < final(tok_vec)@.len() < old(tok_vec)@.len(),
    decreases old(tok_vec)@.len(), 0nat, 1int,
{
    extract_group(tok_vec, index, Category::Boolean)
}

/// Binds the negation sign at `i` to the operand after it.
fn negate_at(v: &mut AnyVec, i: usize) -> (r: Result<(), ParseError>)
    requires
        i < old(v)@.len(),
        old(v)@[i as int] == Any::Token(Token::Minus),
    ensures
        agrees(r, final(v)@, after_negation(old(v)@, i as nat)),
        r is Ok ==> i < final(v)@.len() < old(v)@.len(),
    decreases old(v)@.len(), 1nat, old(v)@.len() - i,
{
    let n = v.nodes.len();
    if i + 1 >= n {
        return Err(ParseError::MissingRightOperand);
    }
    if is_open_paren(&v.nodes[i + 1]) {
        let mut j = i + 1;
        match parse_arithmetic_subexpression(v, &mut j) {
            Err(e) => {
                return Err(e);
            },
            Ok(()) => {},
        }
    } else if is_minus(&v.nodes[i + 1]) {
        match negate_at(v, i + 1) {
            Err(e) => {
                return Err(e);
            },
            Ok(()) => {},
        }
    } else {
        let mut j = i + 1;
        resolve_slot(v, &mut j);
    }
    bind_negation_at(v, i)
}

/// The unary resolver from `index` to the end.
pub fn parse_arithmetic_unop(tok_vec: &mut AnyVec, index: &mut usize) -> (r: Result<(), ParseError>)
    ensures
        agrees(r, final(tok_vec)@, after_unary(old(tok_vec)@, *old(index) as nat)),
        r is Ok ==> final(tok_vec)@.len() <= old(tok_vec)@.len(),
        r is Ok ==> *final(index) >= final(tok_vec)@.len(),
    decreases old(tok_vec)@.len(), 2nat, 1int,
{
    let ghost s0 = tok_vec@;
    let ghost i0 = *index;
    while *index < tok_vec.nodes.len()
        invariant
            after_unary(tok_vec@, *index as nat) == after_unary(s0, i0 as nat),
            tok_vec@.len() <= s0.len(),
            s0 == old(tok_vec)@,
            i0 == *old(index),
        decreases tok_vec@.len() - *index,
    {
        let i = *index;
        if is_minus(&tok_vec.nodes[i]) && (i == 0 || opens_operand(&tok_vec.nodes[i - 1])) {
            match negate_at(tok_vec, i) {
                Err(e) => {
                    return Err(e);
                },
                Ok(()) => {},
            }
        }
        *index = i + 1;
    }
    Ok(())
}

/// Binds the operator at `i` to its left neighbour and its right neighbour or group.
fn binary_at(v: &mut AnyVec, i: usize) -> (r: Result<(), ParseError>)
    requires
        i < old(v)@.len(),
        old(v)@[i as int] is Token,
    ensures
        agrees(r, final(v)@, after_binary(old(v)@, i as nat)),
        r is Ok ==> i <= final(v)@.len() < old(v)@.len(),
        r is Ok ==> forall|k: int| 0 <= k < i - 1 ==> #[trigger] final(v)@[k] == old(v)@[k],
    decreases old(v)@.len(), 1nat, old(v)@.len() - i,
{
    if i == 0 {
        return Err(ParseError::MissingLeftOperand);
    }
    let cat = operand_category_of(&v.nodes[i]);
    if !fits_category(&v.nodes[i - 1], cat) {
        return Err(ParseError::TypeMismatch);
    }
    let n = v.nodes.len();
    if i + 1 >= n {
        return Err(ParseError::MissingRightOperand);
    }
    if is_open_paren(&v.nodes[i + 1]) {
        let mut j = i + 1;
        let grouped = match cat {
            Category::Boolean => parse_bool_subexpression(v, &mut j),
            _ => parse_arithmetic_subexpression(v, &mut j),
        };
        match grouped {
            Err(e) => {
                return Err(e);
            },
            Ok(()) => {},
        }
    } else if cat == Category::Boolean && i + 2 < n && fits_category(
        &v.nodes[i + 1],
        Category::Arithmetic,
    ) && is_comparison_token(&v.nodes[i + 2]) {
        match binary_at(v, i + 2) {
            Err(e) => {
                return Err(e);
            },
            Ok(()) => {},
        }
    }
    bind_operator_at(v, i)
}

/// An operator pass of `stage` from `index` to the end.
fn reduce_operators(v: &mut AnyVec, index: &mut usize, stage: Stage) -> (r: Result<(), ParseError>)
    ensures
        agrees(r, final(v)@, after_operators(old(v)@, *old(index) as nat, stage)),
        r is Ok ==> final(v)@.len() <= old(v)@.len(),
        r is Ok ==> *final(index) >= final(v)@.len(),
    decreases old(v)@.len(), 2nat, 0int,
{
    let ghost s0 = v@;
    let ghost i0 = *index;
    while *index < v.nodes.len()
        invariant
            after_operators(v@, *index as nat, stage) == after_operators(s0, i0 as nat, stage),
            v@.len() <= s0.len(),
            s0 == old(v)@,
            i0 == *old(index),
        decreases v@.len() - *index,
    {
        let i = *index;
        if stage == Stage::Arithmetic && is_open_paren(&v.nodes[i]) {
            match extract_group(v, index, Category::Expression) {
                Err(e) => {
                    return Err(e);
                },
                Ok(()) => {},
            }
            *index = i + 1;
        } else if binds_in(&v.nodes[i], stage) {
            match binary_at(v, i) {
                Err(e) => {
                    return Err(e);
                },
                Ok(()) => {},
            }
        } else {
            *index = i + 1;
        }
    }
    Ok(())
}

/// The arithmetic reducer from `index` to the end: the unary resolver, then
/// `+`, `-`, `*` in scan order, both from `index`.
pub fn parse_arithmetic_expression(tok_vec: &mut AnyVec, index: &mut usize) -> (r: Result<
    (),
    ParseError,
>)
    ensures
        agrees(r, final(tok_vec)@, after_arithmetic(old(tok_vec)@, *old(index) as nat)),
        r is Ok ==> final(tok_vec)@.len() <= old(tok_vec)@.len(),
        r is Ok ==> *final(index) >= final(tok_vec)@.len(),
    decreases old(tok_vec)@.len(), 3nat, 0int,
{
    let start = *index;
    match parse_arithmetic_unop(tok_vec, index) {
        Err(e) => {
            return Err(e);
        },
        Ok(()) => {},
    }
    *index = start;
    reduce_operators(tok_vec, index, Stage::Arithmetic)
}

/// The boolean reducer from `index` to the end: comparisons and connectives in scan order.
pub fn parse_bool_expression(tok_vec: &mut AnyVec, index: &mut usize) -> (r: Result<(), ParseError>)
    ensures
        agrees(r, final(tok_vec)@, after_operators(old(tok_vec)@, *old(index) as nat, Stage::Boolean)),
        r is Ok ==> final(tok_vec)@.len() <= old(tok_vec)@.len(),
        r is Ok ==> *final(index) >= final(tok_vec)@.len(),
    decreases old(tok_vec)@.len(), 2nat, 1int,
{
    reduce_operators(tok_vec, index, Stage::Boolean)
}

/// The parse orchestrator: atomic, arithmetic (with the unary resolver), boolean,
/// each from the start.
fn run_passes(v: &mut AnyVec) -> (r: Result<(), ParseError>)
    ensures
        agrees(r, final(v)@, after_passes(old(v)@)),
        r is Ok ==> final(v)@.len() <= old(v)@.len(),
    decreases old(v)@.len(), 4nat, 0int,
{
    let ghost s = v@;
    let mut index: usize = 0;
    parse_atomic(v, &mut index);
    assert(v@ =~= atomic_pass(s));
    index = 0;
    match parse_arithmetic_expression(v, &mut index) {
        Err(e) => {
            return Err(e);
        },
        Ok(()) => {},
    }
    index = 0;
    parse_bool_expression(v, &mut index)
}

/// Runs every pass over `v` and demands a single node of category `cat`.
fn reduce_nodes(v: AnyVec, cat: Category) -> (r: Result<Any, ParseError>)
    ensures
        r == reduction(v@, cat),
    decreases v@.len(), 5nat, 0int,
{
    let mut v = v;
    match run_passes(&mut v) {
        Err(e) => Err(e),
        Ok(()) => {
            if v.nodes.len() == 1 && fits_category(&v.nodes[0], cat) {
                Ok(v.nodes.remove(0))
            } else {
                Err(ParseError::MalformedSubexpression)
            }
        },
    }
}

/// Reduces a token sequence to one arithmetic expression.
pub fn reduce_arithmetic(tokens: Vec<Token>) -> (r: Result<ArithmeticExpression, ParseError>)
    ensures
        r == arithmetic_result(tokens@),
{
    match reduce_nodes(AnyVec::from_tokens(tokens), Category::Arithmetic) {
        Ok(Any::ArithmeticExpression(e)) => Ok(e),
        Ok(_) => Err(ParseError::MalformedSubexpression),
        Err(e) => Err(e),
    }
}

/// Reduces a token sequence to one boolean expression.
pub fn reduce_boolean(tokens: Vec<Token>) -> (r: Result<BooleanExpression, ParseError>)
    ensures
        r == boolean_result(tokens@),
{
    match reduce_nodes(AnyVec::from_tokens(tokens), Category::Boolean) {
        Ok(Any::BooleanExpression(e)) => Ok(e),
        Ok(_) => Err(ParseError::MalformedSubexpression),
        Err(e) => Err(e),
    }
}

/// Runs every pass over a program's tokens and hands back the reduced sequence.
pub fn parse(program: TokenVec) -> (r: Result<AnyVec, ParseError>)
    ensures
        match after_passes(token_nodes(program@)) {
            Ok(s) => r is Ok && r->Ok_0@ == s,
            Err(e) => r is Err && r->Err_0 == e,
        },
{
    let mut v = AnyVec::from_tokens(program.tokens);
    match run_passes(&mut v) {
        Ok(()) => Ok(v),
        Err(e) => Err(e),
    }
}

} // verus!
