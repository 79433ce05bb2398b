//! The parser: recursive descent for the structure, precedence climbing for
//! expressions. Every parse function is specified against a mathematical
//! parse function over the token sequence, so parsing is provably a function
//! of the token stream alone.

use vstd::prelude::*;
use crate::token::{Associativity, ParseError, Property, Token, TokenView, Tokens};
use crate::ast::{
    ArrayAccessNode, ArrayAccessNodeView, ArrayDeclareNode, ArrayDeclareNodeView,
    ArrayElementNode, ArrayElementNodeView, BinaryNode, BinaryNodeView, DeclareNode,
    DeclareNodeView, DeclareStatementNode, DeclareStatementNodeView, DirectDeclareNode,
    DirectDeclareNodeView, ExpressionNode, ExpressionNodeView, ExpressionStatementNode,
    ExpressionStatementNodeView, FunctionCallNode, FunctionCallNodeView, FunctionNode,
    FunctionNodeView, Node, NodeView, PointerDeclareNode, PointerDeclareNodeView, PrefixNode,
    PrefixNodeView, PrimaryNode, PrimaryNodeView, ReturnStatementNode, ReturnStatementNodeView,
    StatementNode, StatementNodeView, StatementsNode, StatementsNodeView, SuffixNode,
    SuffixNodeView, TopLevelDeclareNode, TopLevelDeclareNodeView, UnaryNode, UnaryNodeView,
    VariableDeclareNode, VariableDeclareNodeView,
};

verus! {

// ---------------------------------------------------------------------------
// Small helpers.
// ---------------------------------------------------------------------------

/// Whether a spelling is exactly the one character `c`.
pub open spec fn spec_is_char(s: Seq<char>, c: char) -> bool {
    s.len() == 1 && s[0] == c
}

/// Executable test that a spelling is exactly the one character `c`.
pub fn str_is_char(s: &String, c: char) -> (r: bool)
    ensures
        r == spec_is_char(s@, c),
{
    s.as_str().unicode_len() == 1 && s.as_str().get_char(0) == c
}

/// A decimal digit.
pub open spec fn spec_is_digit(c: char) -> bool {
    '0' <= c && c <= '9'
}

/// Every character of the spelling is a decimal digit.
pub open spec fn spec_all_digits(s: Seq<char>) -> bool {
    forall|i: int| 0 <= i < s.len() ==> spec_is_digit(#[trigger] s[i])
}

/// The integer a digit string denotes, most significant digit first.
pub open spec fn spec_digits_value(s: Seq<char>) -> int
    decreases s.len(),
{
    if s.len() == 0 {
        0
    } else {
        spec_digits_value(s.drop_last()) * 10 + (s.last() as int - '0' as int)
    }
}

/// What a numeric literal spelling denotes as a `u64`: its value when it is
/// a nonempty digit string whose value fits, nothing otherwise.
pub open spec fn spec_parse_u64(s: Seq<char>) -> Option<u64> {
    if s.len() > 0 && spec_all_digits(s) && spec_digits_value(s) <= u64::MAX {
        Some(spec_digits_value(s) as u64)
    } else {
        None
    }
}

/// A digit string's value is never negative.
proof fn lemma_digits_value_nonneg(s: Seq<char>)
    requires
        spec_all_digits(s),
    ensures
        spec_digits_value(s) >= 0,
    decreases s.len(),
{
    if s.len() > 0 {
        assert(spec_all_digits(s.drop_last()));
        lemma_digits_value_nonneg(s.drop_last());
    }
}

/// Extending a digit string multiplies its value by ten and adds a digit,
/// so the value of a prefix never exceeds the value of the whole string.
proof fn lemma_digits_value_prefix(s: Seq<char>, i: int)
    requires
        spec_all_digits(s),
        0 <= i <= s.len(),
    ensures
        spec_digits_value(s.take(i)) <= spec_digits_value(s),
    decreases s.len() - i,
{
    if i < s.len() {
        lemma_digits_value_prefix(s, i + 1);
        assert(s.take(i + 1).drop_last() =~= s.take(i));
        assert(spec_all_digits(s.take(i)));
        lemma_digits_value_nonneg(s.take(i));
        assert(spec_digits_value(s.take(i + 1)) == spec_digits_value(s.take(i)) * 10 + (s[i]
            as int - '0' as int));
    } else {
        assert(s.take(i) =~= s);
    }
}

/// What a primary node denotes as a number: the value of its numeric
/// literal token, nothing when it is not a numeric literal that fits.
pub open spec fn spec_primary_number(p: PrimaryNodeView) -> Option<u64> {
    match p.token {
        TokenView::Num(s) => spec_parse_u64(s),
        _ => None,
    }
}

// ---------------------------------------------------------------------------
// The mathematical parse functions. Each one takes the unconsumed token
// sequence and returns the parsed value together with the tokens it leaves,
// or the one parse error the implementation reports. The `len` guards only
// serve termination checking; the implementation proves they always hold.
// ---------------------------------------------------------------------------

pub open spec fn spec_parse_primary(t: Seq<TokenView>) -> Result<
    (PrimaryNodeView, Seq<TokenView>),
    ParseError,
> {
    if t.len() > 0 {
        match t[0] {
            TokenView::Num(s) => Ok(
                (PrimaryNodeView { token: TokenView::Num(s) }, t.drop_first()),
            ),
            TokenView::Ide(s) => Ok(
                (PrimaryNodeView { token: TokenView::Ide(s) }, t.drop_first()),
            ),
            _ => Err(ParseError::ExpectedPrimary),
        }
    } else {
        Err(ParseError::ExpectedPrimary)
    }
}

pub open spec fn spec_parse_indexers(t: Seq<TokenView>) -> Result<
    (Seq<ExpressionNodeView>, Seq<TokenView>),
    ParseError,
>
    decreases t.len(), 5int,
{
    if t.len() > 0 && t[0] is SquareS {
        match spec_parse_expression(t.drop_first()) {
            Ok((e, t2)) => {
                if t2.len() > 0 && t2[0] is SquareE {
                    let t3 = t2.drop_first();
                    if t3.len() < t.len() {
                        match spec_parse_indexers(t3) {
                            Ok((es, t4)) => Ok((seq![e] + es, t4)),
                            Err(err) => Err(err),
                        }
                    } else {
                        Err(ParseError::UnexpectedEnd)
                    }
                } else {
                    Err(ParseError::ExpectedSquareE)
                }
            },
            Err(err) => Err(err),
        }
    } else {
        Ok((Seq::empty(), t))
    }
}

pub open spec fn spec_parse_array_element(t: Seq<TokenView>) -> Result<
    (ArrayElementNodeView, Seq<TokenView>),
    ParseError,
>
    decreases t.len(), 1int,
{
    if t.len() > 0 {
        match t[0] {
            TokenView::Ide(id) => match spec_parse_indexers(t.drop_first()) {
                Ok((es, t2)) => Ok(
                    (ArrayElementNodeView { identifier: id, indexer_nodes: es }, t2),
                ),
                Err(err) => Err(err),
            },
            _ => Err(ParseError::ExpectedIdentifier),
        }
    } else {
        Err(ParseError::ExpectedIdentifier)
    }
}

pub open spec fn spec_parse_args(t: Seq<TokenView>) -> Result<
    (Seq<ExpressionNodeView>, Seq<TokenView>),
    ParseError,
>
    decreases t.len(), 5int,
{
    if t.len() > 0 && !(t[0] is ParenE) {
        match spec_parse_expression(t) {
            Ok((e, t1)) => {
                let t2 = if t1.len() > 0 && t1[0] is Comma {
                    t1.drop_first()
                } else {
                    t1
                };
                if t2.len() < t.len() {
                    match spec_parse_args(t2) {
                        Ok((es, t3)) => Ok((seq![e] + es, t3)),
                        Err(err) => Err(err),
                    }
                } else {
                    Err(ParseError::UnexpectedEnd)
                }
            },
            Err(err) => Err(err),
        }
    } else {
        Ok((Seq::empty(), t))
    }
}

pub open spec fn spec_parse_function_call(t: Seq<TokenView>) -> Result<
    (FunctionCallNodeView, Seq<TokenView>),
    ParseError,
>
    decreases t.len(), 1int,
{
    if t.len() > 0 {
        match t[0] {
            TokenView::Ide(id) => {
                let t1 = t.drop_first();
                if t1.len() > 0 && t1[0] is ParenS {
                    match spec_parse_args(t1.drop_first()) {
                        Ok((es, t3)) => {
                            if t3.len() > 0 && t3[0] is ParenE {
                                Ok(
                                    (
                                        FunctionCallNodeView { identifier: id, parameters: es },
                                        t3.drop_first(),
                                    ),
                                )
                            } else {
                                Err(ParseError::ExpectedParenE)
                            }
                        },
                        Err(err) => Err(err),
                    }
                } else {
                    Err(ParseError::ExpectedParenS)
                }
            },
            _ => Err(ParseError::ExpectedIdentifier),
        }
    } else {
        Err(ParseError::ExpectedIdentifier)
    }
}

pub open spec fn spec_parse_with_prefix(t: Seq<TokenView>) -> Result<
    (UnaryNodeView, Seq<TokenView>),
    ParseError,
>
    decreases t.len(), 1int,
{
    if t.len() > 0 {
        match t[0] {
            TokenView::Op(op, prop) => {
                if spec_is_char(op, '*') || spec_is_char(op, '&') {
                    match spec_parse_primary(t.drop_first()) {
                        Ok((p, t2)) => Ok(
                            (UnaryNodeView::Prefix(PrefixNodeView { op: op, val: p }), t2),
                        ),
                        Err(err) => Err(err),
                    }
                } else {
                    Err(ParseError::ExpectedOperator)
                }
            },
            _ => Err(ParseError::ExpectedOperator),
        }
    } else {
        Err(ParseError::ExpectedOperator)
    }
}

pub open spec fn spec_parse_with_suffix(t: Seq<TokenView>) -> Result<
    (UnaryNodeView, Seq<TokenView>),
    ParseError,
>
    decreases t.len(), 2int,
{
    if t.len() > 1 {
        match t[1] {
            TokenView::SquareS => match spec_parse_array_element(t) {
                Ok((ae, t1)) => Ok(
                    (
                        UnaryNodeView::Suffix(
                            SuffixNodeView::Array(ArrayAccessNodeView { array_element: ae }),
                        ),
                        t1,
                    ),
                ),
                Err(err) => Err(err),
            },
            TokenView::ParenS => match spec_parse_function_call(t) {
                Ok((fc, t1)) => Ok(
                    (UnaryNodeView::Suffix(SuffixNodeView::FunctionCall(fc)), t1),
                ),
                Err(err) => Err(err),
            },
            _ => match spec_parse_primary(t) {
                Ok((p, t1)) => Ok((UnaryNodeView::Primary(p), t1)),
                Err(err) => Err(err),
            },
        }
    } else {
        match spec_parse_primary(t) {
            Ok((p, t1)) => Ok((UnaryNodeView::Primary(p), t1)),
            Err(err) => Err(err),
        }
    }
}

pub open spec fn spec_parse_unary(t: Seq<TokenView>) -> Result<
    (UnaryNodeView, Seq<TokenView>),
    ParseError,
>
    decreases t.len(), 3int,
{
    if t.len() > 0 {
        match t[0] {
            TokenView::Op(op, _) => {
                if spec_is_char(op, '*') || spec_is_char(op, '&') {
                    spec_parse_with_prefix(t)
                } else {
                    spec_parse_with_suffix(t)
                }
            },
            _ => spec_parse_with_suffix(t),
        }
    } else {
        spec_parse_with_suffix(t)
    }
}

pub open spec fn spec_parse_expression(t: Seq<TokenView>) -> Result<
    (ExpressionNodeView, Seq<TokenView>),
    ParseError,
>
    decreases t.len(), 4int,
{
    match spec_parse_unary(t) {
        Ok((u, t1)) => {
            if t1.len() < t.len() {
                spec_parse_binary_rest(t1, ExpressionNodeView::Unary(u), 0)
            } else {
                Err(ParseError::UnexpectedEnd)
            }
        },
        Err(err) => Err(err),
    }
}

/// Whether the climbing rule lets parsing continue behind `root` when the
/// next operator has property `next`: a right associative operator keeps
/// climbing on equal precedence, a left associative one does not.
pub open spec fn spec_climb_continue(root: Property, next: Property) -> bool {
    match root.associativity {
        Associativity::Right => next.precedence >= root.precedence,
        Associativity::Left => next.precedence > root.precedence,
    }
}

/// Whether `spec_parse_binary_rest` consumes at least one token: it does
/// exactly when the next token is an operator at or above the threshold.
pub open spec fn spec_binary_takes_op(t: Seq<TokenView>, min_precedence: u32) -> bool {
    t.len() > 0 && match t[0] {
        TokenView::Op(_, prop) => prop.precedence >= min_precedence,
        _ => false,
    }
}

pub open spec fn spec_parse_binary_rest(
    t: Seq<TokenView>,
    lhs: ExpressionNodeView,
    min_precedence: u32,
) -> Result<(ExpressionNodeView, Seq<TokenView>), ParseError>
    decreases t.len(), 1int,
{
    if t.len() > 0 {
        match t[0] {
            TokenView::Op(op, prop) => {
                if prop.precedence >= min_precedence {
                    match spec_parse_unary(t.drop_first()) {
                        Ok((u, t2)) => {
                            if t2.len() < t.len() {
                                match spec_parse_climb(t2, ExpressionNodeView::Unary(u), prop) {
                                    Ok((rhs, t3)) => {
                                        if t3.len() < t.len() {
                                            spec_parse_binary_rest(
                                                t3,
                                                ExpressionNodeView::Binary(
                                                    BinaryNodeView {
                                                        op: TokenView::Op(op, prop),
                                                        lhs: Box::new(lhs),
                                                        rhs: Box::new(rhs),
                                                    },
                                                ),
                                                min_precedence,
                                            )
                                        } else {
                                            Err(ParseError::UnexpectedEnd)
                                        }
                                    },
                                    Err(err) => Err(err),
                                }
                            } else {
                                Err(ParseError::UnexpectedEnd)
                            }
                        },
                        Err(err) => Err(err),
                    }
                } else {
                    Ok((lhs, t))
                }
            },
            _ => Ok((lhs, t)),
        }
    } else {
        Ok((lhs, t))
    }
}

pub open spec fn spec_parse_climb(
    t: Seq<TokenView>,
    rhs: ExpressionNodeView,
    root: Property,
) -> Result<(ExpressionNodeView, Seq<TokenView>), ParseError>
    decreases t.len(), 2int,
{
    if t.len() > 0 {
        match t[0] {
            TokenView::Op(_, prop2) => {
                if spec_climb_continue(root, prop2) {
                    match spec_parse_binary_rest(t, rhs, prop2.precedence) {
                        Ok((rhs2, t2)) => {
                            if t2.len() < t.len() {
                                spec_parse_climb(t2, rhs2, root)
                            } else {
                                Err(ParseError::UnexpectedEnd)
                            }
                        },
                        Err(err) => Err(err),
                    }
                } else {
                    Ok((rhs, t))
                }
            },
            _ => Ok((rhs, t)),
        }
    } else {
        Ok((rhs, t))
    }
}

pub open spec fn spec_parse_dims(t: Seq<TokenView>) -> Result<
    (Seq<u32>, Seq<TokenView>),
    ParseError,
>
    decreases t.len(), 5int,
{
    if t.len() > 0 && t[0] is SquareS {
        match spec_parse_expression(t.drop_first()) {
            Ok((e, t2)) => {
                match e {
                    ExpressionNodeView::Unary(UnaryNodeView::Primary(p)) => {
                        match p.token {
                            TokenView::Num(s) => match spec_parse_u64(s) {
                                Some(v) => {
                                    if t2.len() > 0 && t2[0] is SquareE {
                                        let t3 = t2.drop_first();
                                        if t3.len() < t.len() {
                                            match spec_parse_dims(t3) {
                                                Ok((ds, t4)) => Ok(
                                                    (seq![(v % 0x100000000u64) as u32] + ds, t4),
                                                ),
                                                Err(err) => Err(err),
                                            }
                                        } else {
                                            Err(ParseError::UnexpectedEnd)
                                        }
                                    } else {
                                        Err(ParseError::ExpectedSquareE)
                                    }
                                },
                                None => Err(ParseError::NumberTooLarge),
                            },
                            _ => Err(ParseError::ArraySizeNotLiteral),
                        }
                    },
                    _ => Err(ParseError::ArraySizeNotLiteral),
                }
            },
            Err(err) => Err(err),
        }
    } else {
        Ok((Seq::empty(), t))
    }
}

pub open spec fn spec_parse_array_declare(t: Seq<TokenView>) -> Result<
    (ArrayDeclareNodeView, Seq<TokenView>),
    ParseError,
>
    decreases t.len(), 5int,
{
    if t.len() > 0 && t[0] is Type {
        let t1 = t.drop_first();
        if t1.len() > 0 {
            match t1[0] {
                TokenView::Ide(id) => match spec_parse_dims(t1.drop_first()) {
                    Ok((ds, t2)) => Ok(
                        (ArrayDeclareNodeView { identifier: id, init_sizes: ds }, t2),
                    ),
                    Err(err) => Err(err),
                },
                _ => Err(ParseError::ExpectedIdentifier),
            }
        } else {
            Err(ParseError::ExpectedIdentifier)
        }
    } else {
        Err(ParseError::ExpectedType)
    }
}

pub open spec fn spec_parse_variable_declare(t: Seq<TokenView>) -> Result<
    (VariableDeclareNodeView, Seq<TokenView>),
    ParseError,
>
    decreases t.len(), 5int,
{
    if t.len() > 0 && t[0] is Type {
        let t1 = t.drop_first();
        if t1.len() > 0 {
            match t1[0] {
                TokenView::Ide(id) => {
                    if t1.len() > 1 {
                        match t1[1] {
                            TokenView::Op(op, _) => {
                                if spec_is_char(op, '=') {
                                    match spec_parse_expression(t1) {
                                        Ok((e, t2)) => Ok(
                                            (
                                                VariableDeclareNodeView {
                                                    identifier: id,
                                                    init_expression: Some(e),
                                                },
                                                t2,
                                            ),
                                        ),
                                        Err(err) => Err(err),
                                    }
                                } else {
                                    Err(ParseError::ExpectedDeclaration)
                                }
                            },
                            _ => Ok(
                                (
                                    VariableDeclareNodeView {
                                        identifier: id,
                                        init_expression: None,
                                    },
                                    t1.drop_first(),
                                ),
                            ),
                        }
                    } else {
                        Err(ParseError::UnexpectedEnd)
                    }
                },
                _ => Err(ParseError::ExpectedIdentifier),
            }
        } else {
            Err(ParseError::ExpectedIdentifier)
        }
    } else {
        Err(ParseError::ExpectedType)
    }
}

pub open spec fn spec_parse_direct_declare(t: Seq<TokenView>) -> Result<
    (DirectDeclareNodeView, Seq<TokenView>),
    ParseError,
>
    decreases t.len(), 6int,
{
    if t.len() > 2 {
        match t[2] {
            TokenView::SquareS => match spec_parse_array_declare(t) {
                Ok((a, t1)) => Ok((DirectDeclareNodeView::Array(a), t1)),
                Err(err) => Err(err),
            },
            _ => match spec_parse_variable_declare(t) {
                Ok((v, t1)) => Ok((DirectDeclareNodeView::Variable(v), t1)),
                Err(err) => Err(err),
            },
        }
    } else {
        Err(ParseError::UnexpectedEnd)
    }
}

pub open spec fn spec_parse_pointer_declare(t: Seq<TokenView>) -> Result<
    (PointerDeclareNodeView, Seq<TokenView>),
    ParseError,
>
    decreases t.len(), 6int,
{
    if t.len() > 0 && t[0] is Type {
        let t1 = t.drop_first();
        let t2 = if t1.len() > 0 {
            t1.drop_first()
        } else {
            t1
        };
        if t2.len() > 0 {
            match t2[0] {
                TokenView::Ide(id) => Ok(
                    (PointerDeclareNodeView { identifier: id }, t2.drop_first()),
                ),
                _ => Err(ParseError::ExpectedIdentifier),
            }
        } else {
            Err(ParseError::ExpectedIdentifier)
        }
    } else {
        Err(ParseError::ExpectedType)
    }
}

pub open spec fn spec_parse_declare(t: Seq<TokenView>) -> Result<
    (DeclareNodeView, Seq<TokenView>),
    ParseError,
>
    decreases t.len(), 7int,
{
    if t.len() > 1 {
        match t[1] {
            TokenView::Ide(_) => match spec_parse_direct_declare(t) {
                Ok((d, t1)) => Ok((DeclareNodeView::Direct(d), t1)),
                Err(err) => Err(err),
            },
            TokenView::Op(op, _) => {
                if spec_is_char(op, '*') {
                    match spec_parse_pointer_declare(t) {
                        Ok((p, t1)) => Ok((DeclareNodeView::Pointer(p), t1)),
                        Err(err) => Err(err),
                    }
                } else {
                    Err(ParseError::ExpectedDeclaration)
                }
            },
            _ => Err(ParseError::ExpectedDeclaration),
        }
    } else {
        Err(ParseError::UnexpectedEnd)
    }
}

pub open spec fn spec_parse_declare_statement(t: Seq<TokenView>) -> Result<
    (DeclareStatementNodeView, Seq<TokenView>),
    ParseError,
>
    decreases t.len(), 8int,
{
    match spec_parse_declare(t) {
        Ok((d, t1)) => {
            if t1.len() > 0 && t1[0] is Semi {
                Ok((DeclareStatementNodeView { declare: d }, t1.drop_first()))
            } else {
                Err(ParseError::ExpectedSemi)
            }
        },
        Err(err) => Err(err),
    }
}

pub open spec fn spec_parse_expression_statement(t: Seq<TokenView>) -> Result<
    (ExpressionStatementNodeView, Seq<TokenView>),
    ParseError,
>
    decreases t.len(), 8int,
{
    match spec_parse_expression(t) {
        Ok((e, t1)) => {
            if t1.len() > 0 && t1[0] is Semi {
                Ok((ExpressionStatementNodeView { expression: e }, t1.drop_first()))
            } else {
                Err(ParseError::ExpectedSemi)
            }
        },
        Err(err) => Err(err),
    }
}

pub open spec fn spec_parse_return_statement(t: Seq<TokenView>) -> Result<
    (ReturnStatementNodeView, Seq<TokenView>),
    ParseError,
>
    decreases t.len(), 8int,
{
    if t.len() > 0 && t[0] is Return {
        match spec_parse_expression(t.drop_first()) {
            Ok((e, t1)) => {
                if t1.len() > 0 && t1[0] is Semi {
                    Ok((ReturnStatementNodeView { expression: e }, t1.drop_first()))
                } else {
                    Err(ParseError::ExpectedSemi)
                }
            },
            Err(err) => Err(err),
        }
    } else {
        Err(ParseError::ExpectedReturn)
    }
}

pub open spec fn spec_parse_statement(t: Seq<TokenView>) -> Result<
    (StatementNodeView, Seq<TokenView>),
    ParseError,
>
    decreases t.len(), 9int,
{
    if t.len() > 0 {
        match t[0] {
            TokenView::Return => match spec_parse_return_statement(t) {
                Ok((s, t1)) => Ok((StatementNodeView::Return(s), t1)),
                Err(err) => Err(err),
            },
            TokenView::Type(_) => match spec_parse_declare_statement(t) {
                Ok((s, t1)) => Ok((StatementNodeView::Declare(s), t1)),
                Err(err) => Err(err),
            },
            _ => match spec_parse_expression_statement(t) {
                Ok((s, t1)) => Ok((StatementNodeView::Expression(s), t1)),
                Err(err) => Err(err),
            },
        }
    } else {
        Err(ParseError::UnexpectedEnd)
    }
}

pub open spec fn spec_parse_statement_list(t: Seq<TokenView>) -> Result<
    (Seq<StatementNodeView>, Seq<TokenView>),
    ParseError,
>
    decreases t.len(), 10int,
{
    if t.len() > 0 && !(t[0] is BlockE) {
        match spec_parse_statement(t) {
            Ok((s, t1)) => {
                if t1.len() < t.len() {
                    match spec_parse_statement_list(t1) {
                        Ok((ss, t2)) => Ok((seq![s] + ss, t2)),
                        Err(err) => Err(err),
                    }
                } else {
                    Err(ParseError::UnexpectedEnd)
                }
            },
            Err(err) => Err(err),
        }
    } else {
        Ok((Seq::empty(), t))
    }
}

pub open spec fn spec_parse_params(t: Seq<TokenView>) -> Result<
    (Seq<DeclareNodeView>, Seq<TokenView>),
    ParseError,
>
    decreases t.len(), 8int,
{
    if t.len() > 0 && t[0] is Type {
        match spec_parse_declare(t) {
            Ok((d, t1)) => {
                let t2 = if t1.len() > 0 && t1[0] is Comma {
                    t1.drop_first()
                } else {
                    t1
                };
                if t2.len() < t.len() {
                    match spec_parse_params(t2) {
                        Ok((ds, t3)) => Ok((seq![d] + ds, t3)),
                        Err(err) => Err(err),
                    }
                } else {
                    Err(ParseError::UnexpectedEnd)
                }
            },
            Err(err) => Err(err),
        }
    } else {
        Ok((Seq::empty(), t))
    }
}

pub open spec fn spec_parse_function(t: Seq<TokenView>) -> Result<
    (FunctionNodeView, Seq<TokenView>),
    ParseError,
>
    decreases t.len(), 11int,
{
    if t.len() > 0 && t[0] is Type {
        let t1 = t.drop_first();
        if t1.len() > 0 {
            match t1[0] {
                TokenView::Ide(id) => {
                    let t2 = t1.drop_first();
                    if t2.len() > 0 && t2[0] is ParenS {
                        match spec_parse_params(t2.drop_first()) {
                            Ok((args, t3)) => {
                                if t3.len() > 0 && t3[0] is ParenE {
                                    let t4 = t3.drop_first();
                                    if t4.len() > 0 && t4[0] is BlockS {
                                        let t5 = t4.drop_first();
                                        if t5.len() < t.len() {
                                            match spec_parse_statement_list(t5) {
                                                Ok((ss, t6)) => {
                                                    if t6.len() > 0 && t6[0] is BlockE {
                                                        Ok(
                                                            (
                                                                FunctionNodeView {
                                                                    identifier: id,
                                                                    arguments: args,
                                                                    statements: StatementsNodeView {
                                                                        statements: ss,
                                                                    },
                                                                },
                                                                t6.drop_first(),
                                                            ),
                                                        )
                                                    } else {
                                                        Err(ParseError::ExpectedBlockE)
                                                    }
                                                },
                                                Err(err) => Err(err),
                                            }
                                        } else {
                                            Err(ParseError::UnexpectedEnd)
                                        }
                                    } else {
                                        Err(ParseError::ExpectedBlockS)
                                    }
                                } else {
                                    Err(ParseError::ExpectedParenE)
                                }
                            },
                            Err(err) => Err(err),
                        }
                    } else {
                        Err(ParseError::ExpectedParenS)
                    }
                },
                _ => Err(ParseError::ExpectedIdentifier),
            }
        } else {
            Err(ParseError::ExpectedIdentifier)
        }
    } else {
        Err(ParseError::ExpectedType)
    }
}

pub open spec fn spec_parse_top_level(t: Seq<TokenView>) -> Result<
    (TopLevelDeclareNodeView, Seq<TokenView>),
    ParseError,
>
    decreases t.len(), 12int,
{
    match spec_parse_function(t) {
        Ok((f, t1)) => Ok((TopLevelDeclareNodeView::Function(f), t1)),
        Err(err) => Err(err),
    }
}

pub open spec fn spec_parse_top_levels(t: Seq<TokenView>) -> Result<
    (Seq<TopLevelDeclareNodeView>, Seq<TokenView>),
    ParseError,
>
    decreases t.len(), 13int,
{
    if t.len() > 0 && t[0] is Type {
        match spec_parse_top_level(t) {
            Ok((d, t1)) => {
                if t1.len() < t.len() {
                    match spec_parse_top_levels(t1) {
                        Ok((ds, t2)) => Ok((seq![d] + ds, t2)),
                        Err(err) => Err(err),
                    }
                } else {
                    Err(ParseError::UnexpectedEnd)
                }
            },
            Err(err) => Err(err),
        }
    } else {
        Ok((Seq::empty(), t))
    }
}

/// The whole parse: at least one top level function must be present, and
/// parsing stops at the first token that cannot begin another one.
pub open spec fn spec_parse_program(t: Seq<TokenView>) -> Result<
    (NodeView, Seq<TokenView>),
    ParseError,
>
    decreases t.len(), 14int,
{
    match spec_parse_top_levels(t) {
        Ok((ds, t1)) => {
            if ds.len() == 0 {
                Err(ParseError::ExpectedType)
            } else {
                Ok((NodeView { declares: ds }, t1))
            }
        },
        Err(err) => Err(err),
    }
}

// ---------------------------------------------------------------------------
// The executable parser. Each function is proved equal to its mathematical
// parse function; on success it always leaves strictly fewer tokens (the
// list parsers may leave equally many).
// ---------------------------------------------------------------------------

impl PrimaryNode {
    /// Parses one primary term: a numeric literal or an identifier.
    pub fn new(tokens: &mut Tokens) -> (r: Result<PrimaryNode, ParseError>)
        ensures
            match r {
                Ok(node) => spec_parse_primary(old(tokens)@) == Ok::<_, ParseError>(
                    (node@, final(tokens)@),
                ) && final(tokens)@.len() < old(tokens)@.len(),
                Err(e) => spec_parse_primary(old(tokens)@) == Err::<
                    (PrimaryNodeView, Seq<TokenView>),
                    _,
                >(e),
            },
    {
        match tokens.peek(0) {
            Some(Token::Num(_)) | Some(Token::Ide(_)) => {
                match tokens.pop() {
                    Some(token) => Ok(PrimaryNode { token }),
                    None => Err(ParseError::ExpectedPrimary),
                }
            },
            _ => Err(ParseError::ExpectedPrimary),
        }
    }

    /// The numeric value of this primary's literal token: `None` when the
    /// token is not a literal, is empty, holds a non digit, or does not fit
    /// in a `u64`.
    pub fn get_number_u64(&self) -> (r: Option<u64>)
        ensures
            r == spec_primary_number(self@),
    {
        match &self.token {
            Token::Num(num) => {
                let s = num.as_str();
                let n = s.unicode_len();
                if n == 0 {
                    return None;
                }
                let mut acc: u64 = 0;
                let mut i: usize = 0;
                while i < n
                    invariant
                        0 < n == num@.len(),
                        0 <= i <= n,
                        s@ == num@,
                        spec_primary_number(self@) == spec_parse_u64(num@),
                        spec_all_digits(num@.take(i as int)),
                        acc == spec_digits_value(num@.take(i as int)),
                    decreases n - i,
                {
                    let c = s.get_char(i);
                    if c < '0' || c > '9' {
                        proof {
                            assert(!spec_is_digit(num@[i as int]));
                            assert(!spec_all_digits(num@));
                            assert(spec_parse_u64(num@) is None);
                        }
                        return None;
                    }
                    let d: u64 = (c as u32 - '0' as u32) as u64;
                    proof {
                        assert(num@.take(i as int + 1).drop_last() =~= num@.take(i as int));
                        assert(spec_all_digits(num@.take(i as int + 1)));
                        assert(spec_digits_value(num@.take(i as int + 1)) == acc * 10 + d);
                    }
                    if acc > (u64::MAX - d) / 10 {
                        proof {
                            assert(acc >= (u64::MAX - d) / 10 + 1);
                            assert(10 * ((u64::MAX - d) / 10) + 10 > u64::MAX - d);
                            assert(acc * 10 >= ((u64::MAX - d) / 10 + 1) * 10);
                            assert(acc * 10 + d > u64::MAX);
                            if spec_all_digits(num@) {
                                lemma_digits_value_prefix(num@, i as int + 1);
                                assert(spec_digits_value(num@) > u64::MAX);
                            }
                            assert(spec_parse_u64(num@) is None);
                        }
                        return None;
                    }
                    proof {
                        assert(acc * 10 <= ((u64::MAX - d) / 10) * 10 <= u64::MAX - d);
                    }
                    acc = acc * 10 + d;
                    i += 1;
                }
                proof {
                    assert(num@.take(n as int) =~= num@);
                }
                Some(acc)
            },
            _ => None,
        }
    }

    /// The spelling of this primary's identifier token, `None` when the
    /// token is not an identifier.
    pub fn get_identifier(&self) -> (r: Option<String>)
        ensures
            match r {
                Some(s) => self@.token matches TokenView::Ide(id) && s@ == id,
                None => !(self@.token is Ide),
            },
    {
        match &self.token {
            Token::Ide(identifier) => Some(identifier.clone()),
            _ => None,
        }
    }
}

impl ArrayElementNode {
    /// Parses `identifier [ e ] [ e ] ...` into a base name and its index
    /// expressions, outermost first.
    pub fn new(tokens: &mut Tokens) -> (r: Result<ArrayElementNode, ParseError>)
        ensures
            match r {
                Ok(node) => spec_parse_array_element(old(tokens)@) == Ok::<_, ParseError>(
                    (node@, final(tokens)@),
                ) && final(tokens)@.len() < old(tokens)@.len(),
                Err(e) => spec_parse_array_element(old(tokens)@) == Err::<
                    (ArrayElementNodeView, Seq<TokenView>),
                    _,
                >(e),
            },
        decreases tokens@.len(), 0int,
    {
        let identifier = match tokens.consume_identifier() {
            Ok(s) => s,
            Err(e) => {
                return Err(e);
            },
        };
        let indexer_nodes = Self::parse_indexers(tokens)?;
        Ok(ArrayElementNode { identifier, indexer_nodes })
    }

    /// Parses the possibly empty run of `[ e ]` index groups.
    fn parse_indexers(tokens: &mut Tokens) -> (r: Result<Vec<ExpressionNode>, ParseError>)
        ensures
            match r {
                Ok(v) => spec_parse_indexers(old(tokens)@) == Ok::<_, ParseError>(
                    (crate::ast::spec_view_exprs(v), final(tokens)@),
                ) && final(tokens)@.len() <= old(tokens)@.len(),
                Err(e) => spec_parse_indexers(old(tokens)@) == Err::<
                    (Seq<ExpressionNodeView>, Seq<TokenView>),
                    _,
                >(e),
            },
        decreases tokens@.len(), 6int,
    {
        match tokens.peek(0) {
            Some(Token::SquareS) => {},
            _ => {
                let v: Vec<ExpressionNode> = Vec::new();
                proof {
                    assert(crate::ast::spec_view_exprs(v) =~= Seq::<ExpressionNodeView>::empty());
                }
                return Ok(v);
            },
        }
        match tokens.consume_square_s() {
            Ok(_) => {},
            Err(e) => {
                return Err(e);
            },
        }
        let e = ExpressionNode::new(tokens)?;
        match tokens.consume_square_e() {
            Ok(_) => {},
            Err(err) => {
                return Err(err);
            },
        }
        let mut rest = Self::parse_indexers(tokens)?;
        let ghost rest0 = rest;
        rest.insert(0, e);
        proof {
            assert(crate::ast::spec_view_exprs(rest) =~= seq![crate::ast::spec_view_expr(e)]
                + crate::ast::spec_view_exprs(rest0));
        }
        Ok(rest)
    }
}

impl ArrayAccessNode {
    /// Parses an array element read.
    pub fn new(tokens: &mut Tokens) -> (r: Result<ArrayAccessNode, ParseError>)
        ensures
            match r {
                Ok(node) => spec_parse_array_element(old(tokens)@) == Ok::<_, ParseError>(
                    (node@.array_element, final(tokens)@),
                ) && final(tokens)@.len() < old(tokens)@.len(),
                Err(e) => spec_parse_array_element(old(tokens)@) == Err::<
                    (ArrayElementNodeView, Seq<TokenView>),
                    _,
                >(e),
            },
        decreases tokens@.len(), 1int,
    {
        let array_element = ArrayElementNode::new(tokens)?;
        Ok(ArrayAccessNode { array_element })
    }
}

impl FunctionCallNode {
    /// Parses `identifier ( e , e , ... )`.
    pub fn new(tokens: &mut Tokens) -> (r: Result<FunctionCallNode, ParseError>)
        ensures
            match r {
                Ok(node) => spec_parse_function_call(old(tokens)@) == Ok::<_, ParseError>(
                    (node@, final(tokens)@),
                ) && final(tokens)@.len() < old(tokens)@.len(),
                Err(e) => spec_parse_function_call(old(tokens)@) == Err::<
                    (FunctionCallNodeView, Seq<TokenView>),
                    _,
                >(e),
            },
        decreases tokens@.len(), 1int,
    {
        let identifier = match tokens.consume_identifier() {
            Ok(s) => s,
            Err(e) => {
                return Err(e);
            },
        };
        match tokens.consume_paren_s() {
            Ok(_) => {},
            Err(e) => {
                return Err(e);
            },
        }
        let parameters = Self::parse_args(tokens)?;
        match tokens.consume_paren_e() {
            Ok(_) => {},
            Err(e) => {
                return Err(e);
            },
        }
        Ok(FunctionCallNode { identifier, parameters })
    }

    /// Parses the possibly empty comma separated argument expressions, up
    /// to but not including the closing parenthesis.
    fn parse_args(tokens: &mut Tokens) -> (r: Result<Vec<ExpressionNode>, ParseError>)
        ensures
            match r {
                Ok(v) => spec_parse_args(old(tokens)@) == Ok::<_, ParseError>(
                    (crate::ast::spec_view_exprs(v), final(tokens)@),
                ) && final(tokens)@.len() <= old(tokens)@.len(),
                Err(e) => spec_parse_args(old(tokens)@) == Err::<
                    (Seq<ExpressionNodeView>, Seq<TokenView>),
                    _,
                >(e),
            },
        decreases tokens@.len(), 6int,
    {
        match tokens.peek(0) {
            Some(Token::ParenE) | None => {
                let v: Vec<ExpressionNode> = Vec::new();
                proof {
                    assert(crate::ast::spec_view_exprs(v) =~= Seq::<ExpressionNodeView>::empty());
                }
                return Ok(v);
            },
            Some(_) => {},
        }
        let e = ExpressionNode::new(tokens)?;
        match tokens.peek(0) {
            Some(Token::Comma) => {
                tokens.pop();
            },
            _ => {},
        }
        let mut rest = Self::parse_args(tokens)?;
        let ghost rest0 = rest;
        rest.insert(0, e);
        proof {
            assert(crate::ast::spec_view_exprs(rest) =~= seq![crate::ast::spec_view_expr(e)]
                + crate::ast::spec_view_exprs(rest0));
        }
        Ok(rest)
    }
}

impl UnaryNode {
    /// Parses one unary term: a prefixed primary, a suffixed identifier, or
    /// a bare primary.
    pub fn new(tokens: &mut Tokens) -> (r: Result<UnaryNode, ParseError>)
        ensures
            match r {
                Ok(node) => spec_parse_unary(old(tokens)@) == Ok::<_, ParseError>(
                    (node@, final(tokens)@),
                ) && final(tokens)@.len() < old(tokens)@.len(),
                Err(e) => spec_parse_unary(old(tokens)@) == Err::<
                    (UnaryNodeView, Seq<TokenView>),
                    _,
                >(e),
            },
        decreases tokens@.len(), 3int,
    {
        match tokens.peek(0) {
            Some(Token::Op(op, _)) => {
                if str_is_char(&op, '*') || str_is_char(&op, '&') {
                    Self::new_with_prefix(tokens)
                } else {
                    Self::new_with_suffix(tokens)
                }
            },
            _ => Self::new_with_suffix(tokens),
        }
    }

    /// Parses `*` or `&` followed by a primary.
    fn new_with_prefix(tokens: &mut Tokens) -> (r: Result<UnaryNode, ParseError>)
        ensures
            match r {
                Ok(node) => spec_parse_with_prefix(old(tokens)@) == Ok::<_, ParseError>(
                    (node@, final(tokens)@),
                ) && final(tokens)@.len() < old(tokens)@.len(),
                Err(e) => spec_parse_with_prefix(old(tokens)@) == Err::<
                    (UnaryNodeView, Seq<TokenView>),
                    _,
                >(e),
            },
        decreases tokens@.len(), 1int,
    {
        let (op, _property) = match tokens.consume_operator() {
            Ok(x) => x,
            Err(e) => {
                return Err(e);
            },
        };
        if str_is_char(&op, '*') || str_is_char(&op, '&') {
            let val = PrimaryNode::new(tokens)?;
            Ok(UnaryNode::Prefix(PrefixNode { op, val }))
        } else {
            Err(ParseError::ExpectedOperator)
        }
    }

    /// Parses a unary term that is not prefixed, looking one token ahead to
    /// tell an array access, a call, and a bare primary apart.
    fn new_with_suffix(tokens: &mut Tokens) -> (r: Result<UnaryNode, ParseError>)
        ensures
            match r {
                Ok(node) => spec_parse_with_suffix(old(tokens)@) == Ok::<_, ParseError>(
                    (node@, final(tokens)@),
                ) && final(tokens)@.len() < old(tokens)@.len(),
                Err(e) => spec_parse_with_suffix(old(tokens)@) == Err::<
                    (UnaryNodeView, Seq<TokenView>),
                    _,
                >(e),
            },
        decreases tokens@.len(), 2int,
    {
        match tokens.peek(1) {
            Some(Token::SquareS) => {
                let a = ArrayAccessNode::new(tokens)?;
                Ok(UnaryNode::Suffix(SuffixNode::Array(a)))
            },
            Some(Token::ParenS) => {
                let f = FunctionCallNode::new(tokens)?;
                Ok(UnaryNode::Suffix(SuffixNode::FunctionCall(f)))
            },
            _ => {
                let p = PrimaryNode::new(tokens)?;
                Ok(UnaryNode::Primary(p))
            },
        }
    }
}

impl ExpressionNode {
    /// Parses one whole expression.
    pub fn new(tokens: &mut Tokens) -> (r: Result<ExpressionNode, ParseError>)
        ensures
            match r {
                Ok(node) => spec_parse_expression(old(tokens)@) == Ok::<_, ParseError>(
                    (node@, final(tokens)@),
                ) && final(tokens)@.len() < old(tokens)@.len(),
                Err(e) => spec_parse_expression(old(tokens)@) == Err::<
                    (ExpressionNodeView, Seq<TokenView>),
                    _,
                >(e),
            },
        decreases tokens@.len(), 5int,
    {
        BinaryNode::new(tokens)
    }
}

impl BinaryNode {
    /// Parses one whole expression: one unary term, then the precedence
    /// climbing loop over the operators that follow.
    pub fn new(tokens: &mut Tokens) -> (r: Result<ExpressionNode, ParseError>)
        ensures
            match r {
                Ok(node) => spec_parse_expression(old(tokens)@) == Ok::<_, ParseError>(
                    (node@, final(tokens)@),
                ) && final(tokens)@.len() < old(tokens)@.len(),
                Err(e) => spec_parse_expression(old(tokens)@) == Err::<
                    (ExpressionNodeView, Seq<TokenView>),
                    _,
                >(e),
            },
        decreases tokens@.len(), 4int,
    {
        let u = UnaryNode::new(tokens)?;
        Self::binary_expression(ExpressionNode::Unary(u), tokens, 0)
    }

    /// The outer precedence climbing loop: while the next token is an
    /// operator at or above the threshold, consume it, parse one unary term
    /// as the right hand side, extend it by climbing, and fold the result
    /// into the left hand side.
    fn binary_expression(lhs: ExpressionNode, tokens: &mut Tokens, min_precedence: u32) -> (r:
        Result<ExpressionNode, ParseError>)
        ensures
            match r {
                Ok(node) => spec_parse_binary_rest(old(tokens)@, lhs@, min_precedence)
                    == Ok::<_, ParseError>((node@, final(tokens)@))
                    && final(tokens)@.len() <= old(tokens)@.len()
                    && (spec_binary_takes_op(old(tokens)@, min_precedence)
                        ==> final(tokens)@.len() < old(tokens)@.len()),
                Err(e) => spec_parse_binary_rest(old(tokens)@, lhs@, min_precedence) == Err::<
                    (ExpressionNodeView, Seq<TokenView>),
                    _,
                >(e),
            },
        decreases tokens@.len(), 6int,
    {
        let take: bool = match tokens.peek(0) {
            Some(Token::Op(_, property)) => property.precedence >= min_precedence,
            _ => false,
        };
        if !take {
            return Ok(lhs);
        }
        let (op_s, property) = match tokens.consume_operator() {
            Ok(x) => x,
            Err(e) => {
                return Err(e);
            },
        };
        let u = UnaryNode::new(tokens)?;
        let rhs = Self::climb(ExpressionNode::Unary(u), tokens, property)?;
        let new_lhs = ExpressionNode::Binary(
            BinaryNode { op: Token::Op(op_s, property), lhs: Box::new(lhs), rhs: Box::new(rhs) },
        );
        Self::binary_expression(new_lhs, tokens, min_precedence)
    }

    /// The inner climbing loop: while the lookahead operator satisfies the
    /// associativity rule of the operator just consumed, extend the right
    /// hand side with the lookahead's precedence as the new threshold.
    fn climb(rhs: ExpressionNode, tokens: &mut Tokens, root: Property) -> (r: Result<
        ExpressionNode,
        ParseError,
    >)
        ensures
            match r {
                Ok(node) => spec_parse_climb(old(tokens)@, rhs@, root) == Ok::<_, ParseError>(
                    (node@, final(tokens)@),
                ) && final(tokens)@.len() <= old(tokens)@.len(),
                Err(e) => spec_parse_climb(old(tokens)@, rhs@, root) == Err::<
                    (ExpressionNodeView, Seq<TokenView>),
                    _,
                >(e),
            },
        decreases tokens@.len(), 7int,
    {
        let go: Option<u32> = match tokens.peek(0) {
            Some(Token::Op(_, p2)) => {
                let cont: bool = match root.associativity {
                    Associativity::Right => p2.precedence >= root.precedence,
                    Associativity::Left => p2.precedence > root.precedence,
                };
                if cont {
                    Some(p2.precedence)
                } else {
                    None
                }
            },
            _ => None,
        };
        match go {
            None => Ok(rhs),
            Some(prec2) => {
                let rhs2 = Self::binary_expression(rhs, tokens, prec2)?;
                Self::climb(rhs2, tokens, root)
            },
        }
    }
}

impl PointerDeclareNode {
    /// Parses `type * identifier`.
    pub fn new(tokens: &mut Tokens) -> (r: Result<PointerDeclareNode, ParseError>)
        ensures
            match r {
                Ok(node) => spec_parse_pointer_declare(old(tokens)@) == Ok::<_, ParseError>(
                    (node@, final(tokens)@),
                ) && final(tokens)@.len() < old(tokens)@.len(),
                Err(e) => spec_parse_pointer_declare(old(tokens)@) == Err::<
                    (PointerDeclareNodeView, Seq<TokenView>),
                    _,
                >(e),
            },
        decreases tokens@.len(), 6int,
    {
        match tokens.consume_type() {
            Ok(_) => {},
            Err(e) => {
                return Err(e);
            },
        }
        tokens.pop();  // the `*`
        match tokens.pop() {
            Some(Token::Ide(identifier)) => Ok(PointerDeclareNode { identifier }),
            _ => Err(ParseError::ExpectedIdentifier),
        }
    }
}

impl VariableDeclareNode {
    /// Parses a scalar declaration; with `=` after the name, the whole
    /// assignment expression becomes the initializer.
    pub fn new(tokens: &mut Tokens) -> (r: Result<VariableDeclareNode, ParseError>)
        ensures
            match r {
                Ok(node) => spec_parse_variable_declare(old(tokens)@) == Ok::<_, ParseError>(
                    (node@, final(tokens)@),
                ) && final(tokens)@.len() < old(tokens)@.len(),
                Err(e) => spec_parse_variable_declare(old(tokens)@) == Err::<
                    (VariableDeclareNodeView, Seq<TokenView>),
                    _,
                >(e),
            },
        decreases tokens@.len(), 6int,
    {
        match tokens.consume_type() {
            Ok(_) => {},
            Err(e) => {
                return Err(e);
            },
        }
        let identifier = match tokens.expect_identifier() {
            Ok(s) => s,
            Err(e) => {
                return Err(e);
            },
        };
        match tokens.peek(1) {
            Some(Token::Op(op, _)) => {
                if str_is_char(&op, '=') {
                    let init_expression = ExpressionNode::new(tokens)?;
                    Ok(VariableDeclareNode { identifier, init_expression: Some(init_expression) })
                } else {
                    Err(ParseError::ExpectedDeclaration)
                }
            },
            Some(_) => {
                let identifier = match tokens.consume_identifier() {
                    Ok(s) => s,
                    Err(e) => {
                        return Err(e);
                    },
                };
                Ok(VariableDeclareNode { identifier, init_expression: None })
            },
            None => Err(ParseError::UnexpectedEnd),
        }
    }
}

impl ArrayDeclareNode {
    /// Parses an array declaration with one literal size per dimension.
    pub fn new(tokens: &mut Tokens) -> (r: Result<ArrayDeclareNode, ParseError>)
        ensures
            match r {
                Ok(node) => spec_parse_array_declare(old(tokens)@) == Ok::<_, ParseError>(
                    (node@, final(tokens)@),
                ) && final(tokens)@.len() < old(tokens)@.len(),
                Err(e) => spec_parse_array_declare(old(tokens)@) == Err::<
                    (ArrayDeclareNodeView, Seq<TokenView>),
                    _,
                >(e),
            },
        decreases tokens@.len(), 6int,
    {
        match tokens.consume_type() {
            Ok(_) => {},
            Err(e) => {
                return Err(e);
            },
        }
        let identifier = match tokens.consume_identifier() {
            Ok(s) => s,
            Err(e) => {
                return Err(e);
            },
        };
        let init_sizes = Self::parse_dims(tokens)?;
        Ok(ArrayDeclareNode { identifier, init_sizes })
    }

    /// Parses the possibly empty run of `[ literal ]` dimension sizes.
    #[verifier::rlimit(100)]
    #[verifier::spinoff_prover]
    fn parse_dims(tokens: &mut Tokens) -> (r: Result<Vec<u32>, ParseError>)
        ensures
            match r {
                Ok(v) => spec_parse_dims(old(tokens)@) == Ok::<_, ParseError>(
                    (v@, final(tokens)@),
                ) && final(tokens)@.len() <= old(tokens)@.len(),
                Err(e) => spec_parse_dims(old(tokens)@) == Err::<
                    (Seq<u32>, Seq<TokenView>),
                    _,
                >(e),
            },
        decreases tokens@.len(), 6int,
    {
        match tokens.peek(0) {
            Some(Token::SquareS) => {},
            _ => {
                let v: Vec<u32> = Vec::new();
                proof {
                    assert(v@ =~= Seq::<u32>::empty());
                }
                return Ok(v);
            },
        }
        match tokens.consume_square_s() {
            Ok(_) => {},
            Err(e) => {
                return Err(e);
            },
        }
        let size_node = ExpressionNode::new(tokens)?;
        let size: u64 = match &size_node {
            ExpressionNode::Unary(u) => {
                proof {
                    assert(size_node@ matches ExpressionNodeView::Unary(uv) && uv == u@);
                }
                match u {
                    UnaryNode::Primary(p) => {
                        proof {
                            assert(u@ matches UnaryNodeView::Primary(pv) && pv == p@);
                        }
                        match &p.token {
                            Token::Num(_) => {
                                match p.get_number_u64() {
                                    Some(v) => v,
                                    None => {
                                        return Err(ParseError::NumberTooLarge);
                                    },
                                }
                            },
                            _ => {
                                return Err(ParseError::ArraySizeNotLiteral);
                            },
                        }
                    },
                    _ => {
                        return Err(ParseError::ArraySizeNotLiteral);
                    },
                }
            },
            _ => {
                return Err(ParseError::ArraySizeNotLiteral);
            },
        };
        match tokens.consume_square_e() {
            Ok(_) => {},
            Err(e) => {
                return Err(e);
            },
        }
        let mut rest = Self::parse_dims(tokens)?;
        let ghost rest0 = rest;
        rest.insert(0, (size % 0x100000000u64) as u32);
        proof {
            assert(rest@ =~= seq![(size % 0x100000000u64) as u32] + rest0@);
        }
        Ok(rest)
    }
}

impl DirectDeclareNode {
    /// Parses a direct declaration, looking two tokens ahead to tell an
    /// array from a scalar.
    pub fn new(tokens: &mut Tokens) -> (r: Result<DirectDeclareNode, ParseError>)
        ensures
            match r {
                Ok(node) => spec_parse_direct_declare(old(tokens)@) == Ok::<_, ParseError>(
                    (node@, final(tokens)@),
                ) && final(tokens)@.len() < old(tokens)@.len(),
                Err(e) => spec_parse_direct_declare(old(tokens)@) == Err::<
                    (DirectDeclareNodeView, Seq<TokenView>),
                    _,
                >(e),
            },
        decreases tokens@.len(), 7int,
    {
        match tokens.peek(2) {
            Some(Token::SquareS) => {
                let a = ArrayDeclareNode::new(tokens)?;
                Ok(DirectDeclareNode::Array(a))
            },
            Some(_) => {
                let v = VariableDeclareNode::new(tokens)?;
                Ok(DirectDeclareNode::Variable(v))
            },
            None => Err(ParseError::UnexpectedEnd),
        }
    }
}

impl DeclareNode {
    /// Parses a declaration, looking one token ahead to tell a pointer from
    /// a direct declaration.
    pub fn new(tokens: &mut Tokens) -> (r: Result<DeclareNode, ParseError>)
        ensures
            match r {
                Ok(node) => spec_parse_declare(old(tokens)@) == Ok::<_, ParseError>(
                    (node@, final(tokens)@),
                ) && final(tokens)@.len() < old(tokens)@.len(),
                Err(e) => spec_parse_declare(old(tokens)@) == Err::<
                    (DeclareNodeView, Seq<TokenView>),
                    _,
                >(e),
            },
        decreases tokens@.len(), 8int,
    {
        match tokens.peek(1) {
            Some(Token::Ide(_)) => {
                let d = DirectDeclareNode::new(tokens)?;
                Ok(DeclareNode::Direct(d))
            },
            Some(Token::Op(op, _)) => {
                if str_is_char(&op, '*') {
                    let p = PointerDeclareNode::new(tokens)?;
                    Ok(DeclareNode::Pointer(p))
                } else {
                    Err(ParseError::ExpectedDeclaration)
                }
            },
            Some(_) => Err(ParseError::ExpectedDeclaration),
            None => Err(ParseError::UnexpectedEnd),
        }
    }

    /// The declared name, whatever the declaration's shape.
    pub fn get_identifier(&self) -> (r: String)
        ensures
            r@ == match self@ {
                DeclareNodeView::Direct(DirectDeclareNodeView::Variable(v)) => v.identifier,
                DeclareNodeView::Direct(DirectDeclareNodeView::Array(a)) => a.identifier,
                DeclareNodeView::Pointer(p) => p.identifier,
            },
    {
        match self {
            DeclareNode::Direct(DirectDeclareNode::Variable(node)) => node.identifier.clone(),
            DeclareNode::Direct(DirectDeclareNode::Array(node)) => node.identifier.clone(),
            DeclareNode::Pointer(node) => node.identifier.clone(),
        }
    }
}

impl DeclareStatementNode {
    /// Parses a declaration statement up to and including its `;`.
    pub fn new(tokens: &mut Tokens) -> (r: Result<DeclareStatementNode, ParseError>)
        ensures
            match r {
                Ok(node) => spec_parse_declare_statement(old(tokens)@) == Ok::<_, ParseError>(
                    (node@, final(tokens)@),
                ) && final(tokens)@.len() < old(tokens)@.len(),
                Err(e) => spec_parse_declare_statement(old(tokens)@) == Err::<
                    (DeclareStatementNodeView, Seq<TokenView>),
                    _,
                >(e),
            },
        decreases tokens@.len(), 9int,
    {
        let declare = DeclareNode::new(tokens)?;
        match tokens.consume_semi() {
            Ok(_) => {},
            Err(e) => {
                return Err(e);
            },
        }
        Ok(DeclareStatementNode { declare })
    }
}

impl ExpressionStatementNode {
    /// Parses a bare expression statement up to and including its `;`.
    pub fn new(tokens: &mut Tokens) -> (r: Result<ExpressionStatementNode, ParseError>)
        ensures
            match r {
                Ok(node) => spec_parse_expression_statement(old(tokens)@) == Ok::<_, ParseError>(
                    (node@, final(tokens)@),
                ) && final(tokens)@.len() < old(tokens)@.len(),
                Err(e) => spec_parse_expression_statement(old(tokens)@) == Err::<
                    (ExpressionStatementNodeView, Seq<TokenView>),
                    _,
                >(e),
            },
        decreases tokens@.len(), 9int,
    {
        let expression = ExpressionNode::new(tokens)?;
        match tokens.consume_semi() {
            Ok(_) => {},
            Err(e) => {
                return Err(e);
            },
        }
        Ok(ExpressionStatementNode { expression })
    }
}

impl ReturnStatementNode {
    /// Parses `return e ;`.
    pub fn new(tokens: &mut Tokens) -> (r: Result<ReturnStatementNode, ParseError>)
        ensures
            match r {
                Ok(node) => spec_parse_return_statement(old(tokens)@) == Ok::<_, ParseError>(
                    (node@, final(tokens)@),
                ) && final(tokens)@.len() < old(tokens)@.len(),
                Err(e) => spec_parse_return_statement(old(tokens)@) == Err::<
                    (ReturnStatementNodeView, Seq<TokenView>),
                    _,
                >(e),
            },
        decreases tokens@.len(), 9int,
    {
        match tokens.consume_return() {
            Ok(_) => {},
            Err(e) => {
                return Err(e);
            },
        }
        let expression = ExpressionNode::new(tokens)?;
        match tokens.consume_semi() {
            Ok(_) => {},
            Err(e) => {
                return Err(e);
            },
        }
        Ok(ReturnStatementNode { expression })
    }
}

impl StatementNode {
    /// Parses one statement, dispatching on its first token.
    pub fn new(tokens: &mut Tokens) -> (r: Result<StatementNode, ParseError>)
        ensures
            match r {
                Ok(node) => spec_parse_statement(old(tokens)@) == Ok::<_, ParseError>(
                    (node@, final(tokens)@),
                ) && final(tokens)@.len() < old(tokens)@.len(),
                Err(e) => spec_parse_statement(old(tokens)@) == Err::<
                    (StatementNodeView, Seq<TokenView>),
                    _,
                >(e),
            },
        decreases tokens@.len(), 10int,
    {
        match tokens.peek(0) {
            Some(Token::Return) => {
                let s = ReturnStatementNode::new(tokens)?;
                Ok(StatementNode::Return(s))
            },
            Some(Token::Type(_)) => {
                let s = DeclareStatementNode::new(tokens)?;
                Ok(StatementNode::Declare(s))
            },
            Some(_) => {
                let s = ExpressionStatementNode::new(tokens)?;
                Ok(StatementNode::Expression(s))
            },
            None => Err(ParseError::UnexpectedEnd),
        }
    }
}

impl StatementsNode {
    /// Parses statements until the closing `}` of the enclosing block, or
    /// until the tokens run out.
    pub fn new(tokens: &mut Tokens) -> (r: Result<StatementsNode, ParseError>)
        ensures
            match r {
                Ok(node) => spec_parse_statement_list(old(tokens)@) == Ok::<_, ParseError>(
                    (node@.statements, final(tokens)@),
                ) && final(tokens)@.len() <= old(tokens)@.len(),
                Err(e) => spec_parse_statement_list(old(tokens)@) == Err::<
                    (Seq<StatementNodeView>, Seq<TokenView>),
                    _,
                >(e),
            },
        decreases tokens@.len(), 12int,
    {
        let statements = Self::parse_statement_list(tokens)?;
        Ok(StatementsNode { statements })
    }

    /// The recursive statement list parser behind [`StatementsNode::new`].
    #[verifier::rlimit(100)]
    #[verifier::spinoff_prover]
    fn parse_statement_list(tokens: &mut Tokens) -> (r: Result<Vec<StatementNode>, ParseError>)
        ensures
            match r {
                Ok(v) => spec_parse_statement_list(old(tokens)@) == Ok::<_, ParseError>(
                    (crate::ast::spec_view_stmts(v), final(tokens)@),
                ) && final(tokens)@.len() <= old(tokens)@.len(),
                Err(e) => spec_parse_statement_list(old(tokens)@) == Err::<
                    (Seq<StatementNodeView>, Seq<TokenView>),
                    _,
                >(e),
            },
        decreases tokens@.len(), 11int,
    {
        match tokens.peek(0) {
            Some(Token::BlockE) | None => {
                let v: Vec<StatementNode> = Vec::new();
                proof {
                    assert(crate::ast::spec_view_stmts(v) =~= Seq::<StatementNodeView>::empty());
                }
                return Ok(v);
            },
            Some(_) => {},
        }
        let s = StatementNode::new(tokens)?;
        let mut rest = Self::parse_statement_list(tokens)?;
        let ghost rest0 = rest;
        rest.insert(0, s);
        proof {
            assert(crate::ast::spec_view_stmts(rest) =~= seq![crate::ast::spec_view_stmt(s)]
                + crate::ast::spec_view_stmts(rest0));
        }
        Ok(rest)
    }
}

impl FunctionNode {
    /// Parses one function definition: header, parameter declarations, and
    /// braced statement body.
    pub fn new(tokens: &mut Tokens) -> (r: Result<FunctionNode, ParseError>)
        ensures
            match r {
                Ok(node) => spec_parse_function(old(tokens)@) == Ok::<_, ParseError>(
                    (node@, final(tokens)@),
                ) && final(tokens)@.len() < old(tokens)@.len(),
                Err(e) => spec_parse_function(old(tokens)@) == Err::<
                    (FunctionNodeView, Seq<TokenView>),
                    _,
                >(e),
            },
        decreases tokens@.len(), 13int,
    {
        match tokens.consume_type() {
            Ok(_) => {},
            Err(e) => {
                return Err(e);
            },
        }
        let identifier = match tokens.consume_identifier() {
            Ok(s) => s,
            Err(e) => {
                return Err(e);
            },
        };
        match tokens.consume_paren_s() {
            Ok(_) => {},
            Err(e) => {
                return Err(e);
            },
        }
        let arguments = Self::parse_params(tokens)?;
        match tokens.consume_paren_e() {
            Ok(_) => {},
            Err(e) => {
                return Err(e);
            },
        }
        match tokens.consume_block_s() {
            Ok(_) => {},
            Err(e) => {
                return Err(e);
            },
        }
        let statements = StatementsNode::new(tokens)?;
        match tokens.consume_block_e() {
            Ok(_) => {},
            Err(e) => {
                return Err(e);
            },
        }
        Ok(FunctionNode { identifier, arguments, statements })
    }

    /// Parses the possibly empty comma separated parameter declarations.
    #[verifier::rlimit(100)]
    #[verifier::spinoff_prover]
    fn parse_params(tokens: &mut Tokens) -> (r: Result<Vec<DeclareNode>, ParseError>)
        ensures
            match r {
                Ok(v) => spec_parse_params(old(tokens)@) == Ok::<_, ParseError>(
                    (crate::ast::spec_view_declares(v), final(tokens)@),
                ) && final(tokens)@.len() <= old(tokens)@.len(),
                Err(e) => spec_parse_params(old(tokens)@) == Err::<
                    (Seq<DeclareNodeView>, Seq<TokenView>),
                    _,
                >(e),
            },
        decreases tokens@.len(), 9int,
    {
        match tokens.peek(0) {
            Some(Token::Type(_)) => {},
            _ => {
                let v: Vec<DeclareNode> = Vec::new();
                proof {
                    assert(crate::ast::spec_view_declares(v) =~= Seq::<DeclareNodeView>::empty());
                }
                return Ok(v);
            },
        }
        let d = DeclareNode::new(tokens)?;
        match tokens.peek(0) {
            Some(Token::Comma) => {
                tokens.pop();
            },
            _ => {},
        }
        let mut rest = Self::parse_params(tokens)?;
        let ghost rest0 = rest;
        rest.insert(0, d);
        proof {
            assert(crate::ast::spec_view_declares(rest) =~= seq![crate::ast::spec_view_declare(d)]
                + crate::ast::spec_view_declares(rest0));
        }
        Ok(rest)
    }
}

impl TopLevelDeclareNode {
    /// Parses one top level declaration. Only functions exist.
    pub fn new(tokens: &mut Tokens) -> (r: Result<TopLevelDeclareNode, ParseError>)
        ensures
            match r {
                Ok(node) => spec_parse_top_level(old(tokens)@) == Ok::<_, ParseError>(
                    (node@, final(tokens)@),
                ) && final(tokens)@.len() < old(tokens)@.len(),
                Err(e) => spec_parse_top_level(old(tokens)@) == Err::<
                    (TopLevelDeclareNodeView, Seq<TokenView>),
                    _,
                >(e),
            },
        decreases tokens@.len(), 14int,
    {
        let f = FunctionNode::new(tokens)?;
        Ok(TopLevelDeclareNode::Function(f))
    }
}

impl Node {
    /// Parses a whole translation unit: one or more top level functions.
    pub fn new(tokens: &mut Tokens) -> (r: Result<Node, ParseError>)
        ensures
            match r {
                Ok(node) => spec_parse_program(old(tokens)@) == Ok::<_, ParseError>(
                    (node@, final(tokens)@),
                ),
                Err(e) => spec_parse_program(old(tokens)@) == Err::<
                    (NodeView, Seq<TokenView>),
                    _,
                >(e),
            },
        decreases tokens@.len(), 16int,
    {
        let declares = Self::parse_top_levels(tokens)?;
        if declares.len() == 0 {
            return Err(ParseError::ExpectedType);
        }
        Ok(Node { declares })
    }

    /// Parses the run of top level functions, stopping at the first token
    /// that cannot begin one.
    #[verifier::rlimit(100)]
    #[verifier::spinoff_prover]
    fn parse_top_levels(tokens: &mut Tokens) -> (r: Result<Vec<TopLevelDeclareNode>, ParseError>)
        ensures
            match r {
                Ok(v) => spec_parse_top_levels(old(tokens)@) == Ok::<_, ParseError>(
                    (crate::ast::spec_view_top_levels(v), final(tokens)@),
                ) && final(tokens)@.len() <= old(tokens)@.len(),
                Err(e) => spec_parse_top_levels(old(tokens)@) == Err::<
                    (Seq<TopLevelDeclareNodeView>, Seq<TokenView>),
                    _,
                >(e),
            },
        decreases tokens@.len(), 15int,
    {
        match tokens.peek(0) {
            Some(Token::Type(_)) => {},
            _ => {
                let v: Vec<TopLevelDeclareNode> = Vec::new();
                proof {
                    assert(crate::ast::spec_view_top_levels(v) =~= Seq::<
                        TopLevelDeclareNodeView,
                    >::empty());
                }
                return Ok(v);
            },
        }
        let d = TopLevelDeclareNode::new(tokens)?;
        let mut rest = Self::parse_top_levels(tokens)?;
        let ghost rest0 = rest;
        rest.insert(0, d);
        proof {
            assert(crate::ast::spec_view_top_levels(rest) =~= seq![
                crate::ast::spec_view_top_level(d),
            ] + crate::ast::spec_view_top_levels(rest0));
        }
        Ok(rest)
    }
}

/// Parses a token stream into a translation unit: the parser's one entry
/// point. The result is a function of the token sequence alone.
pub fn parser(tokens: &mut Tokens) -> (r: Result<Node, ParseError>)
    ensures
        match r {
            Ok(node) => spec_parse_program(old(tokens)@) == Ok::<_, ParseError>(
                (node@, final(tokens)@),
            ),
            Err(e) => spec_parse_program(old(tokens)@) == Err::<(NodeView, Seq<TokenView>), _>(e),
        },
{
    Node::new(tokens)
}

/// Parsing reads nothing but the token sequence: equal token sequences
/// parse to equal results, whatever cursors carry them. Together with the
/// parser's postcondition this says that parsing one token stream twice,
/// from two independent tokenizations of the same source, gives
/// structurally equal trees.
pub proof fn lemma_parse_deterministic(a: Seq<TokenView>, b: Seq<TokenView>)
    requires
        a == b,
    ensures
        spec_parse_program(a) == spec_parse_program(b),
{
}

} // verus!
