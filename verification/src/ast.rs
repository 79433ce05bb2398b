//! The abstract syntax tree: an ownership tree of declarations, statements
//! and expressions, together with the mathematical value of every node.

use vstd::prelude::*;
use crate::token::{Token, TokenView};

verus! {

broadcast use vstd::std_specs::vec::axiom_vec_index_decreases;

// ---------------------------------------------------------------------------
// Executable node types.
// ---------------------------------------------------------------------------

/// A whole translation unit: the ordered top level declarations.
#[derive(Debug, PartialEq)]
pub struct Node {
    pub declares: Vec<TopLevelDeclareNode>,
}

/// A top level declaration. Only function definitions exist in the subset.
#[derive(Debug, PartialEq)]
pub enum TopLevelDeclareNode {
    Function(FunctionNode),
}

/// One function definition: name, scalar parameters, body statements.
#[derive(Debug, PartialEq)]
pub struct FunctionNode {
    pub identifier: String,
    pub arguments: Vec<DeclareNode>,
    pub statements: StatementsNode,
}

/// The ordered statements of one function body.
#[derive(Debug, PartialEq)]
pub struct StatementsNode {
    pub statements: Vec<StatementNode>,
}

/// One statement: a declaration, a bare expression, or a return.
#[derive(Debug, PartialEq)]
pub enum StatementNode {
    Declare(DeclareStatementNode),
    Expression(ExpressionStatementNode),
    Return(ReturnStatementNode),
}

/// A declaration used as a statement, terminated by `;`.
#[derive(Debug, PartialEq)]
pub struct DeclareStatementNode {
    pub declare: DeclareNode,
}

/// A bare expression evaluated for its side effect, terminated by `;`.
#[derive(Debug, PartialEq)]
pub struct ExpressionStatementNode {
    pub expression: ExpressionNode,
}

/// A `return` statement carrying the function result expression.
#[derive(Debug, PartialEq)]
pub struct ReturnStatementNode {
    pub expression: ExpressionNode,
}

/// A declaration: a direct (scalar or array) name or a pointer name.
#[derive(Debug, PartialEq)]
pub enum DeclareNode {
    Direct(DirectDeclareNode),
    Pointer(PointerDeclareNode),
}

/// A direct declaration: a scalar variable or an array.
#[derive(Debug, PartialEq)]
pub enum DirectDeclareNode {
    Variable(VariableDeclareNode),
    Array(ArrayDeclareNode),
}

/// A scalar variable declaration with an optional initializer expression.
/// The initializer, when present, is the whole assignment expression.
#[derive(Debug, PartialEq)]
pub struct VariableDeclareNode {
    pub identifier: String,
    pub init_expression: Option<ExpressionNode>,
}

/// An array declaration with its literal dimension sizes in source order.
#[derive(Debug, PartialEq)]
pub struct ArrayDeclareNode {
    pub identifier: String,
    pub init_sizes: Vec<u32>,
}

/// A pointer declaration. It is never initialized at declaration.
#[derive(Debug, PartialEq)]
pub struct PointerDeclareNode {
    pub identifier: String,
}

/// An expression: a unary term or a binary operation.
#[derive(Debug, PartialEq)]
pub enum ExpressionNode {
    Unary(UnaryNode),
    Binary(BinaryNode),
}

/// A binary operation: the operator token and the owned operands.
#[derive(Debug, PartialEq)]
pub struct BinaryNode {
    pub op: Token,
    pub lhs: Box<ExpressionNode>,
    pub rhs: Box<ExpressionNode>,
}

/// A unary term: a primary, a prefixed primary, or a suffixed identifier.
#[derive(Debug, PartialEq)]
pub enum UnaryNode {
    Primary(PrimaryNode),
    Prefix(PrefixNode),
    Suffix(SuffixNode),
}

/// A prefix operation (`*` or `&`) applied to a primary.
#[derive(Debug, PartialEq)]
pub struct PrefixNode {
    pub op: String,
    pub val: PrimaryNode,
}

/// A primary term: a numeric literal token or an identifier token.
#[derive(Debug, PartialEq)]
pub struct PrimaryNode {
    pub token: Token,
}

/// A suffixed identifier: an array element access or a function call.
#[derive(Debug, PartialEq)]
pub enum SuffixNode {
    Array(ArrayAccessNode),
    FunctionCall(FunctionCallNode),
}

/// An array element read.
#[derive(Debug, PartialEq)]
pub struct ArrayAccessNode {
    pub array_element: ArrayElementNode,
}

/// An array element designator: the base identifier and one index
/// expression per dimension, outermost first.
#[derive(Debug, PartialEq)]
pub struct ArrayElementNode {
    pub identifier: String,
    pub indexer_nodes: Vec<ExpressionNode>,
}

/// A call of an already emitted function with its argument expressions.
#[derive(Debug, PartialEq)]
pub struct FunctionCallNode {
    pub identifier: String,
    pub parameters: Vec<ExpressionNode>,
}

// ---------------------------------------------------------------------------
// Mathematical values of the nodes.
// ---------------------------------------------------------------------------

pub struct NodeView {
    pub declares: Seq<TopLevelDeclareNodeView>,
}

pub enum TopLevelDeclareNodeView {
    Function(FunctionNodeView),
}

pub struct FunctionNodeView {
    pub identifier: Seq<char>,
    pub arguments: Seq<DeclareNodeView>,
    pub statements: StatementsNodeView,
}

pub struct StatementsNodeView {
    pub statements: Seq<StatementNodeView>,
}

pub enum StatementNodeView {
    Declare(DeclareStatementNodeView),
    Expression(ExpressionStatementNodeView),
    Return(ReturnStatementNodeView),
}

pub struct DeclareStatementNodeView {
    pub declare: DeclareNodeView,
}

pub struct ExpressionStatementNodeView {
    pub expression: ExpressionNodeView,
}

pub struct ReturnStatementNodeView {
    pub expression: ExpressionNodeView,
}

pub enum DeclareNodeView {
    Direct(DirectDeclareNodeView),
    Pointer(PointerDeclareNodeView),
}

pub enum DirectDeclareNodeView {
    Variable(VariableDeclareNodeView),
    Array(ArrayDeclareNodeView),
}

pub struct VariableDeclareNodeView {
    pub identifier: Seq<char>,
    pub init_expression: Option<ExpressionNodeView>,
}

pub struct ArrayDeclareNodeView {
    pub identifier: Seq<char>,
    pub init_sizes: Seq<u32>,
}

pub struct PointerDeclareNodeView {
    pub identifier: Seq<char>,
}

pub enum ExpressionNodeView {
    Unary(UnaryNodeView),
    Binary(BinaryNodeView),
}

pub struct BinaryNodeView {
    pub op: TokenView,
    pub lhs: Box<ExpressionNodeView>,
    pub rhs: Box<ExpressionNodeView>,
}

pub enum UnaryNodeView {
    Primary(PrimaryNodeView),
    Prefix(PrefixNodeView),
    Suffix(SuffixNodeView),
}

pub struct PrefixNodeView {
    pub op: Seq<char>,
    pub val: PrimaryNodeView,
}

pub struct PrimaryNodeView {
    pub token: TokenView,
}

pub enum SuffixNodeView {
    Array(ArrayAccessNodeView),
    FunctionCall(FunctionCallNodeView),
}

pub struct ArrayAccessNodeView {
    pub array_element: ArrayElementNodeView,
}

pub struct ArrayElementNodeView {
    pub identifier: Seq<char>,
    pub indexer_nodes: Seq<ExpressionNodeView>,
}

pub struct FunctionCallNodeView {
    pub identifier: Seq<char>,
    pub parameters: Seq<ExpressionNodeView>,
}

// ---------------------------------------------------------------------------
// View functions. The recursion is written as free spec functions so that
// the `View` impls themselves are plain wrappers.
// ---------------------------------------------------------------------------

pub open spec fn spec_view_primary(p: PrimaryNode) -> PrimaryNodeView {
    PrimaryNodeView { token: p.token@ }
}

pub open spec fn spec_view_expr(e: ExpressionNode) -> ExpressionNodeView
    decreases e,
{
    match e {
        ExpressionNode::Unary(u) => ExpressionNodeView::Unary(spec_view_unary(u)),
        ExpressionNode::Binary(b) => ExpressionNodeView::Binary(BinaryNodeView {
            op: b.op@,
            lhs: Box::new(spec_view_expr(*b.lhs)),
            rhs: Box::new(spec_view_expr(*b.rhs)),
        }),
    }
}

pub open spec fn spec_view_exprs(v: Vec<ExpressionNode>) -> Seq<ExpressionNodeView>
    decreases v,
{
    Seq::new(
        v@.len(),
        |i: int|
            if 0 <= i < v@.len() {
                spec_view_expr(v@[i])
            } else {
                vstd::pervasive::arbitrary()
            },
    )
}

pub open spec fn spec_view_unary(u: UnaryNode) -> UnaryNodeView
    decreases u,
{
    match u {
        UnaryNode::Primary(p) => UnaryNodeView::Primary(spec_view_primary(p)),
        UnaryNode::Prefix(p) => UnaryNodeView::Prefix(PrefixNodeView {
            op: p.op@,
            val: spec_view_primary(p.val),
        }),
        UnaryNode::Suffix(s) => UnaryNodeView::Suffix(spec_view_suffix(s)),
    }
}

pub open spec fn spec_view_suffix(s: SuffixNode) -> SuffixNodeView
    decreases s,
{
    match s {
        SuffixNode::Array(a) => SuffixNodeView::Array(ArrayAccessNodeView {
            array_element: spec_view_array_element(a.array_element),
        }),
        SuffixNode::FunctionCall(f) => SuffixNodeView::FunctionCall(FunctionCallNodeView {
            identifier: f.identifier@,
            parameters: spec_view_exprs(f.parameters),
        }),
    }
}

pub open spec fn spec_view_array_element(a: ArrayElementNode) -> ArrayElementNodeView
    decreases a,
{
    ArrayElementNodeView {
        identifier: a.identifier@,
        indexer_nodes: spec_view_exprs(a.indexer_nodes),
    }
}

pub open spec fn spec_view_declare(d: DeclareNode) -> DeclareNodeView
    decreases d,
{
    match d {
        DeclareNode::Direct(dd) => DeclareNodeView::Direct(spec_view_direct(dd)),
        DeclareNode::Pointer(p) => DeclareNodeView::Pointer(PointerDeclareNodeView {
            identifier: p.identifier@,
        }),
    }
}

pub open spec fn spec_view_direct(d: DirectDeclareNode) -> DirectDeclareNodeView
    decreases d,
{
    match d {
        DirectDeclareNode::Variable(v) => DirectDeclareNodeView::Variable(
            VariableDeclareNodeView {
                identifier: v.identifier@,
                init_expression: match v.init_expression {
                    Some(e) => Some(spec_view_expr(e)),
                    None => None,
                },
            },
        ),
        DirectDeclareNode::Array(a) => DirectDeclareNodeView::Array(ArrayDeclareNodeView {
            identifier: a.identifier@,
            init_sizes: a.init_sizes@,
        }),
    }
}

pub open spec fn spec_view_declares(v: Vec<DeclareNode>) -> Seq<DeclareNodeView>
    decreases v,
{
    Seq::new(
        v@.len(),
        |i: int|
            if 0 <= i < v@.len() {
                spec_view_declare(v@[i])
            } else {
                vstd::pervasive::arbitrary()
            },
    )
}

pub open spec fn spec_view_stmt(s: StatementNode) -> StatementNodeView
    decreases s,
{
    match s {
        StatementNode::Declare(d) => StatementNodeView::Declare(DeclareStatementNodeView {
            declare: spec_view_declare(d.declare),
        }),
        StatementNode::Expression(e) => StatementNodeView::Expression(
            ExpressionStatementNodeView { expression: spec_view_expr(e.expression) },
        ),
        StatementNode::Return(r) => StatementNodeView::Return(ReturnStatementNodeView {
            expression: spec_view_expr(r.expression),
        }),
    }
}

pub open spec fn spec_view_stmts(v: Vec<StatementNode>) -> Seq<StatementNodeView>
    decreases v,
{
    Seq::new(
        v@.len(),
        |i: int|
            if 0 <= i < v@.len() {
                spec_view_stmt(v@[i])
            } else {
                vstd::pervasive::arbitrary()
            },
    )
}

pub open spec fn spec_view_function(f: FunctionNode) -> FunctionNodeView
    decreases f,
{
    FunctionNodeView {
        identifier: f.identifier@,
        arguments: spec_view_declares(f.arguments),
        statements: StatementsNodeView { statements: spec_view_stmts(f.statements.statements) },
    }
}

pub open spec fn spec_view_top_level(d: TopLevelDeclareNode) -> TopLevelDeclareNodeView
    decreases d,
{
    match d {
        TopLevelDeclareNode::Function(f) => TopLevelDeclareNodeView::Function(
            spec_view_function(f),
        ),
    }
}

pub open spec fn spec_view_top_levels(v: Vec<TopLevelDeclareNode>) -> Seq<
    TopLevelDeclareNodeView,
>
    decreases v,
{
    Seq::new(
        v@.len(),
        |i: int|
            if 0 <= i < v@.len() {
                spec_view_top_level(v@[i])
            } else {
                vstd::pervasive::arbitrary()
            },
    )
}

impl View for ExpressionNode {
    type V = ExpressionNodeView;

    open spec fn view(&self) -> ExpressionNodeView {
        spec_view_expr(*self)
    }
}

impl View for UnaryNode {
    type V = UnaryNodeView;

    open spec fn view(&self) -> UnaryNodeView {
        spec_view_unary(*self)
    }
}

impl View for PrimaryNode {
    type V = PrimaryNodeView;

    open spec fn view(&self) -> PrimaryNodeView {
        spec_view_primary(*self)
    }
}

impl View for PrefixNode {
    type V = PrefixNodeView;

    open spec fn view(&self) -> PrefixNodeView {
        PrefixNodeView { op: self.op@, val: spec_view_primary(self.val) }
    }
}

impl View for SuffixNode {
    type V = SuffixNodeView;

    open spec fn view(&self) -> SuffixNodeView {
        spec_view_suffix(*self)
    }
}

impl View for ArrayAccessNode {
    type V = ArrayAccessNodeView;

    open spec fn view(&self) -> ArrayAccessNodeView {
        ArrayAccessNodeView { array_element: spec_view_array_element(self.array_element) }
    }
}

impl View for ArrayElementNode {
    type V = ArrayElementNodeView;

    open spec fn view(&self) -> ArrayElementNodeView {
        spec_view_array_element(*self)
    }
}

impl View for FunctionCallNode {
    type V = FunctionCallNodeView;

    open spec fn view(&self) -> FunctionCallNodeView {
        FunctionCallNodeView { identifier: self.identifier@, parameters: spec_view_exprs(self.parameters) }
    }
}

impl View for BinaryNode {
    type V = BinaryNodeView;

    open spec fn view(&self) -> BinaryNodeView {
        BinaryNodeView {
            op: self.op@,
            lhs: Box::new(spec_view_expr(*self.lhs)),
            rhs: Box::new(spec_view_expr(*self.rhs)),
        }
    }
}

impl View for DeclareNode {
    type V = DeclareNodeView;

    open spec fn view(&self) -> DeclareNodeView {
        spec_view_declare(*self)
    }
}

impl View for DirectDeclareNode {
    type V = DirectDeclareNodeView;

    open spec fn view(&self) -> DirectDeclareNodeView {
        spec_view_direct(*self)
    }
}

impl View for VariableDeclareNode {
    type V = VariableDeclareNodeView;

    open spec fn view(&self) -> VariableDeclareNodeView {
        VariableDeclareNodeView {
            identifier: self.identifier@,
            init_expression: match self.init_expression {
                Some(e) => Some(spec_view_expr(e)),
                None => None,
            },
        }
    }
}

impl View for ArrayDeclareNode {
    type V = ArrayDeclareNodeView;

    open spec fn view(&self) -> ArrayDeclareNodeView {
        ArrayDeclareNodeView { identifier: self.identifier@, init_sizes: self.init_sizes@ }
    }
}

impl View for PointerDeclareNode {
    type V = PointerDeclareNodeView;

    open spec fn view(&self) -> PointerDeclareNodeView {
        PointerDeclareNodeView { identifier: self.identifier@ }
    }
}

impl View for StatementNode {
    type V = StatementNodeView;

    open spec fn view(&self) -> StatementNodeView {
        spec_view_stmt(*self)
    }
}

impl View for DeclareStatementNode {
    type V = DeclareStatementNodeView;

    open spec fn view(&self) -> DeclareStatementNodeView {
        DeclareStatementNodeView { declare: spec_view_declare(self.declare) }
    }
}

impl View for ExpressionStatementNode {
    type V = ExpressionStatementNodeView;

    open spec fn view(&self) -> ExpressionStatementNodeView {
        ExpressionStatementNodeView { expression: spec_view_expr(self.expression) }
    }
}

impl View for ReturnStatementNode {
    type V = ReturnStatementNodeView;

    open spec fn view(&self) -> ReturnStatementNodeView {
        ReturnStatementNodeView { expression: spec_view_expr(self.expression) }
    }
}

impl View for StatementsNode {
    type V = StatementsNodeView;

    open spec fn view(&self) -> StatementsNodeView {
        StatementsNodeView { statements: spec_view_stmts(self.statements) }
    }
}

impl View for FunctionNode {
    type V = FunctionNodeView;

    open spec fn view(&self) -> FunctionNodeView {
        spec_view_function(*self)
    }
}

impl View for TopLevelDeclareNode {
    type V = TopLevelDeclareNodeView;

    open spec fn view(&self) -> TopLevelDeclareNodeView {
        spec_view_top_level(*self)
    }
}

impl View for Node {
    type V = NodeView;

    open spec fn view(&self) -> NodeView {
        NodeView { declares: spec_view_top_levels(self.declares) }
    }
}

} // verus!
