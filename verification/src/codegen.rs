//! The code generator: a single pass over the syntax tree that issues
//! builder operations in traversal order and keeps the symbol table of the
//! function being emitted. Every emit function is specified against a
//! mathematical emission function over the views, so the generated module
//! is provably a function of the tree and the builder state alone.

use vstd::prelude::*;
use crate::token::TokenView;
use crate::ast::{
    ArrayAccessNode, ArrayAccessNodeView, ArrayDeclareNode, ArrayDeclareNodeView,
    ArrayElementNode, ArrayElementNodeView, BinaryNode, BinaryNodeView, DeclareNode,
    DeclareNodeView, DeclareStatementNode, DeclareStatementNodeView, DirectDeclareNode,
    DirectDeclareNodeView, ExpressionNode, ExpressionNodeView, ExpressionStatementNode,
    ExpressionStatementNodeView, FunctionCallNode, FunctionCallNodeView, FunctionNode,
    FunctionNodeView, Node, NodeView, PointerDeclareNode, PointerDeclareNodeView, PrefixNode,
    PrefixNodeView, PrimaryNode, PrimaryNodeView, ReturnStatementNode, ReturnStatementNodeView,
    StatementNode, StatementNodeView, StatementsNode, StatementsNodeView, SuffixNode,
    SuffixNodeView, TopLevelDeclareNode, TopLevelDeclareNodeView, UnaryNode, UnaryNodeView,
    VariableDeclareNode, VariableDeclareNodeView,
};
use crate::ir::{
    CodeGenError, CodeGenErrorView, Emitter, EmitterView, InstructionView, IntValue,
    IrFunctionView, PointerValue, Value, Variable, VariableView, IntVariable, ArrayVariable,
    spec_env_get, spec_env_update, spec_find_function, spec_next_id, spec_push_instruction,
};
use crate::parser::{spec_is_char, spec_parse_u64, spec_primary_number};

verus! {

broadcast use vstd::seq::axiom_seq_index_decreases, vstd::seq::axiom_seq_subrange_decreases;

// ---------------------------------------------------------------------------
// The mathematical emission functions.
// ---------------------------------------------------------------------------

/// The id the next emitted instruction will carry, as a handle index.
pub open spec fn em_next(em: EmitterView) -> usize {
    spec_next_id(em.module) as usize
}

/// The state after emitting one instruction into the open function.
pub open spec fn em_after(em: EmitterView, ins: InstructionView) -> EmitterView {
    EmitterView { module: spec_push_instruction(em.module, ins), env: em.env }
}

/// The state after rebinding a name in the symbol table.
pub open spec fn em_bind(em: EmitterView, key: Seq<char>, var: VariableView) -> EmitterView {
    EmitterView { module: em.module, env: spec_env_update(em.env, key, var) }
}

/// The declared name of a declaration, whatever its shape.
pub open spec fn spec_declare_identifier(d: DeclareNodeView) -> Seq<char> {
    match d {
        DeclareNodeView::Direct(DirectDeclareNodeView::Variable(v)) => v.identifier,
        DeclareNodeView::Direct(DirectDeclareNodeView::Array(a)) => a.identifier,
        DeclareNodeView::Pointer(p) => p.identifier,
    }
}

/// Emitting a primary: a literal becomes a constant, an identifier a load
/// of its scalar slot.
pub open spec fn spec_emit_primary(p: PrimaryNodeView, em: EmitterView) -> Result<
    (Value, EmitterView),
    CodeGenErrorView,
> {
    match p.token {
        TokenView::Num(s) => match spec_parse_u64(s) {
            Some(v) => Ok(
                (
                    Value::Int(IntValue { id: em_next(em) }),
                    em_after(em, InstructionView::ConstInt(v)),
                ),
            ),
            None => Err(CodeGenErrorView::BadLiteral),
        },
        TokenView::Ide(name) => match spec_env_get(em.env, name) {
            Some(VariableView::Int(n, pointer)) => Ok(
                (
                    Value::Int(IntValue { id: em_next(em) }),
                    em_after(em, InstructionView::Load(pointer.id)),
                ),
            ),
            Some(VariableView::Array(n, pointer)) => Err(CodeGenErrorView::NotScalar),
            Some(VariableView::Null) => Err(CodeGenErrorView::NotScalar),
            None => Err(CodeGenErrorView::UndeclaredIdentifier(name)),
        },
        _ => Err(CodeGenErrorView::InvalidPrimary),
    }
}

/// Emitting a prefix operation. Dereference and address-of both compile to
/// a load of the named scalar's value, the source language's one level
/// pointer simplification.
pub open spec fn spec_emit_prefix(pf: PrefixNodeView, em: EmitterView) -> Result<
    (Value, EmitterView),
    CodeGenErrorView,
> {
    if spec_is_char(pf.op, '*') || spec_is_char(pf.op, '&') {
        match pf.val.token {
            TokenView::Ide(name) => match spec_env_get(em.env, name) {
                Some(VariableView::Int(n, pointer)) => Ok(
                    (
                        Value::Int(IntValue { id: em_next(em) }),
                        em_after(em, InstructionView::Load(pointer.id)),
                    ),
                ),
                Some(VariableView::Array(n, pointer)) => Err(CodeGenErrorView::NotScalar),
                Some(VariableView::Null) => Err(CodeGenErrorView::NotScalar),
                None => Err(CodeGenErrorView::UndeclaredIdentifier(name)),
            },
            _ => Err(CodeGenErrorView::NotAnIdentifier),
        }
    } else {
        Err(CodeGenErrorView::OperatorNotImplemented(pf.op))
    }
}

/// Emitting the element address chain: for each index expression in outer
/// to inner order, evaluate the index and step one array level down.
pub open spec fn spec_emit_gep_chain(
    es: Seq<ExpressionNodeView>,
    pointer: PointerValue,
    em: EmitterView,
) -> Result<(PointerValue, EmitterView), CodeGenErrorView>
    decreases es,
{
    if es.len() == 0 {
        Ok((pointer, em))
    } else {
        match spec_emit_expression(es[0], em) {
            Ok((v, em1)) => match v {
                Value::Int(idx) => spec_emit_gep_chain(
                    es.subrange(1, es.len() as int),
                    PointerValue { id: em_next(em1) },
                    em_after(em1, InstructionView::Gep(pointer.id, idx.id)),
                ),
                _ => Err(CodeGenErrorView::NotAnInt),
            },
            Err(e) => Err(e),
        }
    }
}

/// Emitting the writable or readable address of an array element chain.
pub open spec fn spec_emit_array_element_ptr(
    ae: ArrayElementNodeView,
    em: EmitterView,
) -> Result<(PointerValue, EmitterView), CodeGenErrorView>
    decreases ae,
{
    match spec_env_get(em.env, ae.identifier) {
        Some(var) => {
            let base = match var {
                VariableView::Int(n, p) => p,
                VariableView::Array(n, p) => p,
                VariableView::Null => PointerValue { id: 0 },
            };
            if var is Null {
                Err(CodeGenErrorView::NotScalar)
            } else if ae.indexer_nodes.len() == 0 {
                Err(CodeGenErrorView::ArrayWithoutIndex)
            } else {
                spec_emit_gep_chain(ae.indexer_nodes, base, em)
            }
        },
        None => Err(CodeGenErrorView::UndeclaredIdentifier(ae.identifier)),
    }
}

/// Emitting an array element read: resolve the address, then load it.
pub open spec fn spec_emit_array_access(aa: ArrayAccessNodeView, em: EmitterView) -> Result<
    (Value, EmitterView),
    CodeGenErrorView,
>
    decreases aa,
{
    match spec_emit_array_element_ptr(aa.array_element, em) {
        Ok((pointer, em1)) => Ok(
            (
                Value::Int(IntValue { id: em_next(em1) }),
                em_after(em1, InstructionView::Load(pointer.id)),
            ),
        ),
        Err(e) => Err(e),
    }
}

/// Emitting the arguments of a call, left to right, each to an integer.
pub open spec fn spec_emit_args(es: Seq<ExpressionNodeView>, em: EmitterView) -> Result<
    (Seq<usize>, EmitterView),
    CodeGenErrorView,
>
    decreases es,
{
    if es.len() == 0 {
        Ok((Seq::empty(), em))
    } else {
        match spec_emit_expression(es[0], em) {
            Ok((v, em1)) => match v {
                Value::Int(idx) => match spec_emit_args(es.subrange(1, es.len() as int), em1) {
                    Ok((ids, em2)) => Ok((seq![idx.id] + ids, em2)),
                    Err(e) => Err(e),
                },
                _ => Err(CodeGenErrorView::NotAnInt),
            },
            Err(e) => Err(e),
        }
    }
}

/// Emitting a call: the callee must already have been emitted; arguments
/// are evaluated left to right; the call's value is an integer.
pub open spec fn spec_emit_function_call(fc: FunctionCallNodeView, em: EmitterView) -> Result<
    (Value, EmitterView),
    CodeGenErrorView,
>
    decreases fc,
{
    match spec_find_function(em.module.functions, fc.identifier) {
        Some(fidx) => match spec_emit_args(fc.parameters, em) {
            Ok((ids, em1)) => Ok(
                (
                    Value::Int(IntValue { id: em_next(em1) }),
                    em_after(em1, InstructionView::Call(fidx as usize, ids)),
                ),
            ),
            Err(e) => Err(e),
        },
        None => Err(CodeGenErrorView::UndefinedReference(fc.identifier)),
    }
}

/// Emitting a suffixed term.
pub open spec fn spec_emit_suffix(s: SuffixNodeView, em: EmitterView) -> Result<
    (Value, EmitterView),
    CodeGenErrorView,
>
    decreases s,
{
    match s {
        SuffixNodeView::Array(aa) => spec_emit_array_access(aa, em),
        SuffixNodeView::FunctionCall(fc) => spec_emit_function_call(fc, em),
    }
}

/// Emitting a unary term.
pub open spec fn spec_emit_unary(u: UnaryNodeView, em: EmitterView) -> Result<
    (Value, EmitterView),
    CodeGenErrorView,
>
    decreases u,
{
    match u {
        UnaryNodeView::Primary(p) => spec_emit_primary(p, em),
        UnaryNodeView::Prefix(pf) => spec_emit_prefix(pf, em),
        UnaryNodeView::Suffix(s) => spec_emit_suffix(s, em),
    }
}

/// Resolving the left hand side of an assignment to an address: a plain
/// identifier resolves through the symbol table, an array element chain
/// through the address computation; every other shape is rejected.
pub open spec fn spec_emit_assign_target(lhs: ExpressionNodeView, em: EmitterView) -> Result<
    (PointerValue, EmitterView),
    CodeGenErrorView,
>
    decreases lhs,
{
    match lhs {
        ExpressionNodeView::Unary(u) => match u {
            UnaryNodeView::Primary(p) => match p.token {
                TokenView::Ide(name) => match spec_env_get(em.env, name) {
                    Some(VariableView::Int(n, pointer)) => Ok((pointer, em)),
                    Some(VariableView::Array(n, pointer)) => Ok((pointer, em)),
                    Some(VariableView::Null) => Err(CodeGenErrorView::InvalidAssignTarget),
                    None => Err(CodeGenErrorView::UndeclaredIdentifier(name)),
                },
                _ => Err(CodeGenErrorView::NotAnIdentifier),
            },
            UnaryNodeView::Suffix(sfx) => match sfx {
                SuffixNodeView::Array(aa) => spec_emit_array_element_ptr(aa.array_element, em),
                SuffixNodeView::FunctionCall(fc) => Err(CodeGenErrorView::AssignToCall),
            },
            UnaryNodeView::Prefix(pf) => Err(CodeGenErrorView::InvalidAssignTarget),
        },
        ExpressionNodeView::Binary(b) => Err(CodeGenErrorView::InvalidAssignTarget),
    }
}

/// Emitting a binary node: assignment stores the right hand side's integer
/// at the left hand side's address and has no value; the four arithmetic
/// operators evaluate both operands left to right.
pub open spec fn spec_emit_binary(b: BinaryNodeView, em: EmitterView) -> Result<
    (Value, EmitterView),
    CodeGenErrorView,
>
    decreases b,
{
    match b.op {
        TokenView::Op(op, prop) => {
            if spec_is_char(op, '=') {
                match spec_emit_assign_target(*b.lhs, em) {
                    Ok((pointer, em1)) => match spec_emit_expression(*b.rhs, em1) {
                        Ok((v, em2)) => match v {
                            Value::Int(val) => Ok(
                                (
                                    Value::Null,
                                    em_after(em2, InstructionView::Store(pointer.id, val.id)),
                                ),
                            ),
                            _ => Err(CodeGenErrorView::NotAnInt),
                        },
                        Err(e) => Err(e),
                    },
                    Err(e) => Err(e),
                }
            } else {
                match spec_emit_expression(*b.lhs, em) {
                    Ok((lv, em1)) => match lv {
                        Value::Int(a) => match spec_emit_expression(*b.rhs, em1) {
                            Ok((rv, em2)) => match rv {
                                Value::Int(c) => {
                                    if spec_is_char(op, '+') {
                                        Ok(
                                            (
                                                Value::Int(IntValue { id: em_next(em2) }),
                                                em_after(
                                                    em2,
                                                    InstructionView::Add(a.id, c.id),
                                                ),
                                            ),
                                        )
                                    } else if spec_is_char(op, '-') {
                                        Ok(
                                            (
                                                Value::Int(IntValue { id: em_next(em2) }),
                                                em_after(
                                                    em2,
                                                    InstructionView::Sub(a.id, c.id),
                                                ),
                                            ),
                                        )
                                    } else if spec_is_char(op, '*') {
                                        Ok(
                                            (
                                                Value::Int(IntValue { id: em_next(em2) }),
                                                em_after(
                                                    em2,
                                                    InstructionView::Mul(a.id, c.id),
                                                ),
                                            ),
                                        )
                                    } else if spec_is_char(op, '/') {
                                        Ok(
                                            (
                                                Value::Int(IntValue { id: em_next(em2) }),
                                                em_after(
                                                    em2,
                                                    InstructionView::UDiv(a.id, c.id),
                                                ),
                                            ),
                                        )
                                    } else {
                                        Err(CodeGenErrorView::OperatorNotImplemented(op))
                                    }
                                },
                                _ => Err(CodeGenErrorView::NotAnInt),
                            },
                            Err(e) => Err(e),
                        },
                        _ => Err(CodeGenErrorView::NotAnInt),
                    },
                    Err(e) => Err(e),
                }
            }
        },
        _ => Err(CodeGenErrorView::NotAnOperator),
    }
}

/// Emitting one expression.
pub open spec fn spec_emit_expression(e: ExpressionNodeView, em: EmitterView) -> Result<
    (Value, EmitterView),
    CodeGenErrorView,
>
    decreases e,
{
    match e {
        ExpressionNodeView::Unary(u) => spec_emit_unary(u, em),
        ExpressionNodeView::Binary(b) => spec_emit_binary(b, em),
    }
}

/// Emitting a scalar variable declaration: allocate a slot, bind the name,
/// and evaluate the initializer, whose value is the statement's value.
pub open spec fn spec_emit_variable_declare(
    v: VariableDeclareNodeView,
    em: EmitterView,
) -> Result<(Value, EmitterView), CodeGenErrorView>
    decreases v,
{
    let pointer = PointerValue { id: em_next(em) };
    let em1 = em_after(em, InstructionView::Alloca(Seq::empty()));
    let em2 = em_bind(em1, v.identifier, VariableView::Int(v.identifier, pointer));
    match v.init_expression {
        Some(e) => spec_emit_expression(e, em2),
        None => Ok((Value::Null, em2)),
    }
}

/// Emitting an array declaration: the one redefinition guard of the
/// language. The name must be fresh; the slot has the declared shape.
pub open spec fn spec_emit_array_declare(a: ArrayDeclareNodeView, em: EmitterView) -> Result<
    (Value, EmitterView),
    CodeGenErrorView,
> {
    if a.init_sizes.len() == 0 {
        Err(CodeGenErrorView::ArrayWithoutSize)
    } else {
        match spec_env_get(em.env, a.identifier) {
            Some(v) => Err(CodeGenErrorView::Redefinition(a.identifier)),
            None => {
                let pointer = PointerValue { id: em_next(em) };
                let em1 = em_after(em, InstructionView::Alloca(a.init_sizes));
                let em2 = em_bind(em1, a.identifier, VariableView::Array(a.identifier, pointer));
                Ok((Value::Null, em2))
            },
        }
    }
}

/// Emitting a pointer declaration: a scalar slot, silently rebindable.
pub open spec fn spec_emit_pointer_declare(p: PointerDeclareNodeView, em: EmitterView) -> Result<
    (Value, EmitterView),
    CodeGenErrorView,
> {
    let pointer = PointerValue { id: em_next(em) };
    let em1 = em_after(em, InstructionView::Alloca(Seq::empty()));
    let em2 = em_bind(em1, p.identifier, VariableView::Int(p.identifier, pointer));
    Ok((Value::Null, em2))
}

/// Emitting a direct declaration.
pub open spec fn spec_emit_direct_declare(d: DirectDeclareNodeView, em: EmitterView) -> Result<
    (Value, EmitterView),
    CodeGenErrorView,
>
    decreases d,
{
    match d {
        DirectDeclareNodeView::Variable(v) => spec_emit_variable_declare(v, em),
        DirectDeclareNodeView::Array(a) => spec_emit_array_declare(a, em),
    }
}

/// Emitting a declaration.
pub open spec fn spec_emit_declare(d: DeclareNodeView, em: EmitterView) -> Result<
    (Value, EmitterView),
    CodeGenErrorView,
>
    decreases d,
{
    match d {
        DeclareNodeView::Direct(dd) => spec_emit_direct_declare(dd, em),
        DeclareNodeView::Pointer(p) => spec_emit_pointer_declare(p, em),
    }
}

/// Emitting one statement. A return evaluates its expression and issues
/// the function's return; its value, like an assignment's, is nothing.
pub open spec fn spec_emit_statement(s: StatementNodeView, em: EmitterView) -> Result<
    (Value, EmitterView),
    CodeGenErrorView,
>
    decreases s,
{
    match s {
        StatementNodeView::Declare(d) => spec_emit_declare(d.declare, em),
        StatementNodeView::Expression(e) => spec_emit_expression(e.expression, em),
        StatementNodeView::Return(r) => match spec_emit_expression(r.expression, em) {
            Ok((v, em1)) => match v {
                Value::Int(val) => Ok(
                    (Value::Null, em_after(em1, InstructionView::Ret(val.id))),
                ),
                _ => Err(CodeGenErrorView::NotAnInt),
            },
            Err(e) => Err(e),
        },
    }
}

/// Emitting a statement list in order, discarding statement values.
pub open spec fn spec_emit_statements(ss: Seq<StatementNodeView>, em: EmitterView) -> Result<
    EmitterView,
    CodeGenErrorView,
>
    decreases ss,
{
    if ss.len() == 0 {
        Ok(em)
    } else {
        match spec_emit_statement(ss[0], em) {
            Ok((v, em1)) => spec_emit_statements(ss.subrange(1, ss.len() as int), em1),
            Err(e) => Err(e),
        }
    }
}

/// Emitting the parameter prologue: for each parameter in order, read its
/// incoming value, allocate a slot, store the value, and bind the name.
pub open spec fn spec_emit_param_setup(
    args: Seq<DeclareNodeView>,
    k: int,
    em: EmitterView,
) -> EmitterView
    decreases args,
{
    if args.len() == 0 {
        em
    } else {
        let name = spec_declare_identifier(args[0]);
        let pid = IntValue { id: em_next(em) };
        let em1 = em_after(em, InstructionView::Param(k as usize));
        let pointer = PointerValue { id: em_next(em1) };
        let em2 = em_after(em1, InstructionView::Alloca(Seq::empty()));
        let em3 = em_after(em2, InstructionView::Store(pointer.id, pid.id));
        let em4 = em_bind(em3, name, VariableView::Int(name, pointer));
        spec_emit_param_setup(args.subrange(1, args.len() as int), k + 1, em4)
    }
}

/// Emitting one function: open it in the module, start a fresh symbol
/// table, set up the parameters, and emit the body statements in order.
pub open spec fn spec_emit_function(f: FunctionNodeView, em: EmitterView) -> Result<
    EmitterView,
    CodeGenErrorView,
>
    decreases f,
{
    let em0 = EmitterView {
        module: spec_push_function(em.module, f.identifier, f.arguments.len() as usize),
        env: Seq::empty(),
    };
    let em1 = spec_emit_param_setup(f.arguments, 0, em0);
    spec_emit_statements(f.statements.statements, em1)
}

/// The module with one new empty function opened at its end: the state
/// `add_function` leaves.
pub open spec fn spec_push_function(
    m: crate::ir::ModuleView,
    identifier: Seq<char>,
    n_params: usize,
) -> crate::ir::ModuleView {
    crate::ir::ModuleView {
        functions: m.functions.push(
            IrFunctionView { identifier, n_params, instructions: Seq::empty() },
        ),
    }
}

/// Emitting one top level declaration.
pub open spec fn spec_emit_top_level(d: TopLevelDeclareNodeView, em: EmitterView) -> Result<
    EmitterView,
    CodeGenErrorView,
>
    decreases d,
{
    match d {
        TopLevelDeclareNodeView::Function(f) => spec_emit_function(f, em),
    }
}

/// Emitting the top level declarations in order.
pub open spec fn spec_emit_top_levels(ds: Seq<TopLevelDeclareNodeView>, em: EmitterView) -> Result<
    EmitterView,
    CodeGenErrorView,
>
    decreases ds,
{
    if ds.len() == 0 {
        Ok(em)
    } else {
        match spec_emit_top_level(ds[0], em) {
            Ok(em1) => spec_emit_top_levels(ds.subrange(1, ds.len() as int), em1),
            Err(e) => Err(e),
        }
    }
}

/// Emitting a whole translation unit.
pub open spec fn spec_emit_program(n: NodeView, em: EmitterView) -> Result<
    EmitterView,
    CodeGenErrorView,
> {
    spec_emit_top_levels(n.declares, em)
}

// ---------------------------------------------------------------------------
// The executable code generator. Each emit function is proved equal to its
// mathematical emission function.
// ---------------------------------------------------------------------------

impl PrimaryNode {
    /// Emits a primary: a constant for a literal, a load for an identifier.
    pub fn emit(&self, emitter: &mut Emitter) -> (r: Result<Value, CodeGenError>)
        requires
            old(emitter).has_current(),
        ensures
            match r {
                Ok(v) => spec_emit_primary(self@, old(emitter)@) == Ok::<_, CodeGenErrorView>(
                    (v, final(emitter)@),
                ) && final(emitter).has_current(),
                Err(e) => spec_emit_primary(self@, old(emitter)@) == Err::<
                    (Value, EmitterView),
                    _,
                >(e@),
            },
    {
        match &self.token {
            crate::token::Token::Num(_) => {
                match self.get_number_u64() {
                    Some(num) => {
                        let c = emitter.build_const_int(num);
                        Ok(Value::Int(c))
                    },
                    None => Err(CodeGenError::BadLiteral),
                }
            },
            crate::token::Token::Ide(name) => {
                match emitter.environment.get(name) {
                    Some(Variable::Int(iv)) => {
                        let l = emitter.build_load(iv.pointer);
                        Ok(Value::Int(l))
                    },
                    Some(_) => Err(CodeGenError::NotScalar),
                    None => Err(CodeGenError::UndeclaredIdentifier(name.clone())),
                }
            },
            _ => Err(CodeGenError::InvalidPrimary),
        }
    }
}

impl PrefixNode {
    /// Emits a prefix operation: both `*` and `&` load the named scalar.
    pub fn emit(&self, emitter: &mut Emitter) -> (r: Result<Value, CodeGenError>)
        requires
            old(emitter).has_current(),
        ensures
            match r {
                Ok(v) => spec_emit_prefix(self@, old(emitter)@) == Ok::<_, CodeGenErrorView>(
                    (v, final(emitter)@),
                ) && final(emitter).has_current(),
                Err(e) => spec_emit_prefix(self@, old(emitter)@) == Err::<
                    (Value, EmitterView),
                    _,
                >(e@),
            },
    {
        if crate::parser::str_is_char(&self.op, '*') || crate::parser::str_is_char(&self.op, '&') {
            match &self.val.token {
                crate::token::Token::Ide(name) => {
                    match emitter.environment.get(name) {
                        Some(Variable::Int(iv)) => {
                            let l = emitter.build_load(iv.pointer);
                            Ok(Value::Int(l))
                        },
                        Some(_) => Err(CodeGenError::NotScalar),
                        None => Err(CodeGenError::UndeclaredIdentifier(name.clone())),
                    }
                },
                _ => Err(CodeGenError::NotAnIdentifier),
            }
        } else {
            Err(CodeGenError::OperatorNotImplemented(self.op.clone()))
        }
    }
}

impl ArrayElementNode {
    /// Emits the address of this element chain: the base slot's address,
    /// stepped one level down per index expression, outermost first.
    #[verifier::rlimit(100)]
    pub fn emit_pointer(&self, emitter: &mut Emitter) -> (r: Result<PointerValue, CodeGenError>)
        requires
            old(emitter).has_current(),
        ensures
            match r {
                Ok(p) => spec_emit_array_element_ptr(self@, old(emitter)@) == Ok::<
                    _,
                    CodeGenErrorView,
                >((p, final(emitter)@)) && final(emitter).has_current(),
                Err(e) => spec_emit_array_element_ptr(self@, old(emitter)@) == Err::<
                    (PointerValue, EmitterView),
                    _,
                >(e@),
            },
        decreases self,
    {
        let variable = match emitter.environment.get(&self.identifier) {
            Some(v) => v,
            None => {
                return Err(CodeGenError::UndeclaredIdentifier(self.identifier.clone()));
            },
        };
        let base = match variable {
            Variable::Int(iv) => iv.pointer,
            Variable::Array(av) => av.pointer,
            Variable::Null => {
                return Err(CodeGenError::NotScalar);
            },
        };
        let n = self.indexer_nodes.len();
        if n == 0 {
            return Err(CodeGenError::ArrayWithoutIndex);
        }
        let ghost full = self@.indexer_nodes;
        let mut pointer = base;
        let mut k: usize = 0;
        proof {
            assert(full.subrange(0, n as int) =~= full);
        }
        while k < n
            invariant
                old(emitter).has_current(),
                emitter.has_current(),
                0 <= k <= n,
                n == self.indexer_nodes.len(),
                full == self@.indexer_nodes,
                n == full.len(),
                spec_emit_array_element_ptr(self@, old(emitter)@) == spec_emit_gep_chain(
                    full.subrange(k as int, n as int),
                    pointer,
                    emitter@,
                ),
            decreases n - k,
        {
            let ghost rem = full.subrange(k as int, n as int);
            proof {
                assert(rem[0] == full[k as int]);
                assert(full[k as int] == crate::ast::spec_view_expr(self.indexer_nodes@[k as int]));
            }
            let v = match self.indexer_nodes[k].emit(emitter) {
                Ok(v) => v,
                Err(e) => {
                    return Err(e);
                },
            };
            let idx = match v {
                Value::Int(i) => i,
                _ => {
                    return Err(CodeGenError::NotAnInt);
                },
            };
            pointer = emitter.build_gep(pointer, idx);
            proof {
                assert(rem.subrange(1, rem.len() as int) =~= full.subrange(
                    k as int + 1,
                    n as int,
                ));
            }
            k = k + 1;
        }
        proof {
            assert(full.subrange(n as int, n as int) =~= Seq::<ExpressionNodeView>::empty());
        }
        Ok(pointer)
    }
}

impl ArrayAccessNode {
    /// Emits an array element read: the address, then a load of it.
    pub fn emit(&self, emitter: &mut Emitter) -> (r: Result<Value, CodeGenError>)
        requires
            old(emitter).has_current(),
        ensures
            match r {
                Ok(v) => spec_emit_array_access(self@, old(emitter)@) == Ok::<
                    _,
                    CodeGenErrorView,
                >((v, final(emitter)@)) && final(emitter).has_current(),
                Err(e) => spec_emit_array_access(self@, old(emitter)@) == Err::<
                    (Value, EmitterView),
                    _,
                >(e@),
            },
        decreases self,
    {
        let pointer = self.array_element.emit_pointer(emitter)?;
        let l = emitter.build_load(pointer);
        Ok(Value::Int(l))
    }
}

impl FunctionCallNode {
    /// Emits a call: the callee must already have been emitted; the
    /// arguments are evaluated left to right into integer values.
    #[verifier::rlimit(100)]
    pub fn emit(&self, emitter: &mut Emitter) -> (r: Result<Value, CodeGenError>)
        requires
            old(emitter).has_current(),
        ensures
            match r {
                Ok(v) => spec_emit_function_call(self@, old(emitter)@) == Ok::<
                    _,
                    CodeGenErrorView,
                >((v, final(emitter)@)) && final(emitter).has_current(),
                Err(e) => spec_emit_function_call(self@, old(emitter)@) == Err::<
                    (Value, EmitterView),
                    _,
                >(e@),
            },
        decreases self,
    {
        let fidx = match emitter.get_function(&self.identifier) {
            Some(i) => i,
            None => {
                return Err(CodeGenError::UndefinedReference(self.identifier.clone()));
            },
        };
        let n = self.parameters.len();
        let ghost full = self@.parameters;
        let mut ids: Vec<usize> = Vec::new();
        let mut k: usize = 0;
        proof {
            assert(full.subrange(0, n as int) =~= full);
            assert(ids@ =~= Seq::<usize>::empty());
        }
        while k < n
            invariant
                old(emitter).has_current(),
                emitter.has_current(),
                0 <= k <= n,
                n == self.parameters.len(),
                full == self@.parameters,
                n == full.len(),
                ids@.len() == k,
                spec_find_function(old(emitter)@.module.functions, self@.identifier) == Some(
                    fidx as int,
                ),
                match spec_emit_args(full.subrange(k as int, n as int), emitter@) {
                    Ok(p) => spec_emit_args(full, old(emitter)@) == Ok::<_, CodeGenErrorView>(
                        (ids@ + p.0, p.1),
                    ),
                    Err(e) => spec_emit_args(full, old(emitter)@) == Err::<
                        (Seq<usize>, EmitterView),
                        _,
                    >(e),
                },
            decreases n - k,
        {
            let ghost rem = full.subrange(k as int, n as int);
            proof {
                assert(rem[0] == full[k as int]);
                assert(full[k as int] == crate::ast::spec_view_expr(self.parameters@[k as int]));
            }
            let v = match self.parameters[k].emit(emitter) {
                Ok(v) => v,
                Err(e) => {
                    return Err(e);
                },
            };
            let idx = match v {
                Value::Int(i) => i,
                _ => {
                    return Err(CodeGenError::NotAnInt);
                },
            };
            let ghost ids0 = ids@;
            ids.push(idx.id);
            proof {
                assert(rem.subrange(1, rem.len() as int) =~= full.subrange(
                    k as int + 1,
                    n as int,
                ));
                assert forall|p0: Seq<usize>| true implies ids0 + (seq![idx.id] + p0) =~= ids@
                    + p0 by {
                    assert(ids0 + (seq![idx.id] + p0) =~= (ids0.push(idx.id)) + p0);
                    assert(ids@ =~= ids0.push(idx.id));
                }
            }
            k = k + 1;
        }
        proof {
            assert(full.subrange(n as int, n as int) =~= Seq::<ExpressionNodeView>::empty());
            assert(ids@ + Seq::<usize>::empty() =~= ids@);
        }
        let c = emitter.build_call(fidx, ids);
        Ok(Value::Int(c))
    }
}

impl SuffixNode {
    /// Emits a suffixed term.
    pub fn emit(&self, emitter: &mut Emitter) -> (r: Result<Value, CodeGenError>)
        requires
            old(emitter).has_current(),
        ensures
            match r {
                Ok(v) => spec_emit_suffix(self@, old(emitter)@) == Ok::<_, CodeGenErrorView>(
                    (v, final(emitter)@),
                ) && final(emitter).has_current(),
                Err(e) => spec_emit_suffix(self@, old(emitter)@) == Err::<
                    (Value, EmitterView),
                    _,
                >(e@),
            },
        decreases self,
    {
        match self {
            SuffixNode::Array(node) => node.emit(emitter),
            SuffixNode::FunctionCall(node) => node.emit(emitter),
        }
    }
}

impl UnaryNode {
    /// Emits a unary term.
    pub fn emit(&self, emitter: &mut Emitter) -> (r: Result<Value, CodeGenError>)
        requires
            old(emitter).has_current(),
        ensures
            match r {
                Ok(v) => spec_emit_unary(self@, old(emitter)@) == Ok::<_, CodeGenErrorView>(
                    (v, final(emitter)@),
                ) && final(emitter).has_current(),
                Err(e) => spec_emit_unary(self@, old(emitter)@) == Err::<
                    (Value, EmitterView),
                    _,
                >(e@),
            },
        decreases self,
    {
        match self {
            UnaryNode::Primary(node) => node.emit(emitter),
            UnaryNode::Prefix(node) => node.emit(emitter),
            UnaryNode::Suffix(node) => node.emit(emitter),
        }
    }
}

/// Resolves the left hand side of `=` to a writable address.
fn emit_assign_target(lhs: &ExpressionNode, emitter: &mut Emitter) -> (r: Result<
    PointerValue,
    CodeGenError,
>)
    requires
        old(emitter).has_current(),
    ensures
        match r {
            Ok(p) => spec_emit_assign_target(lhs@, old(emitter)@) == Ok::<_, CodeGenErrorView>(
                (p, final(emitter)@),
            ) && final(emitter).has_current(),
            Err(e) => spec_emit_assign_target(lhs@, old(emitter)@) == Err::<
                (PointerValue, EmitterView),
                _,
            >(e@),
        },
    decreases lhs,
{
    match lhs {
        ExpressionNode::Unary(u) => {
            proof {
                assert(lhs@ matches ExpressionNodeView::Unary(uv) && uv == u@);
            }
            match u {
                UnaryNode::Primary(p) => {
                    proof {
                        assert(u@ matches UnaryNodeView::Primary(pv) && pv == p@);
                    }
                    match &p.token {
                        crate::token::Token::Ide(name) => {
                            match emitter.environment.get(name) {
                                Some(Variable::Int(iv)) => Ok(iv.pointer),
                                Some(Variable::Array(av)) => Ok(av.pointer),
                                Some(Variable::Null) => Err(CodeGenError::InvalidAssignTarget),
                                None => Err(
                                    CodeGenError::UndeclaredIdentifier(name.clone()),
                                ),
                            }
                        },
                        _ => Err(CodeGenError::NotAnIdentifier),
                    }
                },
                UnaryNode::Suffix(sfx) => {
                    proof {
                        assert(u@ matches UnaryNodeView::Suffix(sv) && sv == sfx@);
                    }
                    match sfx {
                        SuffixNode::Array(aa) => {
                            proof {
                                assert(sfx@ matches SuffixNodeView::Array(av) && av == aa@);
                            }
                            aa.array_element.emit_pointer(emitter)
                        },
                        SuffixNode::FunctionCall(_) => Err(CodeGenError::AssignToCall),
                    }
                },
                UnaryNode::Prefix(_) => Err(CodeGenError::InvalidAssignTarget),
            }
        },
        ExpressionNode::Binary(_) => Err(CodeGenError::InvalidAssignTarget),
    }
}

impl BinaryNode {
    /// Emits a binary node: a store for `=`, an arithmetic instruction for
    /// the four operators, the error of record otherwise.
    #[verifier::rlimit(100)]
    pub fn emit(&self, emitter: &mut Emitter) -> (r: Result<Value, CodeGenError>)
        requires
            old(emitter).has_current(),
        ensures
            match r {
                Ok(v) => spec_emit_binary(self@, old(emitter)@) == Ok::<_, CodeGenErrorView>(
                    (v, final(emitter)@),
                ) && final(emitter).has_current(),
                Err(e) => spec_emit_binary(self@, old(emitter)@) == Err::<
                    (Value, EmitterView),
                    _,
                >(e@),
            },
        decreases self,
    {
        let (op, _property) = match &self.op {
            crate::token::Token::Op(op, p) => (op, p),
            _ => {
                return Err(CodeGenError::NotAnOperator);
            },
        };
        if crate::parser::str_is_char(op, '=') {
            let pointer = emit_assign_target(&self.lhs, emitter)?;
            let v = self.rhs.emit(emitter)?;
            let val = match v {
                Value::Int(x) => x,
                _ => {
                    return Err(CodeGenError::NotAnInt);
                },
            };
            emitter.build_store(pointer, val);
            Ok(Value::Null)
        } else {
            let lv = self.lhs.emit(emitter)?;
            let a = match lv {
                Value::Int(x) => x,
                _ => {
                    return Err(CodeGenError::NotAnInt);
                },
            };
            let rv = self.rhs.emit(emitter)?;
            let c = match rv {
                Value::Int(x) => x,
                _ => {
                    return Err(CodeGenError::NotAnInt);
                },
            };
            if crate::parser::str_is_char(op, '+') {
                Ok(Value::Int(emitter.build_int_add(a, c)))
            } else if crate::parser::str_is_char(op, '-') {
                Ok(Value::Int(emitter.build_int_sub(a, c)))
            } else if crate::parser::str_is_char(op, '*') {
                Ok(Value::Int(emitter.build_int_mul(a, c)))
            } else if crate::parser::str_is_char(op, '/') {
                Ok(Value::Int(emitter.build_int_unsigned_div(a, c)))
            } else {
                Err(CodeGenError::OperatorNotImplemented(op.clone()))
            }
        }
    }
}

impl ExpressionNode {
    /// Emits one expression.
    pub fn emit(&self, emitter: &mut Emitter) -> (r: Result<Value, CodeGenError>)
        requires
            old(emitter).has_current(),
        ensures
            match r {
                Ok(v) => spec_emit_expression(self@, old(emitter)@) == Ok::<
                    _,
                    CodeGenErrorView,
                >((v, final(emitter)@)) && final(emitter).has_current(),
                Err(e) => spec_emit_expression(self@, old(emitter)@) == Err::<
                    (Value, EmitterView),
                    _,
                >(e@),
            },
        decreases self,
    {
        match self {
            ExpressionNode::Unary(node) => node.emit(emitter),
            ExpressionNode::Binary(node) => node.emit(emitter),
        }
    }
}

impl VariableDeclareNode {
    /// Emits a scalar declaration: slot, binding, then the initializer.
    pub fn emit(&self, emitter: &mut Emitter) -> (r: Result<Value, CodeGenError>)
        requires
            old(emitter).has_current(),
        ensures
            match r {
                Ok(v) => spec_emit_variable_declare(self@, old(emitter)@) == Ok::<
                    _,
                    CodeGenErrorView,
                >((v, final(emitter)@)) && final(emitter).has_current(),
                Err(e) => spec_emit_variable_declare(self@, old(emitter)@) == Err::<
                    (Value, EmitterView),
                    _,
                >(e@),
            },
        decreases self,
    {
        let dims: Vec<u32> = Vec::new();
        proof {
            assert(dims@ =~= Seq::<u32>::empty());
        }
        let pointer = emitter.build_alloca(dims);
        let name = self.identifier.clone();
        emitter.environment.update(
            self.identifier.clone(),
            Variable::Int(IntVariable { name, pointer }),
        );
        match &self.init_expression {
            Some(expression) => expression.emit(emitter),
            None => Ok(Value::Null),
        }
    }
}

impl ArrayDeclareNode {
    /// Emits an array declaration, guarding against redefinition.
    pub fn emit(&self, emitter: &mut Emitter) -> (r: Result<Value, CodeGenError>)
        requires
            old(emitter).has_current(),
        ensures
            match r {
                Ok(v) => spec_emit_array_declare(self@, old(emitter)@) == Ok::<
                    _,
                    CodeGenErrorView,
                >((v, final(emitter)@)) && final(emitter).has_current(),
                Err(e) => spec_emit_array_declare(self@, old(emitter)@) == Err::<
                    (Value, EmitterView),
                    _,
                >(e@),
            },
    {
        if self.init_sizes.len() == 0 {
            return Err(CodeGenError::ArrayWithoutSize);
        }
        match emitter.environment.get(&self.identifier) {
            Some(_) => Err(CodeGenError::Redefinition(self.identifier.clone())),
            None => {
                let dims = self.init_sizes.clone();
                proof {
                    assert(dims@ =~= self.init_sizes@);
                }
                let pointer = emitter.build_alloca(dims);
                let name = self.identifier.clone();
                emitter.environment.update(
                    self.identifier.clone(),
                    Variable::Array(ArrayVariable { name, pointer }),
                );
                Ok(Value::Null)
            },
        }
    }
}

impl PointerDeclareNode {
    /// Emits a pointer declaration: a scalar slot under the name.
    pub fn emit(&self, emitter: &mut Emitter) -> (r: Result<Value, CodeGenError>)
        requires
            old(emitter).has_current(),
        ensures
            match r {
                Ok(v) => spec_emit_pointer_declare(self@, old(emitter)@) == Ok::<
                    _,
                    CodeGenErrorView,
                >((v, final(emitter)@)) && final(emitter).has_current(),
                Err(e) => spec_emit_pointer_declare(self@, old(emitter)@) == Err::<
                    (Value, EmitterView),
                    _,
                >(e@),
            },
    {
        let dims: Vec<u32> = Vec::new();
        proof {
            assert(dims@ =~= Seq::<u32>::empty());
        }
        let pointer = emitter.build_alloca(dims);
        let name = self.identifier.clone();
        emitter.environment.update(
            self.identifier.clone(),
            Variable::Int(IntVariable { name, pointer }),
        );
        Ok(Value::Null)
    }
}

impl DirectDeclareNode {
    /// Emits a direct declaration.
    pub fn emit(&self, emitter: &mut Emitter) -> (r: Result<Value, CodeGenError>)
        requires
            old(emitter).has_current(),
        ensures
            match r {
                Ok(v) => spec_emit_direct_declare(self@, old(emitter)@) == Ok::<
                    _,
                    CodeGenErrorView,
                >((v, final(emitter)@)) && final(emitter).has_current(),
                Err(e) => spec_emit_direct_declare(self@, old(emitter)@) == Err::<
                    (Value, EmitterView),
                    _,
                >(e@),
            },
        decreases self,
    {
        match self {
            DirectDeclareNode::Variable(node) => node.emit(emitter),
            DirectDeclareNode::Array(node) => node.emit(emitter),
        }
    }
}

impl DeclareNode {
    /// Emits a declaration.
    pub fn emit(&self, emitter: &mut Emitter) -> (r: Result<Value, CodeGenError>)
        requires
            old(emitter).has_current(),
        ensures
            match r {
                Ok(v) => spec_emit_declare(self@, old(emitter)@) == Ok::<_, CodeGenErrorView>(
                    (v, final(emitter)@),
                ) && final(emitter).has_current(),
                Err(e) => spec_emit_declare(self@, old(emitter)@) == Err::<
                    (Value, EmitterView),
                    _,
                >(e@),
            },
        decreases self,
    {
        match self {
            DeclareNode::Direct(node) => node.emit(emitter),
            DeclareNode::Pointer(node) => node.emit(emitter),
        }
    }
}

impl DeclareStatementNode {
    /// Emits a declaration statement.
    pub fn emit(&self, emitter: &mut Emitter) -> (r: Result<Value, CodeGenError>)
        requires
            old(emitter).has_current(),
        ensures
            match r {
                Ok(v) => spec_emit_declare(self@.declare, old(emitter)@) == Ok::<
                    _,
                    CodeGenErrorView,
                >((v, final(emitter)@)) && final(emitter).has_current(),
                Err(e) => spec_emit_declare(self@.declare, old(emitter)@) == Err::<
                    (Value, EmitterView),
                    _,
                >(e@),
            },
        decreases self,
    {
        self.declare.emit(emitter)
    }
}

impl ExpressionStatementNode {
    /// Emits a bare expression statement.
    pub fn emit(&self, emitter: &mut Emitter) -> (r: Result<Value, CodeGenError>)
        requires
            old(emitter).has_current(),
        ensures
            match r {
                Ok(v) => spec_emit_expression(self@.expression, old(emitter)@) == Ok::<
                    _,
                    CodeGenErrorView,
                >((v, final(emitter)@)) && final(emitter).has_current(),
                Err(e) => spec_emit_expression(self@.expression, old(emitter)@) == Err::<
                    (Value, EmitterView),
                    _,
                >(e@),
            },
        decreases self,
    {
        self.expression.emit(emitter)
    }
}

impl ReturnStatementNode {
    /// Emits a return: the expression's integer value, then the return.
    pub fn emit(&self, emitter: &mut Emitter) -> (r: Result<Value, CodeGenError>)
        requires
            old(emitter).has_current(),
        ensures
            match r {
                Ok(v) => spec_emit_statement(
                    StatementNodeView::Return(self@),
                    old(emitter)@,
                ) == Ok::<_, CodeGenErrorView>((v, final(emitter)@))
                    && final(emitter).has_current(),
                Err(e) => spec_emit_statement(StatementNodeView::Return(self@), old(emitter)@)
                    == Err::<(Value, EmitterView), _>(e@),
            },
        decreases self,
    {
        let v = self.expression.emit(emitter)?;
        let val = match v {
            Value::Int(x) => x,
            _ => {
                return Err(CodeGenError::NotAnInt);
            },
        };
        emitter.build_return(val);
        Ok(Value::Null)
    }
}

impl StatementNode {
    /// Emits one statement.
    pub fn emit(&self, emitter: &mut Emitter) -> (r: Result<Value, CodeGenError>)
        requires
            old(emitter).has_current(),
        ensures
            match r {
                Ok(v) => spec_emit_statement(self@, old(emitter)@) == Ok::<
                    _,
                    CodeGenErrorView,
                >((v, final(emitter)@)) && final(emitter).has_current(),
                Err(e) => spec_emit_statement(self@, old(emitter)@) == Err::<
                    (Value, EmitterView),
                    _,
                >(e@),
            },
        decreases self,
    {
        match self {
            StatementNode::Declare(node) => node.emit(emitter),
            StatementNode::Return(node) => node.emit(emitter),
            StatementNode::Expression(node) => node.emit(emitter),
        }
    }
}

impl StatementsNode {
    /// Emits the statements in order, discarding their values.
    #[verifier::rlimit(100)]
    pub fn emit(&self, emitter: &mut Emitter) -> (r: Result<(), CodeGenError>)
        requires
            old(emitter).has_current(),
        ensures
            match r {
                Ok(u) => spec_emit_statements(self@.statements, old(emitter)@) == Ok::<
                    _,
                    CodeGenErrorView,
                >(final(emitter)@) && final(emitter).has_current(),
                Err(e) => spec_emit_statements(self@.statements, old(emitter)@) == Err::<
                    EmitterView,
                    _,
                >(e@),
            },
        decreases self,
    {
        let n = self.statements.len();
        let ghost full = self@.statements;
        let mut k: usize = 0;
        proof {
            assert(full.subrange(0, n as int) =~= full);
        }
        while k < n
            invariant
                old(emitter).has_current(),
                emitter.has_current(),
                0 <= k <= n,
                n == self.statements.len(),
                full == self@.statements,
                n == full.len(),
                spec_emit_statements(full, old(emitter)@) == spec_emit_statements(
                    full.subrange(k as int, n as int),
                    emitter@,
                ),
            decreases n - k,
        {
            let ghost rem = full.subrange(k as int, n as int);
            proof {
                assert(rem[0] == full[k as int]);
                assert(full[k as int] == crate::ast::spec_view_stmt(self.statements@[k as int]));
            }
            match self.statements[k].emit(emitter) {
                Ok(_) => {},
                Err(e) => {
                    return Err(e);
                },
            }
            proof {
                assert(rem.subrange(1, rem.len() as int) =~= full.subrange(
                    k as int + 1,
                    n as int,
                ));
            }
            k = k + 1;
        }
        proof {
            assert(full.subrange(n as int, n as int) =~= Seq::<StatementNodeView>::empty());
        }
        Ok(())
    }
}

impl FunctionNode {
    /// Emits one function: open it, set up a fresh symbol table and the
    /// parameters, then emit the body.
    #[verifier::rlimit(100)]
    pub fn emit(&self, emitter: &mut Emitter) -> (r: Result<(), CodeGenError>)
        ensures
            match r {
                Ok(u) => spec_emit_function(self@, old(emitter)@) == Ok::<_, CodeGenErrorView>(
                    final(emitter)@,
                ) && final(emitter).has_current(),
                Err(e) => spec_emit_function(self@, old(emitter)@) == Err::<EmitterView, _>(e@),
            },
        decreases self,
    {
        emitter.environment = crate::ir::Environment::new();
        let n_params = self.arguments.len();
        emitter.add_function(self.identifier.clone(), n_params);
        let ghost full = self@.arguments;
        let mut k: usize = 0;
        proof {
            assert(full.subrange(0, n_params as int) =~= full);
        }
        while k < n_params
            invariant
                emitter.has_current(),
                0 <= k <= n_params,
                n_params == self.arguments.len(),
                full == self@.arguments,
                n_params == full.len(),
                spec_emit_param_setup(full.subrange(k as int, n_params as int), k as int, emitter@)
                    == spec_emit_param_setup(
                    full,
                    0,
                    spec_emit_function_start(self@, old(emitter)@),
                ),
            decreases n_params - k,
        {
            let ghost rem = full.subrange(k as int, n_params as int);
            proof {
                assert(rem[0] == full[k as int]);
                assert(full[k as int] == crate::ast::spec_view_declare(self.arguments@[k as int]));
            }
            let pv = emitter.build_param(k);
            let dims: Vec<u32> = Vec::new();
            proof {
                assert(dims@ =~= Seq::<u32>::empty());
            }
            let pointer = emitter.build_alloca(dims);
            emitter.build_store(pointer, pv);
            let name = self.arguments[k].get_identifier();
            let name2 = name.clone();
            emitter.environment.update(name, Variable::Int(IntVariable { name: name2, pointer }));
            proof {
                assert(rem.subrange(1, rem.len() as int) =~= full.subrange(
                    k as int + 1,
                    n_params as int,
                ));
            }
            k = k + 1;
        }
        proof {
            assert(full.subrange(n_params as int, n_params as int) =~= Seq::<
                DeclareNodeView,
            >::empty());
        }
        self.statements.emit(emitter)
    }
}

/// The builder state right after a function has been opened and its symbol
/// table cleared, before the parameter prologue.
pub open spec fn spec_emit_function_start(f: FunctionNodeView, em: EmitterView) -> EmitterView {
    EmitterView {
        module: spec_push_function(em.module, f.identifier, f.arguments.len() as usize),
        env: Seq::empty(),
    }
}

impl TopLevelDeclareNode {
    /// Emits one top level declaration.
    pub fn emit(&self, emitter: &mut Emitter) -> (r: Result<(), CodeGenError>)
        ensures
            match r {
                Ok(u) => spec_emit_top_level(self@, old(emitter)@) == Ok::<
                    _,
                    CodeGenErrorView,
                >(final(emitter)@) && final(emitter).has_current(),
                Err(e) => spec_emit_top_level(self@, old(emitter)@) == Err::<EmitterView, _>(e@),
            },
        decreases self,
    {
        match self {
            TopLevelDeclareNode::Function(node) => node.emit(emitter),
        }
    }
}

impl Node {
    /// Emits a whole translation unit in declaration order.
    #[verifier::rlimit(100)]
    pub fn emit(&self, emitter: &mut Emitter) -> (r: Result<(), CodeGenError>)
        ensures
            match r {
                Ok(u) => spec_emit_program(self@, old(emitter)@) == Ok::<_, CodeGenErrorView>(
                    final(emitter)@,
                ),
                Err(e) => spec_emit_program(self@, old(emitter)@) == Err::<EmitterView, _>(e@),
            },
        decreases self,
    {
        let n = self.declares.len();
        let ghost full = self@.declares;
        let mut k: usize = 0;
        proof {
            assert(full.subrange(0, n as int) =~= full);
        }
        while k < n
            invariant
                0 <= k <= n,
                n == self.declares.len(),
                full == self@.declares,
                n == full.len(),
                spec_emit_top_levels(full, old(emitter)@) == spec_emit_top_levels(
                    full.subrange(k as int, n as int),
                    emitter@,
                ),
            decreases n - k,
        {
            let ghost rem = full.subrange(k as int, n as int);
            proof {
                assert(rem[0] == full[k as int]);
                assert(full[k as int] == crate::ast::spec_view_top_level(self.declares@[k as int]));
            }
            match self.declares[k].emit(emitter) {
                Ok(_) => {},
                Err(e) => {
                    return Err(e);
                },
            }
            proof {
                assert(rem.subrange(1, rem.len() as int) =~= full.subrange(
                    k as int + 1,
                    n as int,
                ));
            }
            k = k + 1;
        }
        proof {
            assert(full.subrange(n as int, n as int) =~= Seq::<TopLevelDeclareNodeView>::empty());
        }
        Ok(())
    }
}

impl Emitter {
    /// Emits a whole translation unit into this builder.
    pub fn emit(&mut self, node: &Node) -> (r: Result<(), CodeGenError>)
        ensures
            match r {
                Ok(u) => spec_emit_program(node@, old(self)@) == Ok::<_, CodeGenErrorView>(
                    final(self)@,
                ),
                Err(e) => spec_emit_program(node@, old(self)@) == Err::<EmitterView, _>(e@),
            },
    {
        node.emit(self)
    }
}

} // verus!
