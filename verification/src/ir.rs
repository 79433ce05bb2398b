//! The instruction builder the code generator targets: a module of
//! functions, each a single straight line block of SSA style instructions,
//! plus the per function symbol table. The code generator only ever drives
//! the backend through a fixed set of primitives - allocate a slot, load,
//! store, element address, integer arithmetic, call, return - so any
//! builder with these operations can stand here; this one keeps the module
//! as plain data that an interpreter can run and a driver can print.

use vstd::prelude::*;

verus! {

/// A handle to an integer value: the index of the instruction that
/// produced it inside the current function.
#[derive(Clone, Copy, Debug, PartialEq, Eq, Structural)]
pub struct IntValue {
    pub id: usize,
}

/// A handle to an address value, indexed the same way.
#[derive(Clone, Copy, Debug, PartialEq, Eq, Structural)]
pub struct PointerValue {
    pub id: usize,
}

/// What evaluating an expression produced: an integer, an address, or
/// nothing (assignments and returns).
#[derive(Clone, Copy, Debug, PartialEq, Eq, Structural)]
pub enum Value {
    Int(IntValue),
    Pointer(PointerValue),
    Null,
}

/// Everything that can go wrong while generating code.
#[derive(Debug, PartialEq)]
pub enum CodeGenError {
    /// An identifier was used that no declaration in the current function
    /// introduced.
    UndeclaredIdentifier(String),
    /// An array was declared under a name that already exists.
    Redefinition(String),
    /// A call names a function that has not been emitted yet.
    UndefinedReference(String),
    /// The left hand side of `=` is not an identifier or an array element.
    InvalidAssignTarget,
    /// The left hand side of `=` is a function call.
    AssignToCall,
    /// A binary operator outside the implemented set.
    OperatorNotImplemented(String),
    /// An integer value was needed but the operand produced none.
    NotAnInt,
    /// A scalar variable was needed but the name is not bound to one.
    NotScalar,
    /// A prefix operand or callee position that is not an identifier.
    NotAnIdentifier,
    /// A numeric literal that is empty, non decimal, or too large.
    BadLiteral,
    /// A primary token that is neither a literal nor an identifier.
    InvalidPrimary,
    /// An array declaration without a single dimension size.
    ArrayWithoutSize,
    /// An array element use without a single index.
    ArrayWithoutIndex,
    /// A binary node whose operator token is not an operator at all.
    NotAnOperator,
}

/// The mathematical value of a `CodeGenError`.
pub enum CodeGenErrorView {
    UndeclaredIdentifier(Seq<char>),
    Redefinition(Seq<char>),
    UndefinedReference(Seq<char>),
    InvalidAssignTarget,
    AssignToCall,
    OperatorNotImplemented(Seq<char>),
    NotAnInt,
    NotScalar,
    NotAnIdentifier,
    BadLiteral,
    InvalidPrimary,
    ArrayWithoutSize,
    ArrayWithoutIndex,
    NotAnOperator,
}

impl View for CodeGenError {
    type V = CodeGenErrorView;

    open spec fn view(&self) -> CodeGenErrorView {
        match self {
            CodeGenError::UndeclaredIdentifier(s) => CodeGenErrorView::UndeclaredIdentifier(s@),
            CodeGenError::Redefinition(s) => CodeGenErrorView::Redefinition(s@),
            CodeGenError::UndefinedReference(s) => CodeGenErrorView::UndefinedReference(s@),
            CodeGenError::InvalidAssignTarget => CodeGenErrorView::InvalidAssignTarget,
            CodeGenError::AssignToCall => CodeGenErrorView::AssignToCall,
            CodeGenError::OperatorNotImplemented(s) => CodeGenErrorView::OperatorNotImplemented(
                s@,
            ),
            CodeGenError::NotAnInt => CodeGenErrorView::NotAnInt,
            CodeGenError::NotScalar => CodeGenErrorView::NotScalar,
            CodeGenError::NotAnIdentifier => CodeGenErrorView::NotAnIdentifier,
            CodeGenError::BadLiteral => CodeGenErrorView::BadLiteral,
            CodeGenError::InvalidPrimary => CodeGenErrorView::InvalidPrimary,
            CodeGenError::ArrayWithoutSize => CodeGenErrorView::ArrayWithoutSize,
            CodeGenError::ArrayWithoutIndex => CodeGenErrorView::ArrayWithoutIndex,
            CodeGenError::NotAnOperator => CodeGenErrorView::NotAnOperator,
        }
    }
}

impl Value {
    /// The address this value carries; the error of record otherwise.
    pub fn get_pointer(self) -> (r: Result<PointerValue, CodeGenError>)
        ensures
            match r {
                Ok(p) => self == Value::Pointer(p),
                Err(e) => !(self is Pointer) && e@ == CodeGenErrorView::NotScalar,
            },
    {
        match self {
            Value::Pointer(pointer) => Ok(pointer),
            _ => Err(CodeGenError::NotScalar),
        }
    }

    /// The integer this value carries; the error of record otherwise.
    pub fn get_int(self) -> (r: Result<IntValue, CodeGenError>)
        ensures
            match r {
                Ok(v) => self == Value::Int(v),
                Err(e) => !(self is Int) && e@ == CodeGenErrorView::NotAnInt,
            },
    {
        match self {
            Value::Int(value) => Ok(value),
            _ => Err(CodeGenError::NotAnInt),
        }
    }
}

// ---------------------------------------------------------------------------
// Instructions, functions, modules.
// ---------------------------------------------------------------------------

/// One instruction. The value it defines is its index in the function.
/// Operands name earlier instructions by index.
#[derive(Debug, PartialEq, Clone)]
pub enum Instruction {
    /// The value of the parameter with the given position.
    Param(usize),
    /// A constant, truncated to the 32 bit integer type when executed.
    ConstInt(u64),
    /// A fresh stack slot: scalar for an empty shape, otherwise one cell
    /// per point of the multi dimensional shape.
    Alloca(Vec<u32>),
    /// Read the integer stored at an address.
    Load(usize),
    /// Store an integer at an address: `Store(address, value)`.
    Store(usize, usize),
    /// The address of one element: `Gep(base, index)` steps into the
    /// outermost remaining dimension of the array behind `base`.
    Gep(usize, usize),
    Add(usize, usize),
    Sub(usize, usize),
    Mul(usize, usize),
    UDiv(usize, usize),
    /// Call the module's function with the given index on the integer
    /// values named by the argument list.
    Call(usize, Vec<usize>),
    /// Return an integer value and end the function.
    Ret(usize),
}

/// The mathematical value of an `Instruction`.
pub enum InstructionView {
    Param(usize),
    ConstInt(u64),
    Alloca(Seq<u32>),
    Load(usize),
    Store(usize, usize),
    Gep(usize, usize),
    Add(usize, usize),
    Sub(usize, usize),
    Mul(usize, usize),
    UDiv(usize, usize),
    Call(usize, Seq<usize>),
    Ret(usize),
}

impl View for Instruction {
    type V = InstructionView;

    open spec fn view(&self) -> InstructionView {
        match self {
            Instruction::Param(k) => InstructionView::Param(*k),
            Instruction::ConstInt(n) => InstructionView::ConstInt(*n),
            Instruction::Alloca(dims) => InstructionView::Alloca(dims@),
            Instruction::Load(a) => InstructionView::Load(*a),
            Instruction::Store(a, v) => InstructionView::Store(*a, *v),
            Instruction::Gep(b, i) => InstructionView::Gep(*b, *i),
            Instruction::Add(a, b) => InstructionView::Add(*a, *b),
            Instruction::Sub(a, b) => InstructionView::Sub(*a, *b),
            Instruction::Mul(a, b) => InstructionView::Mul(*a, *b),
            Instruction::UDiv(a, b) => InstructionView::UDiv(*a, *b),
            Instruction::Call(f, args) => InstructionView::Call(*f, args@),
            Instruction::Ret(v) => InstructionView::Ret(*v),
        }
    }
}

/// One emitted function: its name, parameter count, and straight line body.
#[derive(Debug, PartialEq, Clone)]
pub struct IrFunction {
    pub identifier: String,
    pub n_params: usize,
    pub instructions: Vec<Instruction>,
}

#[verifier::ext_equal]
pub struct IrFunctionView {
    pub identifier: Seq<char>,
    pub n_params: usize,
    pub instructions: Seq<InstructionView>,
}

impl View for IrFunction {
    type V = IrFunctionView;

    open spec fn view(&self) -> IrFunctionView {
        IrFunctionView {
            identifier: self.identifier@,
            n_params: self.n_params,
            instructions: self.instructions@.map_values(|i: Instruction| i@),
        }
    }
}

/// A whole emitted module: the functions in emission order.
#[derive(Debug, PartialEq, Clone)]
pub struct Module {
    pub functions: Vec<IrFunction>,
}

/// The mathematical value of a `Module`.
#[verifier::ext_equal]
pub struct ModuleView {
    pub functions: Seq<IrFunctionView>,
}

impl View for Module {
    type V = ModuleView;

    open spec fn view(&self) -> ModuleView {
        ModuleView { functions: self.functions@.map_values(|f: IrFunction| f@) }
    }
}

/// The first function with the given name, if any has been emitted.
pub open spec fn spec_find_function(fns: Seq<IrFunctionView>, name: Seq<char>) -> Option<int>
    decreases fns.len(),
{
    if fns.len() == 0 {
        None
    } else if fns[0].identifier == name {
        Some(0)
    } else {
        match spec_find_function(fns.drop_first(), name) {
            Some(i) => Some(i + 1),
            None => None,
        }
    }
}

// ---------------------------------------------------------------------------
// The per function symbol table.
// ---------------------------------------------------------------------------

/// A scalar variable's binding: its name and the address of its slot.
#[derive(Debug, PartialEq, Clone)]
pub struct IntVariable {
    pub name: String,
    pub pointer: PointerValue,
}

/// An array variable's binding: its name and the address of its storage.
#[derive(Debug, PartialEq, Clone)]
pub struct ArrayVariable {
    pub name: String,
    pub pointer: PointerValue,
}

/// What a name is bound to.
#[derive(Debug, PartialEq)]
pub enum Variable {
    Int(IntVariable),
    Array(ArrayVariable),
    Null,
}

/// The mathematical value of a `Variable`.
pub enum VariableView {
    Int(Seq<char>, PointerValue),
    Array(Seq<char>, PointerValue),
    Null,
}

impl View for Variable {
    type V = VariableView;

    open spec fn view(&self) -> VariableView {
        match self {
            Variable::Int(v) => VariableView::Int(v.name@, v.pointer),
            Variable::Array(v) => VariableView::Array(v.name@, v.pointer),
            Variable::Null => VariableView::Null,
        }
    }
}

/// One function's symbol table: an insertion ordered association list.
/// `update` overwrites a present name in place and appends a new one; `get`
/// answers with the most recently inserted binding of the name.
pub struct Environment {
    variables: Vec<(String, Variable)>,
}

impl View for Environment {
    type V = Seq<(Seq<char>, VariableView)>;

    closed spec fn view(&self) -> Seq<(Seq<char>, VariableView)> {
        self.variables@.map_values(|p: (String, Variable)| (p.0@, p.1@))
    }
}

/// The position of the last binding of `key`, if the name is bound.
pub open spec fn spec_env_find(env: Seq<(Seq<char>, VariableView)>, key: Seq<char>) -> Option<int>
    decreases env.len(),
{
    if env.len() == 0 {
        None
    } else if env.last().0 == key {
        Some(env.len() - 1)
    } else {
        spec_env_find(env.drop_last(), key)
    }
}

/// The binding `get` answers with: the last binding of the name.
pub open spec fn spec_env_get(env: Seq<(Seq<char>, VariableView)>, key: Seq<char>) -> Option<
    VariableView,
> {
    match spec_env_find(env, key) {
        Some(i) => Some(env[i].1),
        None => None,
    }
}

/// The table after `update`: overwritten in place, or appended when new.
pub open spec fn spec_env_update(
    env: Seq<(Seq<char>, VariableView)>,
    key: Seq<char>,
    val: VariableView,
) -> Seq<(Seq<char>, VariableView)> {
    match spec_env_find(env, key) {
        Some(i) => env.update(i, (key, val)),
        None => env.push((key, val)),
    }
}

impl Clone for Variable {
    fn clone(&self) -> (res: Self)
        ensures
            res@ == self@,
    {
        match self {
            Variable::Int(v) => Variable::Int(
                IntVariable { name: v.name.clone(), pointer: v.pointer },
            ),
            Variable::Array(v) => Variable::Array(
                ArrayVariable { name: v.name.clone(), pointer: v.pointer },
            ),
            Variable::Null => Variable::Null,
        }
    }
}

impl Environment {
    /// Makes an empty symbol table.
    pub fn new() -> (r: Environment)
        ensures
            r@ == Seq::<(Seq<char>, VariableView)>::empty(),
    {
        let variables: Vec<(String, Variable)> = Vec::new();
        let r = Environment { variables };
        proof {
            assert(r@ =~= Seq::<(Seq<char>, VariableView)>::empty());
        }
        r
    }

    /// The position of the last binding of `skey`, if any.
    fn find(&self, skey: &String) -> (r: Option<usize>)
        ensures
            match r {
                Some(i) => spec_env_find(self@, skey@) == Some(i as int) && i < self@.len(),
                None => spec_env_find(self@, skey@) is None,
            },
    {
        let mut i: usize = self.variables.len();
        proof {
            assert(self@.take(i as int) =~= self@);
        }
        while i > 0
            invariant
                0 <= i <= self@.len(),
                self@.len() == self.variables@.len(),
                spec_env_find(self@, skey@) == spec_env_find(self@.take(i as int), skey@),
            decreases i,
        {
            i = i - 1;
            if self.variables[i].0 == *skey {
                proof {
                    assert(self@.take(i as int + 1).last() == self@[i as int]);
                    assert(spec_env_find(self@.take(i as int + 1), skey@) == Some(i as int));
                }
                return Some(i);
            }
            proof {
                assert(self@.take(i as int + 1).drop_last() =~= self@.take(i as int));
                assert(self@.take(i as int + 1).last().0 != skey@);
            }
        }
        proof {
            assert(self@.take(0).len() == 0);
        }
        None
    }

    /// The most recently inserted binding of `skey`, or nothing.
    pub fn get(&self, skey: &String) -> (r: Option<Variable>)
        ensures
            match r {
                Some(v) => spec_env_get(self@, skey@) == Some(v@),
                None => spec_env_get(self@, skey@) is None,
            },
    {
        match self.find(skey) {
            Some(idx) => Some(self.variables[idx].1.clone()),
            None => None,
        }
    }

    /// Binds `skey`: overwrites its binding in place when the name exists,
    /// appends a new binding otherwise.
    pub fn update(&mut self, skey: String, sval: Variable)
        ensures
            final(self)@ == spec_env_update(old(self)@, skey@, sval@),
    {
        match self.find(&skey) {
            Some(idx) => {
                self.variables[idx] = (skey, sval);
                proof {
                    assert(self@ =~= spec_env_update(old(self)@, skey@, sval@));
                }
            },
            None => {
                self.variables.push((skey, sval));
                proof {
                    assert(self@ =~= spec_env_update(old(self)@, skey@, sval@));
                }
            },
        }
    }
}

// ---------------------------------------------------------------------------
// The builder.
// ---------------------------------------------------------------------------

/// The id the next instruction of the open function will get.
pub open spec fn spec_next_id(m: ModuleView) -> int {
    if m.functions.len() > 0 {
        m.functions.last().instructions.len() as int
    } else {
        0
    }
}

/// The module after appending one instruction to the open function.
pub open spec fn spec_push_instruction(m: ModuleView, ins: InstructionView) -> ModuleView {
    if m.functions.len() > 0 {
        let f = m.functions.last();
        let f2 = IrFunctionView {
            identifier: f.identifier,
            n_params: f.n_params,
            instructions: f.instructions.push(ins),
        };
        ModuleView { functions: m.functions.update(m.functions.len() - 1, f2) }
    } else {
        m
    }
}

/// The code generator's state: the module under construction, whose last
/// function is the open one, and the symbol table of that function.
pub struct Emitter {
    pub module: Module,
    pub environment: Environment,
}

/// The mathematical value of an `Emitter`.
#[verifier::ext_equal]
pub struct EmitterView {
    pub module: ModuleView,
    pub env: Seq<(Seq<char>, VariableView)>,
}

impl View for Emitter {
    type V = EmitterView;

    open spec fn view(&self) -> EmitterView {
        EmitterView { module: self.module@, env: self.environment@ }
    }
}

impl Emitter {
    /// Makes an empty builder: no functions, no bindings.
    pub fn new() -> (r: Emitter)
        ensures
            r@.module.functions == Seq::<IrFunctionView>::empty(),
            r@.env == Seq::<(Seq<char>, VariableView)>::empty(),
    {
        let r = Emitter { module: Module { functions: Vec::new() }, environment: Environment::new() };
        proof {
            assert(r@.module.functions =~= Seq::<IrFunctionView>::empty());
        }
        r
    }

    /// Whether a function is open for instruction emission.
    pub open spec fn has_current(self) -> bool {
        self@.module.functions.len() > 0
    }

    /// Appends one instruction to the open function and returns the index
    /// that names its value.
    fn push_instruction(&mut self, ins: Instruction) -> (id: usize)
        requires
            old(self).has_current(),
        ensures
            id as int == spec_next_id(old(self)@.module),
            final(self)@.module == spec_push_instruction(old(self)@.module, ins@),
            final(self)@.env == old(self)@.env,
            final(self).has_current(),
    {
        let ghost m0 = self@.module;
        let ghost insv = ins@;
        let mut f = match self.module.functions.pop() {
            Some(f) => f,
            None => {
                proof {
                    assert(false);
                }
                IrFunction { identifier: String::new(), n_params: 0, instructions: Vec::new() }
            },
        };
        let id = f.instructions.len();
        f.instructions.push(ins);
        let ghost fv = f@;
        self.module.functions.push(f);
        proof {
            assert(fv.instructions =~= m0.functions.last().instructions.push(insv));
            assert(self@.module.functions =~= spec_push_instruction(m0, insv).functions);
        }
        id
    }

    /// Opens a new function at the end of the module and hands back its
    /// index, usable as a call target from then on.
    pub fn add_function(&mut self, identifier: String, n_params: usize) -> (idx: usize)
        ensures
            idx as int == old(self)@.module.functions.len(),
            final(self)@.module.functions == old(self)@.module.functions.push(
                IrFunctionView {
                    identifier: identifier@,
                    n_params: n_params,
                    instructions: Seq::empty(),
                },
            ),
            final(self)@.env == old(self)@.env,
            final(self).has_current(),
    {
        let idx = self.module.functions.len();
        let ghost namev = identifier@;
        self.module.functions.push(
            IrFunction { identifier, n_params, instructions: Vec::new() },
        );
        proof {
            assert(self@.module.functions =~~= old(self)@.module.functions.push(
                IrFunctionView { identifier: namev, n_params: n_params, instructions: Seq::empty() },
            ));
        }
        idx
    }

    /// The index of the first already emitted function with this name.
    pub fn get_function(&self, identifier: &String) -> (r: Option<usize>)
        ensures
            match r {
                Some(i) => spec_find_function(self@.module.functions, identifier@) == Some(
                    i as int,
                ) && i < self@.module.functions.len(),
                None => spec_find_function(self@.module.functions, identifier@) is None,
            },
    {
        let n = self.module.functions.len();
        let mut i: usize = 0;
        proof {
            assert(self@.module.functions.skip(0) =~= self@.module.functions);
        }
        while i < n
            invariant
                0 <= i <= n,
                n == self@.module.functions.len(),
                n == self.module.functions@.len(),
                forall|k: int|
                    0 <= k < i ==> #[trigger] self@.module.functions[k].identifier
                        != identifier@,
                spec_find_function(self@.module.functions, identifier@) == match spec_find_function(
                    self@.module.functions.skip(i as int),
                    identifier@,
                ) {
                    Some(j) => Some(j + i),
                    None => None::<int>,
                },
            decreases n - i,
        {
            if self.module.functions[i].identifier == *identifier {
                proof {
                    assert(self@.module.functions.skip(i as int)[0] == self@.module.functions[
                        i as int
                    ]);
                }
                return Some(i);
            }
            proof {
                assert(self@.module.functions.skip(i as int).drop_first() =~= self
                    @.module.functions.skip(i as int + 1));
                assert(self@.module.functions.skip(i as int)[0] == self@.module.functions[i as int]);
            }
            i = i + 1;
        }
        proof {
            assert(self@.module.functions.skip(n as int).len() == 0);
        }
        None
    }

    /// Allocates one stack slot of the given shape; empty means scalar.
    pub fn build_alloca(&mut self, dims: Vec<u32>) -> (r: PointerValue)
        requires
            old(self).has_current(),
        ensures
            r.id as int == spec_next_id(old(self)@.module),
            final(self)@.module == spec_push_instruction(
                old(self)@.module,
                InstructionView::Alloca(dims@),
            ),
            final(self)@.env == old(self)@.env,
            final(self).has_current(),
    {
        let id = self.push_instruction(Instruction::Alloca(dims));
        PointerValue { id }
    }

    /// Reads the integer stored at an address.
    pub fn build_load(&mut self, pointer: PointerValue) -> (r: IntValue)
        requires
            old(self).has_current(),
        ensures
            r.id as int == spec_next_id(old(self)@.module),
            final(self)@.module == spec_push_instruction(
                old(self)@.module,
                InstructionView::Load(pointer.id),
            ),
            final(self)@.env == old(self)@.env,
            final(self).has_current(),
    {
        let id = self.push_instruction(Instruction::Load(pointer.id));
        IntValue { id }
    }

    /// Stores an integer at an address.
    pub fn build_store(&mut self, pointer: PointerValue, value: IntValue)
        requires
            old(self).has_current(),
        ensures
            final(self)@.module == spec_push_instruction(
                old(self)@.module,
                InstructionView::Store(pointer.id, value.id),
            ),
            final(self)@.env == old(self)@.env,
            final(self).has_current(),
    {
        self.push_instruction(Instruction::Store(pointer.id, value.id));
    }

    /// The address of one element of the array behind `pointer`.
    pub fn build_gep(&mut self, pointer: PointerValue, index: IntValue) -> (r: PointerValue)
        requires
            old(self).has_current(),
        ensures
            r.id as int == spec_next_id(old(self)@.module),
            final(self)@.module == spec_push_instruction(
                old(self)@.module,
                InstructionView::Gep(pointer.id, index.id),
            ),
            final(self)@.env == old(self)@.env,
            final(self).has_current(),
    {
        let id = self.push_instruction(Instruction::Gep(pointer.id, index.id));
        PointerValue { id }
    }

    /// A constant integer value.
    pub fn build_const_int(&mut self, value: u64) -> (r: IntValue)
        requires
            old(self).has_current(),
        ensures
            r.id as int == spec_next_id(old(self)@.module),
            final(self)@.module == spec_push_instruction(
                old(self)@.module,
                InstructionView::ConstInt(value),
            ),
            final(self)@.env == old(self)@.env,
            final(self).has_current(),
    {
        let id = self.push_instruction(Instruction::ConstInt(value));
        IntValue { id }
    }

    /// The value of the parameter with the given position.
    pub fn build_param(&mut self, position: usize) -> (r: IntValue)
        requires
            old(self).has_current(),
        ensures
            r.id as int == spec_next_id(old(self)@.module),
            final(self)@.module == spec_push_instruction(
                old(self)@.module,
                InstructionView::Param(position),
            ),
            final(self)@.env == old(self)@.env,
            final(self).has_current(),
    {
        let id = self.push_instruction(Instruction::Param(position));
        IntValue { id }
    }

    /// The sum of two integer values.
    pub fn build_int_add(&mut self, a: IntValue, b: IntValue) -> (r: IntValue)
        requires
            old(self).has_current(),
        ensures
            r.id as int == spec_next_id(old(self)@.module),
            final(self)@.module == spec_push_instruction(
                old(self)@.module,
                InstructionView::Add(a.id, b.id),
            ),
            final(self)@.env == old(self)@.env,
            final(self).has_current(),
    {
        let id = self.push_instruction(Instruction::Add(a.id, b.id));
        IntValue { id }
    }

    /// The difference of two integer values.
    pub fn build_int_sub(&mut self, a: IntValue, b: IntValue) -> (r: IntValue)
        requires
            old(self).has_current(),
        ensures
            r.id as int == spec_next_id(old(self)@.module),
            final(self)@.module == spec_push_instruction(
                old(self)@.module,
                InstructionView::Sub(a.id, b.id),
            ),
            final(self)@.env == old(self)@.env,
            final(self).has_current(),
    {
        let id = self.push_instruction(Instruction::Sub(a.id, b.id));
        IntValue { id }
    }

    /// The product of two integer values.
    pub fn build_int_mul(&mut self, a: IntValue, b: IntValue) -> (r: IntValue)
        requires
            old(self).has_current(),
        ensures
            r.id as int == spec_next_id(old(self)@.module),
            final(self)@.module == spec_push_instruction(
                old(self)@.module,
                InstructionView::Mul(a.id, b.id),
            ),
            final(self)@.env == old(self)@.env,
            final(self).has_current(),
    {
        let id = self.push_instruction(Instruction::Mul(a.id, b.id));
        IntValue { id }
    }

    /// The unsigned quotient of two integer values.
    pub fn build_int_unsigned_div(&mut self, a: IntValue, b: IntValue) -> (r: IntValue)
        requires
            old(self).has_current(),
        ensures
            r.id as int == spec_next_id(old(self)@.module),
            final(self)@.module == spec_push_instruction(
                old(self)@.module,
                InstructionView::UDiv(a.id, b.id),
            ),
            final(self)@.env == old(self)@.env,
            final(self).has_current(),
    {
        let id = self.push_instruction(Instruction::UDiv(a.id, b.id));
        IntValue { id }
    }

    /// A call of an already emitted function on integer arguments.
    pub fn build_call(&mut self, function: usize, arguments: Vec<usize>) -> (r: IntValue)
        requires
            old(self).has_current(),
        ensures
            r.id as int == spec_next_id(old(self)@.module),
            final(self)@.module == spec_push_instruction(
                old(self)@.module,
                InstructionView::Call(function, arguments@),
            ),
            final(self)@.env == old(self)@.env,
            final(self).has_current(),
    {
        let id = self.push_instruction(Instruction::Call(function, arguments));
        IntValue { id }
    }

    /// Returns an integer value from the open function.
    pub fn build_return(&mut self, value: IntValue)
        requires
            old(self).has_current(),
        ensures
            final(self)@.module == spec_push_instruction(
                old(self)@.module,
                InstructionView::Ret(value.id),
            ),
            final(self)@.env == old(self)@.env,
            final(self).has_current(),
    {
        self.push_instruction(Instruction::Ret(value.id));
    }
}

} // verus!
