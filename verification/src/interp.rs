//! An interpreter for emitted modules: the backend used as an oracle. One
//! activation executes its straight line instruction list once, with one
//! register per instruction, fresh storage regions for its slots, and 32
//! bit wrapping arithmetic; calls recurse on a fuel bound.

use vstd::prelude::*;
use crate::ir::{Instruction, InstructionView, IrFunction, IrFunctionView, Module, ModuleView};

verus! {

/// A runtime value: an integer, an address into a storage region at some
/// indexing depth, or the unit value of an instruction with no result.
#[derive(Clone, Copy, Debug, PartialEq, Eq, Structural)]
pub enum RunValue {
    Int(u32),
    Ptr { region: usize, offset: usize, level: usize },
    Unit,
}

/// Everything that can stop execution.
#[derive(Clone, Copy, Debug, PartialEq, Eq, Structural)]
pub enum RunError {
    /// A call names a function index outside the module.
    BadFunction,
    /// An operand names no earlier instruction.
    BadValueRef,
    /// An integer operand does not hold an integer.
    NotAnIntValue,
    /// An address operand does not hold an address.
    NotAPointerValue,
    /// An address outside its region, a step below the last dimension, or
    /// address arithmetic that cannot be represented.
    BadAddress,
    /// A parameter read beyond the arguments of the call.
    BadParam,
    /// An unsigned division by zero.
    DivByZero,
    /// The call depth exhausted the fuel bound.
    OutOfFuel,
    /// The function ended without executing a return.
    MissingReturn,
    /// A slot whose cell count cannot be represented.
    SizeOverflow,
}

/// One storage region: its declared shape and its flat cells.
#[derive(Debug, PartialEq, Clone)]
pub struct Region {
    pub dims: Vec<u32>,
    pub cells: Vec<u32>,
}

/// The mathematical value of a `Region`.
#[verifier::ext_equal]
pub struct RegionView {
    pub dims: Seq<u32>,
    pub cells: Seq<u32>,
}

impl View for Region {
    type V = RegionView;

    open spec fn view(&self) -> RegionView {
        RegionView { dims: self.dims@, cells: self.cells@ }
    }
}

/// With a positive factor, a multiplier above the quotient pushes the
/// product past the bound.
proof fn lemma_mul_exceeds(acc: int, d: int, max: int)
    requires
        1 <= d,
        0 <= max,
        acc > max / d,
    ensures
        acc * d > max,
{
    assert(acc * d > max) by (nonlinear_arith)
        requires
            1 <= d,
            0 <= max,
            acc > max / d,
    ;
}

/// With a positive factor, a multiplier at most the quotient keeps the
/// product within the bound.
proof fn lemma_mul_within(acc: int, d: int, max: int)
    requires
        1 <= d,
        0 <= max,
        0 <= acc <= max / d,
    ensures
        acc * d <= max,
{
    assert(acc * d <= max) by (nonlinear_arith)
        requires
            1 <= d,
            0 <= max,
            0 <= acc <= max / d,
    ;
}

/// The running product of dimension sizes from position `i`, or nothing
/// once the accumulator can no longer be represented.
pub open spec fn spec_checked_prod_from(dims: Seq<u32>, i: int, acc: nat) -> Option<nat>
    decreases dims.len() - i,
{
    if !(0 <= i < dims.len()) {
        Some(acc)
    } else if acc * dims[i] > usize::MAX {
        None
    } else {
        spec_checked_prod_from(dims, i + 1, (acc * dims[i]) as nat)
    }
}

/// The 32 bit wrapping sum.
pub open spec fn spec_wrap_add(x: u32, y: u32) -> u32 {
    (((x as int) + (y as int)) % 0x100000000) as u32
}

/// The 32 bit wrapping difference.
pub open spec fn spec_wrap_sub(x: u32, y: u32) -> u32 {
    if x >= y {
        (x - y) as u32
    } else {
        (0x100000000 + x - y) as u32
    }
}

/// The 32 bit wrapping product.
pub open spec fn spec_wrap_mul(x: u32, y: u32) -> u32 {
    (((x as int) * (y as int)) % 0x100000000) as u32
}

/// The integer arguments a call hands on: each operand must name an
/// earlier instruction holding an integer.
pub open spec fn spec_gather_args(ids: Seq<usize>, regs: Seq<RunValue>) -> Result<
    Seq<u32>,
    RunError,
>
    decreases ids.len(),
{
    if ids.len() == 0 {
        Ok(Seq::empty())
    } else if ids[0] >= regs.len() {
        Err(RunError::BadValueRef)
    } else {
        match regs[ids[0] as int] {
            RunValue::Int(x) => match spec_gather_args(ids.subrange(1, ids.len() as int), regs) {
                Ok(rest) => Ok(seq![x] + rest),
                Err(e) => Err(e),
            },
            _ => Err(RunError::NotAnIntValue),
        }
    }
}

/// Running the open activation from instruction `i` on: the result of the
/// function, or the error that stopped it.
pub open spec fn spec_run_instrs(
    m: ModuleView,
    f: IrFunctionView,
    i: int,
    regs: Seq<RunValue>,
    regions: Seq<RegionView>,
    args: Seq<u32>,
    fuel: nat,
) -> Result<u32, RunError>
    decreases fuel, f.instructions.len() - i,
{
    if !(0 <= i < f.instructions.len()) {
        Err(RunError::MissingReturn)
    } else {
        match f.instructions[i] {
            InstructionView::Param(k) => {
                if k < args.len() {
                    spec_run_instrs(
                        m,
                        f,
                        i + 1,
                        regs.push(RunValue::Int(args[k as int])),
                        regions,
                        args,
                        fuel,
                    )
                } else {
                    Err(RunError::BadParam)
                }
            },
            InstructionView::ConstInt(n) => spec_run_instrs(
                m,
                f,
                i + 1,
                regs.push(RunValue::Int((n % 0x100000000u64) as u32)),
                regions,
                args,
                fuel,
            ),
            InstructionView::Alloca(dims) => match spec_checked_prod_from(dims, 0, 1) {
                Some(size) => spec_run_instrs(
                    m,
                    f,
                    i + 1,
                    regs.push(
                        RunValue::Ptr { region: regions.len() as usize, offset: 0, level: 0 },
                    ),
                    regions.push(
                        RegionView { dims, cells: Seq::new(size, |j: int| 0u32) },
                    ),
                    args,
                    fuel,
                ),
                None => Err(RunError::SizeOverflow),
            },
            InstructionView::Load(a) => {
                if a >= regs.len() {
                    Err(RunError::BadValueRef)
                } else {
                    match regs[a as int] {
                        RunValue::Ptr { region, offset, level } => {
                            if region < regions.len() && level == regions[
                                region as int
                            ].dims.len() && offset < regions[region as int].cells.len() {
                                spec_run_instrs(
                                    m,
                                    f,
                                    i + 1,
                                    regs.push(
                                        RunValue::Int(
                                            regions[region as int].cells[offset as int],
                                        ),
                                    ),
                                    regions,
                                    args,
                                    fuel,
                                )
                            } else {
                                Err(RunError::BadAddress)
                            }
                        },
                        _ => Err(RunError::NotAPointerValue),
                    }
                }
            },
            InstructionView::Store(a, v) => {
                if a >= regs.len() || v >= regs.len() {
                    Err(RunError::BadValueRef)
                } else {
                    match regs[a as int] {
                        RunValue::Ptr { region, offset, level } => match regs[v as int] {
                            RunValue::Int(x) => {
                                if region < regions.len() && level == regions[
                                    region as int
                                ].dims.len() && offset < regions[region as int].cells.len() {
                                    let reg = regions[region as int];
                                    spec_run_instrs(
                                        m,
                                        f,
                                        i + 1,
                                        regs.push(RunValue::Unit),
                                        regions.update(
                                            region as int,
                                            RegionView {
                                                dims: reg.dims,
                                                cells: reg.cells.update(offset as int, x),
                                            },
                                        ),
                                        args,
                                        fuel,
                                    )
                                } else {
                                    Err(RunError::BadAddress)
                                }
                            },
                            _ => Err(RunError::NotAnIntValue),
                        },
                        _ => Err(RunError::NotAPointerValue),
                    }
                }
            },
            InstructionView::Gep(b, idx) => {
                if b >= regs.len() || idx >= regs.len() {
                    Err(RunError::BadValueRef)
                } else {
                    match regs[b as int] {
                        RunValue::Ptr { region, offset, level } => match regs[idx as int] {
                            RunValue::Int(x) => {
                                if region < regions.len() && level < regions[
                                    region as int
                                ].dims.len() {
                                    match spec_checked_prod_from(
                                        regions[region as int].dims,
                                        level + 1,
                                        1,
                                    ) {
                                        Some(stride) => {
                                            if offset + x * stride > usize::MAX {
                                                Err(RunError::BadAddress)
                                            } else {
                                                spec_run_instrs(
                                                    m,
                                                    f,
                                                    i + 1,
                                                    regs.push(
                                                        RunValue::Ptr {
                                                            region,
                                                            offset: (offset + x * stride) as usize,
                                                            level: (level + 1) as usize,
                                                        },
                                                    ),
                                                    regions,
                                                    args,
                                                    fuel,
                                                )
                                            }
                                        },
                                        None => Err(RunError::BadAddress),
                                    }
                                } else {
                                    Err(RunError::BadAddress)
                                }
                            },
                            _ => Err(RunError::NotAnIntValue),
                        },
                        _ => Err(RunError::NotAPointerValue),
                    }
                }
            },
            InstructionView::Add(a, b) => {
                if a >= regs.len() || b >= regs.len() {
                    Err(RunError::BadValueRef)
                } else {
                    match (regs[a as int], regs[b as int]) {
                        (RunValue::Int(x), RunValue::Int(y)) => spec_run_instrs(
                            m,
                            f,
                            i + 1,
                            regs.push(RunValue::Int(spec_wrap_add(x, y))),
                            regions,
                            args,
                            fuel,
                        ),
                        _ => Err(RunError::NotAnIntValue),
                    }
                }
            },
            InstructionView::Sub(a, b) => {
                if a >= regs.len() || b >= regs.len() {
                    Err(RunError::BadValueRef)
                } else {
                    match (regs[a as int], regs[b as int]) {
                        (RunValue::Int(x), RunValue::Int(y)) => spec_run_instrs(
                            m,
                            f,
                            i + 1,
                            regs.push(RunValue::Int(spec_wrap_sub(x, y))),
                            regions,
                            args,
                            fuel,
                        ),
                        _ => Err(RunError::NotAnIntValue),
                    }
                }
            },
            InstructionView::Mul(a, b) => {
                if a >= regs.len() || b >= regs.len() {
                    Err(RunError::BadValueRef)
                } else {
                    match (regs[a as int], regs[b as int]) {
                        (RunValue::Int(x), RunValue::Int(y)) => spec_run_instrs(
                            m,
                            f,
                            i + 1,
                            regs.push(RunValue::Int(spec_wrap_mul(x, y))),
                            regions,
                            args,
                            fuel,
                        ),
                        _ => Err(RunError::NotAnIntValue),
                    }
                }
            },
            InstructionView::UDiv(a, b) => {
                if a >= regs.len() || b >= regs.len() {
                    Err(RunError::BadValueRef)
                } else {
                    match (regs[a as int], regs[b as int]) {
                        (RunValue::Int(x), RunValue::Int(y)) => {
                            if y == 0 {
                                Err(RunError::DivByZero)
                            } else {
                                spec_run_instrs(
                                    m,
                                    f,
                                    i + 1,
                                    regs.push(RunValue::Int((x / y) as u32)),
                                    regions,
                                    args,
                                    fuel,
                                )
                            }
                        },
                        _ => Err(RunError::NotAnIntValue),
                    }
                }
            },
            InstructionView::Call(fi, argids) => {
                if fuel == 0 {
                    Err(RunError::OutOfFuel)
                } else {
                    match spec_gather_args(argids, regs) {
                        Ok(vals) => match spec_run_function(m, fi as int, vals, (fuel - 1) as nat) {
                            Ok(ret) => spec_run_instrs(
                                m,
                                f,
                                i + 1,
                                regs.push(RunValue::Int(ret)),
                                regions,
                                args,
                                fuel,
                            ),
                            Err(e) => Err(e),
                        },
                        Err(e) => Err(e),
                    }
                }
            },
            InstructionView::Ret(v) => {
                if v >= regs.len() {
                    Err(RunError::BadValueRef)
                } else {
                    match regs[v as int] {
                        RunValue::Int(x) => Ok(x),
                        _ => Err(RunError::NotAnIntValue),
                    }
                }
            },
        }
    }
}

/// Running one function of the module on integer arguments.
pub open spec fn spec_run_function(m: ModuleView, fidx: int, args: Seq<u32>, fuel: nat) -> Result<
    u32,
    RunError,
>
    decreases fuel, m.functions[fidx].instructions.len() + 1,
{
    if !(0 <= fidx < m.functions.len()) {
        Err(RunError::BadFunction)
    } else {
        spec_run_instrs(m, m.functions[fidx], 0, Seq::empty(), Seq::empty(), args, fuel)
    }
}

/// The spelling of the entry function's name.
pub open spec fn spec_main_name() -> Seq<char> {
    seq!['m', 'a', 'i', 'n']
}

/// Running a module: the first function named `main`, on no arguments.
pub open spec fn spec_run_main(m: ModuleView, fuel: nat) -> Result<u32, RunError> {
    match crate::ir::spec_find_function(m.functions, spec_main_name()) {
        Some(fidx) => spec_run_function(m, fidx, Seq::empty(), fuel),
        None => Err(RunError::BadFunction),
    }
}

/// The flat cell count of a slot shape, or the error when it cannot be
/// represented.
fn checked_size(dims: &Vec<u32>) -> (r: Option<usize>)
    ensures
        match r {
            Some(size) => spec_checked_prod_from(dims@, 0, 1) == Some(size as nat),
            None => spec_checked_prod_from(dims@, 0, 1) is None,
        },
{
    let n = dims.len();
    let mut acc: usize = 1;
    let mut i: usize = 0;
    while i < n
        invariant
            0 <= i <= n,
            n == dims@.len(),
            spec_checked_prod_from(dims@, 0, 1) == spec_checked_prod_from(
                dims@,
                i as int,
                acc as nat,
            ),
        decreases n - i,
    {
        let d = dims[i];
        if d != 0 && acc > usize::MAX / (d as usize) {
            proof {
                lemma_mul_exceeds(acc as int, d as int, usize::MAX as int);
            }
            return None;
        }
        if d == 0 {
            acc = 0;
        } else {
            proof {
                lemma_mul_within(acc as int, d as int, usize::MAX as int);
            }
            acc = acc * d as usize;
        }
        i = i + 1;
    }
    Some(acc)
}

/// The stride one index step covers at the given depth: the cell count of
/// the remaining inner dimensions.
fn checked_stride(dims: &Vec<u32>, level: usize) -> (r: Option<usize>)
    requires
        level < dims@.len(),
    ensures
        match r {
            Some(stride) => spec_checked_prod_from(dims@, level as int + 1, 1) == Some(
                stride as nat,
            ),
            None => spec_checked_prod_from(dims@, level as int + 1, 1) is None,
        },
{
    let n = dims.len();
    let mut acc: usize = 1;
    let mut i: usize = level + 1;
    while i < n
        invariant
            level + 1 <= i <= n,
            n == dims@.len(),
            spec_checked_prod_from(dims@, level as int + 1, 1) == spec_checked_prod_from(
                dims@,
                i as int,
                acc as nat,
            ),
        decreases n - i,
    {
        let d = dims[i];
        if d != 0 && acc > usize::MAX / (d as usize) {
            proof {
                lemma_mul_exceeds(acc as int, d as int, usize::MAX as int);
            }
            return None;
        }
        if d == 0 {
            acc = 0;
        } else {
            proof {
                lemma_mul_within(acc as int, d as int, usize::MAX as int);
            }
            acc = acc * d as usize;
        }
        i = i + 1;
    }
    Some(acc)
}

/// Runs one function of the module on the given integer arguments, with a
/// fuel bound on the call depth.
#[verifier::rlimit(100)]
#[verifier::spinoff_prover]
pub fn run_function(module: &Module, fidx: usize, args: &Vec<u32>, fuel: u64) -> (r: Result<
    u32,
    RunError,
>)
    ensures
        r == spec_run_function(module@, fidx as int, args@, fuel as nat),
    decreases fuel,
{
    if fidx >= module.functions.len() {
        return Err(RunError::BadFunction);
    }
    let f = &module.functions[fidx];
    let n = f.instructions.len();
    let mut regs: Vec<RunValue> = Vec::new();
    let mut regions: Vec<Region> = Vec::new();
    let mut i: usize = 0;
    proof {
        assert(regs@ =~= Seq::<RunValue>::empty());
        assert(regions@.map_values(|rg: Region| rg@) =~= Seq::<RegionView>::empty());
    }
    while i < n
        invariant
            0 <= i <= n,
            fidx < module.functions@.len(),
            f == &module.functions@[fidx as int],
            n == f.instructions@.len(),
            f@ == module@.functions[fidx as int],
            regs@.len() == i,
            spec_run_function(module@, fidx as int, args@, fuel as nat) == spec_run_instrs(
                module@,
                f@,
                i as int,
                regs@,
                regions@.map_values(|rg: Region| rg@),
                args@,
                fuel as nat,
            ),
        decreases n - i,
    {
        let ghost regionsv = regions@.map_values(|rg: Region| rg@);
        let ins = &f.instructions[i];
        proof {
            assert(f@.instructions[i as int] == ins@);
        }
        match ins {
            Instruction::Param(k) => {
                if *k < args.len() {
                    regs.push(RunValue::Int(args[*k]));
                } else {
                    return Err(RunError::BadParam);
                }
            },
            Instruction::ConstInt(c) => {
                regs.push(RunValue::Int((*c % 0x100000000u64) as u32));
            },
            Instruction::Alloca(dims) => {
                match checked_size(dims) {
                    Some(size) => {
                        let mut cells: Vec<u32> = Vec::new();
                        let mut j: usize = 0;
                        while j < size
                            invariant
                                0 <= j <= size,
                                cells@.len() == j,
                                forall|t: int| 0 <= t < j ==> cells@[t] == 0u32,
                            decreases size - j,
                        {
                            cells.push(0u32);
                            j = j + 1;
                        }
                        regs.push(
                            RunValue::Ptr { region: regions.len(), offset: 0, level: 0 },
                        );
                        let region = Region { dims: dims.clone(), cells };
                        proof {
                            assert(region@.dims =~= dims@);
                            assert(region@.cells =~= Seq::new(size as nat, |t: int| 0u32));
                        }
                        regions.push(region);
                        proof {
                            assert(regions@.map_values(|rg: Region| rg@) =~= regionsv.push(
                                RegionView {
                                    dims: dims@,
                                    cells: Seq::new(size as nat, |t: int| 0u32),
                                },
                            ));
                        }
                    },
                    None => {
                        return Err(RunError::SizeOverflow);
                    },
                }
            },
            Instruction::Load(a) => {
                if *a >= regs.len() {
                    return Err(RunError::BadValueRef);
                }
                match regs[*a] {
                    RunValue::Ptr { region, offset, level } => {
                        if region < regions.len() && level == regions[region].dims.len() && offset
                            < regions[region].cells.len() {
                            proof {
                                assert(regionsv[region as int] == regions@[region as int]@);
                            }
                            let x = regions[region].cells[offset];
                            regs.push(RunValue::Int(x));
                        } else {
                            proof {
                                if region < regions.len() {
                                    assert(regionsv[region as int] == regions@[region as int]@);
                                }
                            }
                            return Err(RunError::BadAddress);
                        }
                    },
                    _ => {
                        return Err(RunError::NotAPointerValue);
                    },
                }
            },
            Instruction::Store(a, v) => {
                if *a >= regs.len() || *v >= regs.len() {
                    return Err(RunError::BadValueRef);
                }
                match regs[*a] {
                    RunValue::Ptr { region, offset, level } => {
                        match regs[*v] {
                            RunValue::Int(x) => {
                                if region < regions.len() && level == regions[
                                    region
                                ].dims.len() && offset < regions[region].cells.len() {
                                    proof {
                                        assert(regionsv[region as int] == regions@[
                                            region as int
                                        ]@);
                                    }
                                    let mut reg = regions.remove(region);
                                    reg.cells[offset] = x;
                                    let ghost regv = reg@;
                                    regions.insert(region, reg);
                                    regs.push(RunValue::Unit);
                                    proof {
                                        assert(regions@.map_values(|rg: Region| rg@)
                                            =~= regionsv.update(region as int, regv));
                                    }
                                } else {
                                    proof {
                                        if region < regions.len() {
                                            assert(regionsv[region as int] == regions@[
                                                region as int
                                            ]@);
                                        }
                                    }
                                    return Err(RunError::BadAddress);
                                }
                            },
                            _ => {
                                return Err(RunError::NotAnIntValue);
                            },
                        }
                    },
                    _ => {
                        return Err(RunError::NotAPointerValue);
                    },
                }
            },
            Instruction::Gep(b, idx) => {
                if *b >= regs.len() || *idx >= regs.len() {
                    return Err(RunError::BadValueRef);
                }
                match regs[*b] {
                    RunValue::Ptr { region, offset, level } => {
                        match regs[*idx] {
                            RunValue::Int(x) => {
                                if region < regions.len() && level < regions[region].dims.len() {
                                    proof {
                                        assert(regionsv[region as int] == regions@[
                                            region as int
                                        ]@);
                                    }
                                    match checked_stride(&regions[region].dims, level) {
                                        Some(stride) => {
                                            let big: bool = stride != 0 && (x as usize) > usize::MAX
                                                / stride;
                                            if big {
                                                proof {
                                                    lemma_mul_exceeds(
                                                        x as int,
                                                        stride as int,
                                                        usize::MAX as int,
                                                    );
                                                }
                                                return Err(RunError::BadAddress);
                                            }
                                            proof {
                                                if stride != 0 {
                                                    lemma_mul_within(
                                                        x as int,
                                                        stride as int,
                                                        usize::MAX as int,
                                                    );
                                                }
                                            }
                                            let step: usize = (x as usize) * stride;
                                            if offset > usize::MAX - step {
                                                return Err(RunError::BadAddress);
                                            }
                                            regs.push(
                                                RunValue::Ptr {
                                                    region,
                                                    offset: offset + step,
                                                    level: level + 1,
                                                },
                                            );
                                        },
                                        None => {
                                            return Err(RunError::BadAddress);
                                        },
                                    }
                                } else {
                                    proof {
                                        if region < regions.len() {
                                            assert(regionsv[region as int] == regions@[
                                                region as int
                                            ]@);
                                        }
                                    }
                                    return Err(RunError::BadAddress);
                                }
                            },
                            _ => {
                                return Err(RunError::NotAnIntValue);
                            },
                        }
                    },
                    _ => {
                        return Err(RunError::NotAPointerValue);
                    },
                }
            },
            Instruction::Add(a, b) => {
                if *a >= regs.len() || *b >= regs.len() {
                    return Err(RunError::BadValueRef);
                }
                match (regs[*a], regs[*b]) {
                    (RunValue::Int(x), RunValue::Int(y)) => {
                        let z: u64 = (x as u64 + y as u64) % 0x100000000u64;
                        regs.push(RunValue::Int(z as u32));
                        proof {
                            assert(z as u32 == spec_wrap_add(x, y));
                        }
                    },
                    _ => {
                        return Err(RunError::NotAnIntValue);
                    },
                }
            },
            Instruction::Sub(a, b) => {
                if *a >= regs.len() || *b >= regs.len() {
                    return Err(RunError::BadValueRef);
                }
                match (regs[*a], regs[*b]) {
                    (RunValue::Int(x), RunValue::Int(y)) => {
                        let z: u32 = if x >= y {
                            x - y
                        } else {
                            ((0x100000000u64 + x as u64 - y as u64) % 0x100000000u64) as u32
                        };
                        regs.push(RunValue::Int(z));
                        proof {
                            assert(z == spec_wrap_sub(x, y));
                        }
                    },
                    _ => {
                        return Err(RunError::NotAnIntValue);
                    },
                }
            },
            Instruction::Mul(a, b) => {
                if *a >= regs.len() || *b >= regs.len() {
                    return Err(RunError::BadValueRef);
                }
                match (regs[*a], regs[*b]) {
                    (RunValue::Int(x), RunValue::Int(y)) => {
                        proof {
                            assert((x as int) * (y as int) <= 0xFFFFFFFFi64 * 0xFFFFFFFFi64)
                                by (nonlinear_arith)
                                requires
                                    x as int <= 0xFFFFFFFFi64,
                                    y as int <= 0xFFFFFFFFi64,
                                    x as int >= 0,
                                    y as int >= 0,
                            ;
                        }
                        let z: u64 = (x as u64 * y as u64) % 0x100000000u64;
                        regs.push(RunValue::Int(z as u32));
                        proof {
                            assert(z as u32 == spec_wrap_mul(x, y));
                        }
                    },
                    _ => {
                        return Err(RunError::NotAnIntValue);
                    },
                }
            },
            Instruction::UDiv(a, b) => {
                if *a >= regs.len() || *b >= regs.len() {
                    return Err(RunError::BadValueRef);
                }
                match (regs[*a], regs[*b]) {
                    (RunValue::Int(x), RunValue::Int(y)) => {
                        if y == 0 {
                            return Err(RunError::DivByZero);
                        }
                        regs.push(RunValue::Int(x / y));
                    },
                    _ => {
                        return Err(RunError::NotAnIntValue);
                    },
                }
            },
            Instruction::Call(fi, argids) => {
                if fuel == 0 {
                    return Err(RunError::OutOfFuel);
                }
                let m = argids.len();
                let mut vals: Vec<u32> = Vec::new();
                let mut k: usize = 0;
                proof {
                    assert(argids@.subrange(0, m as int) =~= argids@);
                    assert(vals@ =~= Seq::<u32>::empty());
                }
                while k < m
                    invariant
                        0 <= k <= m,
                        m == argids@.len(),
                        vals@.len() == k,
                        regs@.len() == i,
                        i < n,
                        n == f.instructions@.len(),
                        fuel > 0,
                        f@.instructions[i as int] == InstructionView::Call(*fi, argids@),
                        spec_run_function(module@, fidx as int, args@, fuel as nat)
                            == spec_run_instrs(
                            module@,
                            f@,
                            i as int,
                            regs@,
                            regions@.map_values(|rg: Region| rg@),
                            args@,
                            fuel as nat,
                        ),
                        match spec_gather_args(argids@.subrange(k as int, m as int), regs@) {
                            Ok(rest) => spec_gather_args(argids@, regs@) == Ok::<_, RunError>(
                                vals@ + rest,
                            ),
                            Err(e) => spec_gather_args(argids@, regs@) == Err::<Seq<u32>, _>(e),
                        },
                    decreases m - k,
                {
                    let ghost rem = argids@.subrange(k as int, m as int);
                    proof {
                        assert(rem[0] == argids@[k as int]);
                    }
                    let aid = argids[k];
                    if aid >= regs.len() {
                        return Err(RunError::BadValueRef);
                    }
                    match regs[aid] {
                        RunValue::Int(x) => {
                            let ghost vals0 = vals@;
                            vals.push(x);
                            proof {
                                assert(rem.subrange(1, rem.len() as int) =~= argids@.subrange(
                                    k as int + 1,
                                    m as int,
                                ));
                                assert forall|p0: Seq<u32>| true implies vals0 + (seq![x] + p0)
                                    =~= vals@ + p0 by {
                                    assert(vals0 + (seq![x] + p0) =~= (vals0.push(x)) + p0);
                                    assert(vals@ =~= vals0.push(x));
                                }
                            }
                        },
                        _ => {
                            return Err(RunError::NotAnIntValue);
                        },
                    }
                    k = k + 1;
                }
                proof {
                    assert(argids@.subrange(m as int, m as int) =~= Seq::<usize>::empty());
                    assert(vals@ + Seq::<u32>::empty() =~= vals@);
                }
                match run_function(module, *fi, &vals, fuel - 1) {
                    Ok(ret) => {
                        regs.push(RunValue::Int(ret));
                    },
                    Err(e) => {
                        return Err(e);
                    },
                }
            },
            Instruction::Ret(v) => {
                if *v >= regs.len() {
                    return Err(RunError::BadValueRef);
                }
                match regs[*v] {
                    RunValue::Int(x) => {
                        return Ok(x);
                    },
                    _ => {
                        return Err(RunError::NotAnIntValue);
                    },
                }
            },
        }
        i = i + 1;
    }
    Err(RunError::MissingReturn)
}

/// Runs a module's first function named `main` on no arguments, with a
/// fuel bound on the call depth.
pub fn run_main(module: &Module, fuel: u64) -> (r: Result<u32, RunError>)
    ensures
        r == spec_run_main(module@, fuel as nat),
{
    let name = "main".to_owned();
    proof {
        reveal_strlit("main");
        assert(name@ =~= spec_main_name());
    }
    let count = module.functions.len();
    let mut i: usize = 0;
    proof {
        assert(module@.functions.skip(0) =~= module@.functions);
    }
    while i < count
        invariant
            0 <= i <= count,
            name@ == spec_main_name(),
            count == module.functions@.len(),
            count == module@.functions.len(),
            match crate::ir::spec_find_function(
                module@.functions.skip(i as int),
                spec_main_name(),
            ) {
                Some(j) => crate::ir::spec_find_function(module@.functions, spec_main_name())
                    == Some(j + i),
                None => crate::ir::spec_find_function(module@.functions, spec_main_name())
                    is None,
            },
        decreases count - i,
    {
        proof {
            assert(module@.functions.skip(i as int)[0] == module@.functions[i as int]);
            assert(module@.functions.skip(i as int).drop_first() =~= module@.functions.skip(
                i as int + 1,
            ));
        }
        if module.functions[i].identifier == name {
            let empty_args: Vec<u32> = Vec::new();
            proof {
                assert(empty_args@ =~= Seq::<u32>::empty());
            }
            return run_function(module, i, &empty_args, fuel);
        }
        i = i + 1;
    }
    proof {
        assert(module@.functions.skip(count as int).len() == 0);
    }
    Err(RunError::BadFunction)
}

} // verus!
