//! The execution engine: the instruction set, the program, and the
//! fetch-decode-execute machinery with its dispatch and coercion semantics.
//!
//! The whole observable behaviour of one instruction is given by the
//! deterministic small-step function [`step_spec`]; the executable
//! [`Vm::run_next`] is proved to realise exactly that step.  The machine has
//! two states, running (pointer in range) and halted (pointer out of range);
//! halting is purely pointer-range-based and absorbing.
//!
//! Floating-point arithmetic cannot be computed inside the verified library:
//! when the next instruction would combine two numbers, the engine surfaces
//! an [`ArithRequest`] and the host hands the resulting number back in.  The
//! engine is verified to thread exactly the number it was handed; what that
//! number is remains the host's contract.

use vstd::prelude::*;
use crate::error::{ErrorModel, VmError};
use crate::value::{Numeric, NumericModel, Value, ValueModel};
use vstd::hash_map::StringHashMap;
use vstd::string::StringExecFns;

verus! {

/// One instruction of the machine, carrying its own operands.
#[derive(Clone, Copy, PartialEq, Eq, Structural, Debug)]
pub enum Op {
    /// Push the constant pool entry at this index.
    LoadConstant(usize),
    /// Pop one value; if it is truthy, skip the next instruction.
    TestNot,
    /// Add this offset to the instruction pointer (checked).
    Jump(isize),
    /// Pop one value and bind it under the display string of the constant
    /// pool entry at this index.
    SetGlobal(usize),
    /// Push the value bound under the display string of the constant pool
    /// entry at this index.
    GetGlobal(usize),
    Add,
    Sub,
    Mul,
    Div,
    Mod,
    /// Pop one value and emit its debug form on the output sink.
    Print,
}

/// A program: an immutable instruction sequence plus an indexed constant
/// pool, owned exclusively by the engine for the duration of a run.
pub struct Program {
    pub constants: Vec<Value>,
    pub ops: Vec<Op>,
}

/// The engine: the live operand stack, the program, the global table, the
/// instruction pointer, and the output sink that `Print` appends to.
pub struct Vm {
    pub stack: Vec<Value>,
    pub program: Program,
    pub globals: StringHashMap<Value>,
    pub ip: usize,
    pub output: Vec<String>,
}

/// An arithmetic instruction about to combine two numbers.  The host
/// computes the resulting number from the two operands' bit patterns and
/// hands it to [`Vm::run_next`].
#[derive(Clone, Copy, PartialEq, Eq, Structural, Debug)]
pub struct ArithRequest {
    /// The arithmetic instruction (`Add`, `Sub`, `Mul`, `Div` or `Mod`).
    pub op: Op,
    /// Bit pattern of the left operand.
    pub lhs_bits: u64,
    /// Bit pattern of the right operand.
    pub rhs_bits: u64,
}

/// The mathematical model of the whole engine state.
#[verifier::ext_equal]
pub struct VmState {
    pub stack: Seq<ValueModel>,
    pub constants: Seq<ValueModel>,
    pub ops: Seq<Op>,
    pub globals: Map<Seq<char>, ValueModel>,
    pub ip: nat,
    pub output: Seq<Seq<char>>,
}

impl View for Vm {
    type V = VmState;

    open spec fn view(&self) -> VmState {
        VmState {
            stack: self.stack@.map_values(|v: Value| v@),
            constants: self.program.constants@.map_values(|v: Value| v@),
            ops: self.program.ops@,
            globals: self.globals@.map_values(|v: Value| v@),
            ip: self.ip as nat,
            output: self.output@.map_values(|s: String| s@),
        }
    }
}

/// Whether this instruction is one of the five arithmetic instructions.
pub open spec fn is_arith_op(op: Op) -> bool {
    op == Op::Add || op == Op::Sub || op == Op::Mul || op == Op::Div || op == Op::Mod
}

/// Whether the constant pool index carried by this instruction, if any, is
/// within the pool.
pub open spec fn op_in_bounds(op: Op, n_constants: nat) -> bool {
    match op {
        Op::LoadConstant(i) => i < n_constants,
        Op::SetGlobal(i) => i < n_constants,
        Op::GetGlobal(i) => i < n_constants,
        _ => true,
    }
}

/// Well-formedness of an engine state: every constant pool index referenced
/// by an instruction is valid (the program producer's responsibility), and
/// the instruction sequence leaves room for the trailing pointer advance.
pub open spec fn state_wf(s: VmState) -> bool {
    &&& s.ops.len() < usize::MAX
    &&& forall|i: int|
        0 <= i < s.ops.len() ==> op_in_bounds(#[trigger] s.ops[i], s.constants.len())
}

/// The machine is halted exactly when the pointer is out of range; halting
/// is the sole termination condition and is absorbing.
pub open spec fn is_halted(s: VmState) -> bool {
    s.ip >= s.ops.len()
}

/// The arithmetic request the next step needs, if any: the next instruction
/// is arithmetic and the two topmost stack values are numbers.
pub open spec fn arith_request_spec(s: VmState) -> Option<ArithRequest> {
    if s.ip < s.ops.len() && is_arith_op(s.ops[s.ip as int]) && s.stack.len() >= 2 {
        match (s.stack[s.stack.len() - 2], s.stack[s.stack.len() - 1]) {
            (ValueModel::Number(a), ValueModel::Number(b)) => Some(
                ArithRequest { op: s.ops[s.ip as int], lhs_bits: a.bits, rhs_bits: b.bits },
            ),
            _ => None,
        }
    } else {
        None
    }
}

/// The value an arithmetic instruction leaves on the stack, or the error it
/// raises.  Two numbers combine to the number the host computed.  `Add` with
/// a string on either side concatenates, coercing the other side to its
/// display form.  Every other combination is a type mismatch carrying the
/// operands' type tags.
pub open spec fn combined_value(
    op: Op,
    l: ValueModel,
    r: ValueModel,
    arith: Option<NumericModel>,
) -> Result<ValueModel, ErrorModel>
    recommends
        is_arith_op(op),
{
    if op == Op::Add {
        match (l, r) {
            (ValueModel::Number(_), ValueModel::Number(_)) => Ok(
                ValueModel::Number(arith.unwrap()),
            ),
            (ValueModel::Text(a), rv) => Ok(ValueModel::Text(a + rv.display_text())),
            (lv, ValueModel::Text(b)) => Ok(ValueModel::Text(lv.display_text() + b)),
            (lv, rv) => Err(ErrorModel::TypeMismatch { lhs: lv.type_tag(), rhs: rv.type_tag() }),
        }
    } else {
        match (l, r) {
            (ValueModel::Number(_), ValueModel::Number(_)) => Ok(
                ValueModel::Number(arith.unwrap()),
            ),
            (lv, rv) => Err(ErrorModel::TypeMismatch { lhs: lv.type_tag(), rhs: rv.type_tag() }),
        }
    }
}

/// The deterministic small step of the machine: the effect of executing the
/// instruction at the current pointer, including the unconditional trailing
/// pointer advance.  A `Jump`'s target is computed from the pointer before
/// that advance, so `Jump(offset)` lands at `ip + offset + 1`; `TestNot`
/// skips by one extra advance.  `arith` is the number the host computed for
/// an arithmetic step (see [`arith_request_spec`]); it is read only there.
pub open spec fn step_spec(s: VmState, arith: Option<NumericModel>) -> Result<
    VmState,
    ErrorModel,
>
    recommends
        s.ip < s.ops.len(),
        state_wf(s),
        arith is Some <==> arith_request_spec(s) is Some,
{
    let op = s.ops[s.ip as int];
    match op {
        Op::LoadConstant(i) => Ok(
            VmState { stack: s.stack.push(s.constants[i as int]), ip: s.ip + 1, ..s },
        ),
        Op::TestNot => {
            if s.stack.len() == 0 {
                Err(ErrorModel::StackUnderflow)
            } else {
                let skip: nat = if s.stack.last().truthy() {
                    2
                } else {
                    1
                };
                Ok(VmState { stack: s.stack.drop_last(), ip: s.ip + skip, ..s })
            }
        },
        Op::Jump(offset) => {
            let target = s.ip as int + offset as int;
            if target < 0 || target + 1 > usize::MAX as int {
                Err(ErrorModel::InvalidJumpTarget)
            } else {
                Ok(VmState { ip: (target + 1) as nat, ..s })
            }
        },
        Op::SetGlobal(i) => {
            if s.stack.len() == 0 {
                Err(ErrorModel::StackUnderflow)
            } else {
                let name = s.constants[i as int].display_text();
                Ok(
                    VmState {
                        stack: s.stack.drop_last(),
                        globals: s.globals.insert(name, s.stack.last()),
                        ip: s.ip + 1,
                        ..s
                    },
                )
            }
        },
        Op::GetGlobal(i) => {
            let name = s.constants[i as int].display_text();
            if s.globals.dom().contains(name) {
                Ok(VmState { stack: s.stack.push(s.globals[name]), ip: s.ip + 1, ..s })
            } else {
                Err(ErrorModel::UnboundGlobal)
            }
        },
        Op::Print => {
            if s.stack.len() == 0 {
                Err(ErrorModel::StackUnderflow)
            } else {
                Ok(
                    VmState {
                        stack: s.stack.drop_last(),
                        output: s.output.push(s.stack.last().debug_text()),
                        ip: s.ip + 1,
                        ..s
                    },
                )
            }
        },
        // Add, Sub, Mul, Div, Mod: the five arithmetic instructions.
        _ => {
            if s.stack.len() < 2 {
                Err(ErrorModel::StackUnderflow)
            } else {
                match combined_value(op, s.stack[s.stack.len() - 2], s.stack.last(), arith) {
                    Ok(v) => Ok(
                        VmState {
                            stack: s.stack.drop_last().drop_last().push(v),
                            ip: s.ip + 1,
                            ..s
                        },
                    ),
                    Err(e) => Err(e),
                }
            }
        },
    }
}

/// The model of the host's answer to an arithmetic request.
pub open spec fn arith_view(arith: Option<Numeric>) -> Option<NumericModel> {
    match arith {
        Some(n) => Some(n@),
        None => None,
    }
}

impl Vm {
    /// An engine bound to a program, with an empty stack, an empty global
    /// table, an empty output sink, and pointer zero.
    pub fn new(program: Program) -> (vm: Vm)
        ensures
            vm@ == (VmState {
                stack: Seq::<ValueModel>::empty(),
                constants: program.constants@.map_values(|v: Value| v@),
                ops: program.ops@,
                globals: Map::<Seq<char>, ValueModel>::empty(),
                ip: 0,
                output: Seq::<Seq<char>>::empty(),
            }),
    {
        let vm = Vm {
            stack: Vec::new(),
            program,
            globals: StringHashMap::new(),
            ip: 0,
            output: Vec::new(),
        };
        proof {
            assert(vm@ =~~= (VmState {
                stack: Seq::<ValueModel>::empty(),
                constants: vm.program.constants@.map_values(|v: Value| v@),
                ops: vm.program.ops@,
                globals: Map::<Seq<char>, ValueModel>::empty(),
                ip: 0,
                output: Seq::<Seq<char>>::empty(),
            }));
        }
        vm
    }

    /// The arithmetic request the next step needs, if any.
    pub fn arith_request(&self) -> (r: Option<ArithRequest>)
        ensures
            r == arith_request_spec(self@),
    {
        if self.ip < self.program.ops.len() {
            let op = self.program.ops[self.ip];
            let is_arith = match op {
                Op::Add => true,
                Op::Sub => true,
                Op::Mul => true,
                Op::Div => true,
                Op::Mod => true,
                _ => false,
            };
            if is_arith && self.stack.len() >= 2 {
                let n = self.stack.len();
                match (&self.stack[n - 2], &self.stack[n - 1]) {
                    (Value::Number(a), Value::Number(b)) => Some(
                        ArithRequest { op, lhs_bits: a.bits, rhs_bits: b.bits },
                    ),
                    _ => None,
                }
            } else {
                None
            }
        } else {
            None
        }
    }

    /// Fetch the instruction at the current pointer and execute exactly its
    /// effect, as [`step_spec`] states it: on success the new state is the
    /// stepped state, on a fatal error the state is left unchanged and the
    /// error is surfaced.  `arith` must be the host's answer exactly when
    /// the step is an arithmetic one on two numbers.
    pub fn run_next(&mut self, arith: Option<Numeric>) -> (r: Result<(), VmError>)
        requires
            state_wf(old(self)@),
            old(self)@.ip < old(self)@.ops.len(),
            arith is Some <==> arith_request_spec(old(self)@) is Some,
        ensures
            state_wf(final(self)@),
            match step_spec(old(self)@, arith_view(arith)) {
                Ok(s1) => r is Ok && final(self)@ == s1,
                Err(e) => (r matches Err(err) && err@ == e) && final(self)@ == old(self)@,
            },
    {
        let ghost s0 = self@;
        let op = self.program.ops[self.ip];
        match op {
            Op::LoadConstant(index) => {
                let v = self.program.constants[index].clone();
                self.stack.push(v);
                self.ip = self.ip + 1;
                proof {
                    assert(self@ =~~= step_spec(s0, arith_view(arith))->Ok_0);
                }
                Ok(())
            },
            Op::TestNot => {
                if self.stack.len() == 0 {
                    return Err(VmError::StackUnderflow);
                }
                let value = self.stack.pop().unwrap();
                if value.is_truthy() {
                    self.ip = self.ip + 2;
                } else {
                    self.ip = self.ip + 1;
                }
                proof {
                    assert(self@ =~~= step_spec(s0, arith_view(arith))->Ok_0);
                }
                Ok(())
            },
            Op::Jump(offset) => {
                if offset >= 0 {
                    let delta = offset as usize;
                    if self.ip <= usize::MAX - 1 - delta {
                        self.ip = self.ip + delta + 1;
                        proof {
                            assert(self@ =~~= step_spec(s0, arith_view(arith))->Ok_0);
                        }
                        Ok(())
                    } else {
                        Err(VmError::InvalidJumpTarget)
                    }
                } else {
                    let magnitude = (-(offset as i128)) as usize;
                    if self.ip >= magnitude {
                        self.ip = self.ip - magnitude + 1;
                        proof {
                            assert(self@ =~~= step_spec(s0, arith_view(arith))->Ok_0);
                        }
                        Ok(())
                    } else {
                        Err(VmError::InvalidJumpTarget)
                    }
                }
            },
            Op::SetGlobal(index) => {
                if self.stack.len() == 0 {
                    return Err(VmError::StackUnderflow);
                }
                let value = self.stack.pop().unwrap();
                let name = self.program.constants[index].to_string();
                self.globals.insert(name, value);
                self.ip = self.ip + 1;
                proof {
                    assert(self@ =~~= step_spec(s0, arith_view(arith))->Ok_0);
                }
                Ok(())
            },
            Op::GetGlobal(index) => {
                let name = self.program.constants[index].to_string();
                match self.globals.get(name.as_str()) {
                    Some(bound) => {
                        let value = bound.clone();
                        self.stack.push(value);
                        self.ip = self.ip + 1;
                        proof {
                            assert(self@ =~~= step_spec(s0, arith_view(arith))->Ok_0);
                        }
                        Ok(())
                    },
                    None => Err(VmError::UnboundGlobal),
                }
            },
            Op::Print => {
                if self.stack.len() == 0 {
                    return Err(VmError::StackUnderflow);
                }
                let value = self.stack.pop().unwrap();
                let line = value.debug_string();
                self.output.push(line);
                self.ip = self.ip + 1;
                proof {
                    assert(self@ =~~= step_spec(s0, arith_view(arith))->Ok_0);
                }
                Ok(())
            },
            Op::Add => self.binary_op(op, arith),
            Op::Sub => self.binary_op(op, arith),
            Op::Mul => self.binary_op(op, arith),
            Op::Div => self.binary_op(op, arith),
            Op::Mod => self.binary_op(op, arith),
        }
    }

    /// One arithmetic instruction: pop the right operand, then the left,
    /// combine them as [`combined_value`] states, and push the result.
    fn binary_op(&mut self, op: Op, arith: Option<Numeric>) -> (r: Result<(), VmError>)
        requires
            state_wf(old(self)@),
            old(self)@.ip < old(self)@.ops.len(),
            old(self)@.ops[old(self)@.ip as int] == op,
            is_arith_op(op),
            arith is Some <==> arith_request_spec(old(self)@) is Some,
        ensures
            state_wf(final(self)@),
            match step_spec(old(self)@, arith_view(arith)) {
                Ok(s1) => r is Ok && final(self)@ == s1,
                Err(e) => (r matches Err(err) && err@ == e) && final(self)@ == old(self)@,
            },
    {
        let ghost s0 = self@;
        if self.stack.len() < 2 {
            return Err(VmError::StackUnderflow);
        }
        let n = self.stack.len();
        let defined = match (&self.stack[n - 2], &self.stack[n - 1]) {
            (Value::Number(_), Value::Number(_)) => true,
            (Value::String(_), _) => op == Op::Add,
            (_, Value::String(_)) => op == Op::Add,
            _ => false,
        };
        if !defined {
            let lhs_tag = self.stack[n - 2].get_type().to_owned();
            let rhs_tag = self.stack[n - 1].get_type().to_owned();
            return Err(VmError::TypeMismatch { lhs: lhs_tag, rhs: rhs_tag });
        }
        let rhs = self.stack.pop().unwrap();
        let lhs = self.stack.pop().unwrap();
        let result = match (lhs, rhs) {
            (Value::Number(_), Value::Number(_)) => Value::Number(arith.unwrap()),
            (Value::String(a), rv) => {
                let mut text = a;
                text.append(rv.to_string().as_str());
                Value::String(text)
            },
            (lv, Value::String(b)) => {
                let mut text = lv.to_string();
                text.append(b.as_str());
                Value::String(text)
            },
            _ => vstd::pervasive::unreached(),
        };
        self.stack.push(result);
        self.ip = self.ip + 1;
        proof {
            assert(self@ =~~= step_spec(s0, arith_view(arith))->Ok_0);
        }
        Ok(())
    }
}

/// Why a bounded run stopped without a fatal error.
#[derive(Clone, Copy, PartialEq, Eq, Structural, Debug)]
pub enum RunStop {
    /// The pointer ran off the end of the instruction sequence: the sole,
    /// absorbing termination condition.
    Halted,
    /// The next step combines two numbers; the host must answer this request
    /// and resume with [`Vm::run_next`].
    NeedsArith(ArithRequest),
    /// The step budget ran out while the machine was still running.  A
    /// program may loop forever, so every verified run is bounded; the host
    /// resumes with a fresh budget.
    OutOfFuel,
}

impl Vm {
    /// Run plain steps — steps that need no arithmetic answer — until the
    /// machine halts, the next step needs an arithmetic answer (stopped
    /// before that instruction), the step budget runs out, or a fatal error
    /// aborts the run (stopped at the faulting instruction, whose state
    /// effects are not committed).  Out of fuel means exactly `fuel` plain
    /// steps were taken with the machine still running: the driver owes one
    /// step per unit of budget.
    #[verifier::loop_isolation(false)]
    pub fn run_until_arith(&mut self, fuel: usize) -> (r: Result<RunStop, VmError>)
        requires
            state_wf(old(self)@),
        ensures
            state_wf(final(self)@),
            exists|n: nat| plain_steps_to(old(self)@, final(self)@, n),
            match r {
                Ok(RunStop::Halted) => is_halted(final(self)@),
                Ok(RunStop::NeedsArith(request)) => arith_request_spec(final(self)@) == Some(
                    request,
                ),
                Ok(RunStop::OutOfFuel) => !is_halted(final(self)@) && plain_steps_to(
                    old(self)@,
                    final(self)@,
                    fuel as nat,
                ),
                Err(e) => !is_halted(final(self)@) && arith_request_spec(final(self)@) is None
                    && (step_spec(final(self)@, Option::None) matches Err(em) && em == e@),
            },
    {
        proof {
            assert(plain_steps_to(self@, self@, 0));
        }
        let mut remaining = fuel;
        while self.ip < self.program.ops.len()
            invariant
                state_wf(self@),
                remaining <= fuel,
                plain_steps_to(old(self)@, self@, (fuel - remaining) as nat),
            decreases remaining,
        {
            match self.arith_request() {
                Some(request) => {
                    return Ok(RunStop::NeedsArith(request));
                },
                None => {},
            }
            if remaining == 0 {
                return Ok(RunStop::OutOfFuel);
            }
            remaining = remaining - 1;
            let ghost pre = self@;
            match self.run_next(None) {
                Ok(()) => {
                    proof {
                        lemma_plain_steps_extend(
                            old(self)@,
                            pre,
                            self@,
                            (fuel - remaining - 1) as nat,
                        );
                    }
                },
                Err(e) => {
                    return Err(e);
                },
            }
        }
        Ok(RunStop::Halted)
    }
}

/// `n` plain steps: successful steps that need no arithmetic answer from
/// the host.
pub open spec fn plain_steps_to(s0: VmState, s1: VmState, n: nat) -> bool
    decreases n,
{
    if n == 0 {
        s0 == s1
    } else {
        &&& s0.ip < s0.ops.len()
        &&& arith_request_spec(s0) is None
        &&& step_spec(s0, Option::None) matches Ok(m) && plain_steps_to(m, s1, (n - 1) as nat)
    }
}

/// Chaining: one more plain step at the end of a chain of plain steps.
pub proof fn lemma_plain_steps_extend(s0: VmState, s1: VmState, s2: VmState, n: nat)
    requires
        plain_steps_to(s0, s1, n),
        s1.ip < s1.ops.len(),
        arith_request_spec(s1) is None,
        step_spec(s1, Option::None) == Ok::<VmState, ErrorModel>(s2),
    ensures
        plain_steps_to(s0, s2, n + 1),
    decreases n,
{
    if n == 0 {
        assert(plain_steps_to(s2, s2, 0));
    } else {
        let m = step_spec(s0, Option::None)->Ok_0;
        assert(plain_steps_to(m, s1, (n - 1) as nat));
        lemma_plain_steps_extend(m, s1, s2, (n - 1) as nat);
    }
}

/// Truthiness drives conditional skipping: `TestNot` pops the tested value
/// and skips exactly one instruction when it was truthy, none otherwise.
pub proof fn lemma_test_not_skips(s: VmState)
    requires
        s.ip < s.ops.len(),
        s.ops[s.ip as int] == Op::TestNot,
        s.stack.len() >= 1,
    ensures
        step_spec(s, Option::None) matches Ok(m) && m.stack == s.stack.drop_last() && m.ip
            == s.ip + (if s.stack.last().truthy() {
            2int
        } else {
            1int
        }),
{
}

/// Global round trip: binding a value under a name and immediately reading
/// that name back yields the same value on top of the stack.
pub proof fn lemma_global_round_trip(s: VmState, i: usize)
    requires
        s.ip + 1 < s.ops.len(),
        s.ops[s.ip as int] == Op::SetGlobal(i),
        s.ops[s.ip as int + 1] == Op::GetGlobal(i),
        i < s.constants.len(),
        s.stack.len() >= 1,
    ensures
        step_spec(s, Option::None) matches Ok(s1) && step_spec(s1, Option::None) matches Ok(s2)
            && s2.stack.len() == s.stack.len() && s2.stack.last() == s.stack.last(),
{
}

/// Arithmetic on two numbers: the instruction pops the right operand, then
/// the left, pushes exactly the number the host computed for them, and
/// advances the pointer by one.
pub proof fn lemma_arith_pushes_host_answer(s: VmState, n: NumericModel)
    requires
        s.ip < s.ops.len(),
        is_arith_op(s.ops[s.ip as int]),
        s.stack.len() >= 2,
        s.stack[s.stack.len() - 2] is Number,
        s.stack.last() is Number,
    ensures
        step_spec(s, Some(n)) matches Ok(m) && m.stack == s.stack.drop_last().drop_last().push(
            ValueModel::Number(n),
        ) && m.ip == s.ip + 1,
{
}

/// `Add` with a string on either side concatenates: the result is always a
/// string, the display form of the left operand followed by the display
/// form of the right.
pub proof fn lemma_add_concatenates(s: VmState)
    requires
        s.ip < s.ops.len(),
        s.ops[s.ip as int] == Op::Add,
        s.stack.len() >= 2,
        s.stack[s.stack.len() - 2] is Text || s.stack.last() is Text,
    ensures
        step_spec(s, Option::None) matches Ok(m) && m.stack.last() == ValueModel::Text(
            s.stack[s.stack.len() - 2].display_text() + s.stack.last().display_text(),
        ),
{
}

/// Reading a name with no current binding is a fatal unbound-global error.
pub proof fn lemma_unbound_global_faults(s: VmState, i: usize)
    requires
        s.ip < s.ops.len(),
        s.ops[s.ip as int] == Op::GetGlobal(i),
        i < s.constants.len(),
        !s.globals.dom().contains(s.constants[i as int].display_text()),
    ensures
        step_spec(s, Option::None) == Err::<VmState, ErrorModel>(ErrorModel::UnboundGlobal),
{
}

/// Jump arithmetic: a `Jump(0)` from pointer `p` lands execution at `p + 1`,
/// the net effect of the trailing generic advance.
pub proof fn lemma_jump_zero_lands_next(s: VmState)
    requires
        state_wf(s),
        s.ip < s.ops.len(),
        s.ops[s.ip as int] == Op::Jump(0),
    ensures
        step_spec(s, Option::None) matches Ok(m) && m.ip == s.ip + 1,
{
}

/// Jump arithmetic: a `Jump(-1)` from a pointer `p >= 1` re-executes
/// instruction `p`.  (From pointer zero the computed target is negative and
/// the jump is a fatal invalid-jump-target error instead.)
pub proof fn lemma_jump_minus_one_repeats(s: VmState)
    requires
        state_wf(s),
        s.ip < s.ops.len(),
        1 <= s.ip,
        s.ops[s.ip as int] == Op::Jump(-1isize),
    ensures
        step_spec(s, Option::None) matches Ok(m) && m.ip == s.ip,
{
}

/// Underflow: an arithmetic instruction with fewer than two values on the
/// stack is a fatal stack-underflow error, never a silent no-op, whatever
/// answer the host supplied.
pub proof fn lemma_arith_underflow_faults(s: VmState, arith: Option<NumericModel>)
    requires
        s.ip < s.ops.len(),
        is_arith_op(s.ops[s.ip as int]),
        s.stack.len() < 2,
    ensures
        step_spec(s, arith) == Err::<VmState, ErrorModel>(ErrorModel::StackUnderflow),
{
}

} // verus!
