//! Baseplate VM: the loader/decoder surface around a bytecode module
//! and a small stack machine over its code section.

use vstd::prelude::*;

use crate::bytecode::{BytecodeModule, ModuleV, Value};

verus! {

/// Errors raised while running bytecode.
#[derive(Debug, Clone, Copy, PartialEq, Eq, Structural)]
pub enum VmError {
    StackUnderflow,
    TypeError,
    UnknownOpcode { opcode: u8, pc: usize },
    TruncatedInstruction { pc: usize },
}

/// Outcome of one instruction.
#[derive(Debug, Clone, Copy, PartialEq, Eq, Structural)]
pub enum VmStep {
    Continue,
    Halted,
}

/// Mathematical view of the VM.
pub ghost struct VmV {
    pub module: ModuleV,
    pub pc: usize,
    pub stack: Seq<Value>,
}

/// One decoded instruction over the view: the next program counter,
/// stack, and outcome.
pub open spec fn spec_vm_step(v: VmV) -> Result<(VmV, VmStep), VmError> {
    let code = v.module.code;
    if v.pc >= code.len() {
        Ok((v, VmStep::Halted))
    } else {
        let op = code[v.pc as int];
        if op == 0 {
            // NOP, three bytes
            Ok((VmV { pc: (v.pc + 3) as usize, ..v }, VmStep::Continue))
        } else if op == 1 {
            // HALT
            Ok((VmV { pc: (v.pc + 3) as usize, ..v }, VmStep::Halted))
        } else if op == 2 {
            // JMP imm24, little-endian, absolute
            if v.pc + 3 > code.len() {
                Err(VmError::TruncatedInstruction { pc: v.pc })
            } else {
                let addr = (code[v.pc as int] + code[v.pc + 1] * 256 + code[v.pc + 2]
                    * 65536) as usize;
                Ok((VmV { pc: addr, ..v }, VmStep::Continue))
            }
        } else if op == 16 {
            // LDK: pushes a placeholder until the pool is wired through
            Ok((VmV { pc: (v.pc + 6) as usize, stack: v.stack.push(Value::Nil), ..v },
                VmStep::Continue))
        } else if op == 17 {
            // LDI imm24
            if v.pc + 3 > code.len() {
                Err(VmError::TruncatedInstruction { pc: v.pc })
            } else {
                let imm = (code[v.pc as int] + code[v.pc + 1] * 256 + code[v.pc + 2]
                    * 65536) as i32;
                Ok((VmV { pc: (v.pc + 6) as usize, stack: v.stack.push(Value::Int24(imm)), ..v },
                    VmStep::Continue))
            }
        } else if op == 32 {
            // ADD over two 24-bit integers
            if v.stack.len() < 2 {
                Err(VmError::StackUnderflow)
            } else {
                let b = v.stack[v.stack.len() - 1];
                let a = v.stack[v.stack.len() - 2];
                if (a is Int24) && (b is Int24) {
                    let sum = vstd::wrapping::i32_specs::wrapping_add(a->Int24_0, b->Int24_0);
                    Ok((VmV {
                        pc: (v.pc + 3) as usize,
                        stack: v.stack.take(v.stack.len() - 2).push(Value::Int24(sum)),
                        ..v
                    }, VmStep::Continue))
                } else {
                    Err(VmError::TypeError)
                }
            }
        } else {
            Err(VmError::UnknownOpcode { opcode: op, pc: v.pc })
        }
    }
}

/// Outcome of running at most `fuel` instructions from state `v`: the
/// final state, and whether a halt was reached, or the first error.
pub open spec fn spec_vm_run(v: VmV, fuel: nat) -> (VmV, Result<bool, VmError>)
    decreases fuel,
{
    if fuel == 0 {
        (v, Ok(false))
    } else {
        match spec_vm_step(v) {
            Err(e) => (v, Err(e)),
            Ok((v1, step)) => if step is Halted {
                (v1, Ok(true))
            } else {
                spec_vm_run(v1, (fuel - 1) as nat)
            },
        }
    }
}

/// Simple VM state over a loaded module.
pub struct BaseplateVm {
    module: BytecodeModule,
    pc: usize,
    stack: Vec<Value>,
}

impl View for BaseplateVm {
    type V = VmV;

    closed spec fn view(&self) -> VmV {
        VmV { module: self.module@, pc: self.pc, stack: self.stack@ }
    }
}

impl BaseplateVm {
    /// Create a new VM instance over a loaded module.
    pub fn new(bytecode: BytecodeModule) -> (vm: BaseplateVm)
        ensures
            vm@ == (VmV { module: bytecode@, pc: 0, stack: Seq::empty() }),
    {
        let vm = BaseplateVm { module: bytecode, pc: 0, stack: Vec::new() };
        proof {
            assert(vm@.stack =~= Seq::<Value>::empty());
        }
        vm
    }

    /// Execute one instruction.
    #[verifier::spinoff_prover]
    #[verifier::rlimit(100)]
    pub fn step(&mut self) -> (r: Result<VmStep, VmError>)
        requires
            old(self)@.pc + 6 <= usize::MAX,
        ensures
            r is Ok <==> spec_vm_step(old(self)@) is Ok,
            r is Ok ==> (final(self)@, r->Ok_0) == spec_vm_step(old(self)@)->Ok_0,
            r is Err ==> final(self)@ == old(self)@ && r->Err_0 == spec_vm_step(old(self)@)->Err_0,
            final(self)@.module == old(self)@.module,
            final(self)@.pc <= old(self)@.module.code.len() + 5 || final(self)@.pc <= 0xFFFFFF
                || final(self)@.pc == old(self)@.pc,
    {
        let code_len = self.module.bytecode().len();
        if self.pc >= code_len {
            return Ok(VmStep::Halted);
        }
        let op = self.module.bytecode()[self.pc];
        if op == 0 {
            self.pc = self.pc + 3;
            Ok(VmStep::Continue)
        } else if op == 1 {
            self.pc = self.pc + 3;
            Ok(VmStep::Halted)
        } else if op == 2 {
            if self.pc + 3 > code_len {
                return Err(VmError::TruncatedInstruction { pc: self.pc });
            }
            let addr = self.module.bytecode()[self.pc] as usize + self.module.bytecode()[self.pc
                + 1] as usize * 256 + self.module.bytecode()[self.pc + 2] as usize * 65536;
            self.pc = addr;
            Ok(VmStep::Continue)
        } else if op == 16 {
            self.stack.push(Value::Nil);
            self.pc = self.pc + 6;
            Ok(VmStep::Continue)
        } else if op == 17 {
            if self.pc + 3 > code_len {
                return Err(VmError::TruncatedInstruction { pc: self.pc });
            }
            let imm = self.module.bytecode()[self.pc] as i32 + self.module.bytecode()[self.pc + 1]
                as i32 * 256 + self.module.bytecode()[self.pc + 2] as i32 * 65536;
            self.stack.push(Value::Int24(imm));
            self.pc = self.pc + 6;
            Ok(VmStep::Continue)
        } else if op == 32 {
            if self.stack.len() < 2 {
                return Err(VmError::StackUnderflow);
            }
            let b = self.stack[self.stack.len() - 1];
            let a = self.stack[self.stack.len() - 2];
            match (a, b) {
                (Value::Int24(ai), Value::Int24(bi)) => {
                    let sum = ai.wrapping_add(bi);
                    self.stack.pop();
                    self.stack.pop();
                    self.stack.push(Value::Int24(sum));
                    self.pc = self.pc + 3;
                    proof {
                        assert(self@.stack =~= old(self)@.stack.take(
                            old(self)@.stack.len() - 2,
                        ).push(Value::Int24(sum)));
                    }
                    Ok(VmStep::Continue)
                },
                _ => Err(VmError::TypeError),
            }
        } else {
            Err(VmError::UnknownOpcode { opcode: op, pc: self.pc })
        }
    }

    /// Run up to `max_steps` instructions, stopping at a halt.  The step
    /// bound keeps the interpreter loop total; the boolean reports
    /// whether a halt was reached within the bound.  On an error the
    /// state is the one the failing instruction saw.
    pub fn run(&mut self, max_steps: u64) -> (r: Result<bool, VmError>)
        requires
            old(self)@.pc <= old(self)@.module.code.len() + 5 || old(self)@.pc <= 0xFFFFFF,
            old(self)@.module.code.len() + 16 <= usize::MAX,
        ensures
            (final(self)@, r) == spec_vm_run(old(self)@, max_steps as nat),
    {
        let ghost m0 = self@.module;
        let mut steps: u64 = 0;
        while steps < max_steps
            invariant
                steps <= max_steps,
                self@.module == m0,
                m0.code.len() + 16 <= usize::MAX,
                self@.pc <= m0.code.len() + 5 || self@.pc <= 0xFFFFFF,
                spec_vm_run(old(self)@, max_steps as nat) == spec_vm_run(
                    self@,
                    (max_steps - steps) as nat,
                ),
            decreases max_steps - steps,
        {
            match self.step() {
                Ok(VmStep::Halted) => {
                    return Ok(true);
                },
                Ok(VmStep::Continue) => {},
                Err(e) => {
                    return Err(e);
                },
            }
            steps = steps + 1;
        }
        Ok(false)
    }
}

} // verus!
