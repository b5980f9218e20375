//! Fetching, decoding and carrying out one instruction.
use vstd::prelude::*;

use crate::nes::cpu::memory::MemoryView;
use crate::nes::cpu::opcode::{spec_opcode, Mnemonic, Opcode};
use crate::nes::cpu::state::{
    CpuState, CARRY_FLAG, DECIMAL_FLAG, INTERRUPT_DISABLE_FLAG, NEGATIVE_FLAG, OVERFLOW_FLAG,
    RESET_VECTOR_ADDRESS,
};
use crate::nes::cpu::CPU;

verus! {

impl CpuState {
    /// What the instruction `op` does, its opcode already fetched; `None`
    /// where the bus would refuse one of its accesses.
    #[verifier::opaque]
    pub open spec fn spec_execute(self, op: Opcode) -> Option<CpuState> {
        match op.mnemonic {
            Mnemonic::Adc => self.spec_adc(op),
            Mnemonic::And => self.spec_and(op),
            Mnemonic::Asl => if op.code == 0x0A {
                Some(self.spec_asl_0a())
            } else {
                self.spec_asl(op)
            },
            Mnemonic::Bcs => self.spec_branch_from(op, self.flag(CARRY_FLAG), true),
            Mnemonic::Bit => self.spec_bit(op),
            Mnemonic::Bmi => self.spec_branch_from(op, self.flag(NEGATIVE_FLAG), true),
            Mnemonic::Bpl => self.spec_branch(op, !self.flag(NEGATIVE_FLAG)),
            Mnemonic::Brk => self.spec_brk(),
            Mnemonic::Clc => Some(self.spec_clc()),
            Mnemonic::Cld => Some(self.spec_clear_flag(DECIMAL_FLAG)),
            Mnemonic::Cli => Some(self.spec_clear_flag(INTERRUPT_DISABLE_FLAG)),
            Mnemonic::Clv => Some(self.spec_clear_flag(OVERFLOW_FLAG)),
            Mnemonic::Cmp => self.spec_cmp(op),
            Mnemonic::Cpx => self.spec_cpx(op),
            Mnemonic::Cpy => self.spec_cpy(op),
            Mnemonic::Dcp => self.spec_dcp(op),
            Mnemonic::Dec => self.spec_dec(op),
            Mnemonic::Dex => Some(self.spec_dex()),
            Mnemonic::Dey => Some(self.spec_dey()),
            Mnemonic::Eor => self.spec_eor(op),
            Mnemonic::Inc => self.spec_inc(op),
            Mnemonic::Inx => Some(self.spec_inx()),
            Mnemonic::Iny => Some(self.spec_iny()),
            Mnemonic::Isb => self.spec_isb(op),
            Mnemonic::Jmp => self.spec_jmp(op),
            Mnemonic::Jsr => self.spec_jsr(op),
            Mnemonic::Lax => self.spec_lax(op),
            Mnemonic::Lda => self.spec_lda(op),
            Mnemonic::Ldx => self.spec_ldx(op),
            Mnemonic::Ldy => self.spec_ldy(op),
            Mnemonic::Nop => self.spec_nop(op),
            Mnemonic::Ora => self.spec_ora(op),
            Mnemonic::Php => self.spec_php(),
            Mnemonic::Plp => self.spec_plp(),
        }
    }

    /// One instruction: the opcode is fetched at the program counter (one
    /// cycle), looked up and carried out. `None` for an opcode that is not
    /// implemented or an access the bus would refuse.
    pub open spec fn spec_step(self) -> Option<(Opcode, CpuState)> {
        match self.next_u8() {
            Some((code, s)) => match spec_opcode(code) {
                Some(op) => match s.spec_execute(op) {
                    Some(t) => Some((op, t)),
                    None => None,
                },
                None => None,
            },
            None => None,
        }
    }

    /// Instructions carried out one after another until a BRK has been,
    /// within `fuel` instructions.
    pub open spec fn run_until_break(self, fuel: nat) -> Option<CpuState>
        decreases fuel,
    {
        if fuel == 0 {
            None
        } else {
            match self.spec_step() {
                Some((op, s)) => if op.mnemonic == Mnemonic::Brk {
                    Some(s)
                } else {
                    s.run_until_break((fuel - 1) as nat)
                },
                None => None,
            }
        }
    }

    /// The state after a reset: registers and flags clear, the stack pointer
    /// at $FF, the program counter from the reset vector.
    pub open spec fn spec_reset(self) -> Option<CpuState> {
        match self.unclocked_read_u16(RESET_VECTOR_ADDRESS) {
            Some((pc, s)) => Some(
                CpuState {
                    a: 0,
                    x: 0,
                    y: 0,
                    status: 0,
                    stack_pointer: 0xFF,
                    program_counter: pc,
                    ..s
                },
            ),
            None => None,
        }
    }
}

impl CPU {
    /// Carries out the instruction `opcode`, whose opcode has been fetched.
    pub fn execute(&mut self, opcode: &Opcode)
        requires
            old(self)@.wf(),
            old(self)@.spec_execute(*opcode) is Some,
        ensures
            final(self)@ == old(self)@.spec_execute(*opcode).unwrap(),
            final(self)@.wf(),
    {
        proof {
            reveal(CpuState::spec_execute);
        }
        match opcode.mnemonic {
            Mnemonic::Adc => self.instruction_adc(opcode),
            Mnemonic::And => self.instruction_and(opcode),
            Mnemonic::Asl => if opcode.code == 0x0A {
                self.instruction_asl_0a(opcode)
            } else {
                self.instruction_asl(opcode)
            },
            Mnemonic::Bcs => self.instruction_bcs(opcode),
            Mnemonic::Bit => self.instruction_bit(opcode),
            Mnemonic::Bmi => self.instruction_bmi(opcode),
            Mnemonic::Bpl => self.instruction_bpl(opcode),
            Mnemonic::Brk => self.instruction_brk(opcode),
            Mnemonic::Clc => {
                self.instruction_clc(opcode);
            },
            Mnemonic::Cld => self.instruction_cld(opcode),
            Mnemonic::Cli => self.instruction_cli(opcode),
            Mnemonic::Clv => self.instruction_clv(opcode),
            Mnemonic::Cmp => self.instruction_cmp(opcode),
            Mnemonic::Cpx => {
                self.instruction_cpx(opcode);
            },
            Mnemonic::Cpy => self.instruction_cpy(opcode),
            Mnemonic::Dcp => self.instruction_dcp(opcode),
            Mnemonic::Dec => self.instruction_dec(opcode),
            Mnemonic::Dex => {
                self.instruction_dex(opcode);
            },
            Mnemonic::Dey => self.instruction_dey(opcode),
            Mnemonic::Eor => {
                self.instruction_eor(opcode);
            },
            Mnemonic::Inc => self.instruction_inc(opcode),
            Mnemonic::Inx => self.instruction_inx(opcode),
            Mnemonic::Iny => self.instruction_iny(opcode),
            Mnemonic::Isb => self.instruction_isb(opcode),
            Mnemonic::Jmp => self.instruction_jmp(opcode),
            Mnemonic::Jsr => self.instruction_jsr(opcode),
            Mnemonic::Lax => self.instruction_lax(opcode),
            Mnemonic::Lda => self.instruction_lda(opcode),
            Mnemonic::Ldx => self.instruction_ldx(opcode),
            Mnemonic::Ldy => self.instruction_ldy(opcode),
            Mnemonic::Nop => self.instruction_nop(opcode),
            Mnemonic::Ora => self.instruction_ora(opcode),
            Mnemonic::Php => self.instruction_php(opcode),
            Mnemonic::Plp => self.instruction_plp(opcode),
        }
    }

    /// Fetches, decodes and carries out one instruction; gives its opcode.
    pub fn process_instruction(&mut self) -> (r: Opcode)
        requires
            old(self)@.wf(),
            old(self)@.spec_step() is Some,
        ensures
            (r, final(self)@) == old(self)@.spec_step().unwrap(),
            final(self)@.wf(),
    {
        let code = self.get_next_u8();
        let opcode = Opcode::lookup(code).unwrap();
        self.execute(&opcode);
        opcode
    }

    /// Loads `program` at $0000, resets, and runs it up to and including
    /// its first BRK.
    pub fn interpret(&mut self, program: Vec<u8>)
        requires
            old(self)@.wf(),
            old(self)@.bus.can_load(program@.len(), 0),
            (CpuState { bus: old(self)@.bus.after_load(program@, 0), ..old(self)@ }).spec_reset() is Some,
            (CpuState { bus: old(self)@.bus.after_load(program@, 0), ..old(self)@ }).spec_reset().unwrap().run_until_break(
                u64::MAX as nat,
            ) is Some,
        ensures
            final(self)@ == (CpuState { bus: old(self)@.bus.after_load(program@, 0), ..old(self)@ }).spec_reset().unwrap().run_until_break(
                u64::MAX as nat,
            ).unwrap(),
            final(self)@.wf(),
    {
        self.load(program);
        self.reset();
        let ghost target = self@.run_until_break(u64::MAX as nat);
        let mut fuel: u64 = u64::MAX;
        loop
            invariant_except_break
                self@.run_until_break(fuel as nat) == target,
            invariant
                self@.wf(),
                target is Some,
            ensures
                Some(self@) == target,
            decreases fuel,
        {
            proof {
                lemma_run_until_break_unfold(self@, fuel as nat);
            }
            let opcode = self.process_instruction();
            if opcode.mnemonic == Mnemonic::Brk {
                break;
            }
            fuel = fuel - 1;
        }
    }
}

/// A run that ends in a BRK within `fuel` instructions takes its first step,
/// and either that step was the BRK or the rest of the run ends in one within
/// one instruction less.
proof fn lemma_run_until_break_unfold(s: CpuState, fuel: nat)
    requires
        s.run_until_break(fuel) is Some,
    ensures
        fuel > 0,
        s.spec_step() is Some,
        s.spec_step().unwrap().0.mnemonic == Mnemonic::Brk ==> s.run_until_break(fuel) == Some(
            s.spec_step().unwrap().1,
        ),
        s.spec_step().unwrap().0.mnemonic != Mnemonic::Brk ==> s.run_until_break(fuel)
            == s.spec_step().unwrap().1.run_until_break((fuel - 1) as nat),
{
}

/// The flag instructions and the branches, as carried out by `execute`:
/// CLC clears the carry (bit 0) and spends no cycle; CLD, CLI and CLV
/// clear the decimal (bit 3), interrupt-disable (bit 2) and overflow
/// (bit 6) flags in one cycle; nothing else changes. BCS branches on the
/// carry and BMI on the negative flag (bit 7), counting from the offset
/// byte; BPL branches when the negative flag is clear.
pub proof fn lemma_flag_and_branch_dispatch(s: CpuState, op: Opcode)
    ensures
        op.mnemonic == Mnemonic::Clc ==> s.spec_execute(op) == Some(s.with_status(s.status & 0xFE)),
        op.mnemonic == Mnemonic::Cld ==> s.spec_execute(op) == Some(
            s.with_status(s.status & 0xF7).ticked(),
        ),
        op.mnemonic == Mnemonic::Cli ==> s.spec_execute(op) == Some(
            s.with_status(s.status & 0xFB).ticked(),
        ),
        op.mnemonic == Mnemonic::Clv ==> s.spec_execute(op) == Some(
            s.with_status(s.status & 0xBF).ticked(),
        ),
        op.mnemonic == Mnemonic::Bcs ==> s.spec_execute(op) == s.spec_branch_from(
            op,
            s.status & 0x01 != 0,
            true,
        ),
        op.mnemonic == Mnemonic::Bmi ==> s.spec_execute(op) == s.spec_branch_from(
            op,
            s.status & 0x80 != 0,
            true,
        ),
        op.mnemonic == Mnemonic::Bpl ==> s.spec_execute(op) == s.spec_branch(op, s.status & 0x80 == 0),
{
    reveal(CpuState::spec_execute);
    let st = s.status;
    assert(st & !CARRY_FLAG == st & 0xFE && st & !DECIMAL_FLAG == st & 0xF7 && st
        & !INTERRUPT_DISABLE_FLAG == st & 0xFB && st & !OVERFLOW_FLAG == st & 0xBF)
        by (bit_vector);
}

} // verus!
