use vstd::prelude::*;
use crate::cpu::lemma_opcode_cycles;
use crate::cpu::Cpu;
use crate::cpu::MODE_RELATIVE;
use crate::cpu::STEP_MAX_CYCLES;
use crate::opcodes::OPCODE_MODE;
use crate::opcodes::OPCODE_OP;

verus! {

impl Cpu {
    /// Whether `after` counts at least the cycles of `self` for the step in
    /// progress, and at most `most` more.
    pub open spec fn paces(&self, after: &Cpu, most: int) -> bool {
        self.elapsed <= after.elapsed <= self.elapsed + most
    }

    /// Resolving an address costs no cycles beyond the opcode's.
    pub proof fn lemma_target_pace(self, mode: u8)
        ensures
            self.after_target(mode).elapsed == self.elapsed,
    {
        reveal(Cpu::after_target);
    }

    /// Loading an operand costs at most the cycle for a crossed page.
    pub proof fn lemma_operand_pace(self, mode: u8, address: u16)
        requires
            self.has_room(1),
        ensures
            self.paces(&self.after_operand(mode, address), 1),
    {
    }

    /// A store costs nothing unless it starts a sprite transfer, which costs
    /// 513 or 514 cycles.
    pub proof fn lemma_store_pace(self, mode: u8, address: u16, value: u8)
        requires
            self.has_room(514),
        ensures
            self.paces(&self.after_store(address, value), 514),
            self.paces(&self.after_store_operand(mode, address, value), 514),
    {
        reveal(Cpu::after_store);
    }

    /// Working an operand into the registers costs no cycles beyond the opcode's.
    pub proof fn lemma_alu_pace(self, op: u8, m: u8)
        ensures
            self.after_alu(op, m).elapsed == self.elapsed,
            self.after_follow_up(op, m).elapsed == self.elapsed,
            self.after_modify(op, m).elapsed == self.elapsed,
    {
        reveal(Cpu::after_alu);
        reveal(Cpu::after_follow_up);
        reveal(Cpu::after_modify);
    }

    /// An operation that reads its operand costs at most the cycle for a
    /// crossed page beyond the opcode's.
    pub proof fn lemma_read_op_pace(self, op: u8, mode: u8)
        requires
            self.has_room(1),
        ensures
            self.paces(&self.after_read_op(op, mode), 1),
    {
        reveal(Cpu::after_read_op);
        let resolved = self.after_target(mode);
        let address = self.target_of(mode);
        self.lemma_target_pace(mode);
        resolved.lemma_operand_pace(mode, address);
        resolved.after_operand(mode, address).lemma_alu_pace(op, resolved.operand(mode, address));
    }

    /// A store of a register costs at most a sprite transfer beyond the opcode's cycles.
    pub proof fn lemma_store_op_pace(self, op: u8, mode: u8)
        requires
            self.has_room(514),
        ensures
            self.paces(&self.after_store_op(op, mode), 514),
            self.paces(&self.after_high_store_op(op, mode), 514),
    {
        reveal(Cpu::after_store_op);
        reveal(Cpu::after_high_store_op);
        self.lemma_target_pace(mode);
        let resolved = self.after_target(mode);
        resolved.lemma_store_pace(mode, self.target_of(mode), self.store_value(op));
        let latched = Cpu { s: self.a & self.x, ..resolved };
        latched.lemma_store_pace(
            mode,
            self.target_of(mode),
            self.high_store_source(op) & self.high_store_mask(mode),
        );
        resolved.lemma_store_pace(
            mode,
            self.target_of(mode),
            self.high_store_source(op) & self.high_store_mask(mode),
        );
    }

    /// A read-modify-write operation costs at most the cycle for a crossed
    /// page and a sprite transfer beyond the opcode's cycles.
    pub proof fn lemma_modify_op_pace(self, op: u8, mode: u8)
        requires
            self.has_room(515),
        ensures
            self.paces(&self.after_modify_op(op, mode), 515),
    {
        reveal(Cpu::after_modify_op);
        reveal(Cpu::after_modify_at);
        reveal(Cpu::modified_at);
        let resolved = self.after_target(mode);
        let address = self.target_of(mode);
        let kind = Cpu::modify_kind(op);
        self.lemma_target_pace(mode);
        resolved.lemma_operand_pace(mode, address);
        let loaded = resolved.after_operand(mode, address);
        let m = resolved.operand(mode, address);
        loaded.lemma_alu_pace(kind, m);
        let r = resolved.modified_at(kind, mode, address);
        loaded.after_modify(kind, m).lemma_store_pace(mode, address, r);
        loaded.after_modify(kind, m).after_store_operand(mode, address, r).lemma_alu_pace(op, r);
    }

    /// A branch costs at most two cycles beyond the opcode's.
    pub proof fn lemma_branch_pace(self, condition: bool)
        requires
            self.has_room(2),
        ensures
            self.paces(&self.after_bxx(condition), 2),
    {
        reveal(Cpu::after_bxx);
        self.lemma_target_pace(MODE_RELATIVE);
        self.after_target(MODE_RELATIVE).lemma_operand_pace(MODE_RELATIVE, self.target_of(MODE_RELATIVE));
    }

    /// The operations that take no operand from memory, and the jumps, cost
    /// no cycles beyond the opcode's.
    pub proof fn lemma_other_op_pace(self, op: u8, mode: u8)
        ensures
            self.after_other_op(op, mode).elapsed == self.elapsed,
    {
        reveal(Cpu::after_other_op);
        reveal(Cpu::after_brk);
        reveal(Cpu::after_jsr);
        reveal(Cpu::after_pla);
        reveal(Cpu::after_plp);
        reveal(Cpu::after_rti);
        reveal(Cpu::after_rts);
        self.lemma_target_pace(mode);
    }

    /// An instruction costs at most 515 cycles beyond its opcode's.
    pub proof fn lemma_execute_pace(self, opcode: u8)
        requires
            self.has_room(515),
        ensures
            self.paces(&self.after_execute(opcode), 515),
    {
        reveal(Cpu::after_execute);
        let op = OPCODE_OP[opcode as int];
        let mode = OPCODE_MODE[opcode as int];
        self.lemma_read_op_pace(op, mode);
        self.lemma_store_op_pace(op, mode);
        self.lemma_modify_op_pace(op, mode);
        self.lemma_branch_pace(Cpu::branch_taken(op, self.p));
        self.lemma_other_op_pace(op, mode);
    }

    /// Sampling the interrupt lines costs nothing, or the seven cycles of an
    /// interrupt entry.
    pub proof fn lemma_begun_pace(self)
        ensures
            self.begun().elapsed == 0 || self.begun().elapsed == 7,
    {
        reveal(Cpu::begun);
        reveal(Cpu::after_handle_nmi);
        reveal(Cpu::after_handle_irq);
    }

    /// A step consumes at most 531 cycles; one that completes returns the
    /// cycles it consumed, which are at least two.
    pub proof fn lemma_step_cost(self)
        ensures
            self.after_step().elapsed <= STEP_MAX_CYCLES,
            self.step_outcome() matches Ok(cycles) ==> cycles == self.after_step().elapsed && 2
                <= cycles,
    {
        reveal(Cpu::after_step);
        reveal(Cpu::step_outcome);
        self.lemma_begun_pace();
        let opcode = self.next_opcode();
        let fetched = Cpu { page_cross: false, ..self.begun().after_fetch_u8() };
        fetched.lemma_execute_pace(opcode);
        lemma_opcode_cycles(opcode);
    }

    /// A run consumes at least its budget unless an error ends it, and
    /// exceeds the budget by less than the cycles of its last step, which
    /// are at most 531. So where the last step took at most eight cycles,
    /// the run exceeds its budget by at most seven.
    pub proof fn lemma_run_bounds(self, budget: int)
        ensures
            self.run_from(budget).total >= 0,
            0 <= self.run_from(budget).last <= STEP_MAX_CYCLES,
            self.run_from(budget).total == 0 ==> self.run_from(budget).last == 0,
            self.run_from(budget).error is None ==> self.run_from(budget).total >= budget,
            self.run_from(budget).total > 0 ==> self.run_from(budget).total < budget + self.run_from(
                budget,
            ).last,
            budget >= 0 && self.run_from(budget).last <= 8 ==> self.run_from(budget).total <= budget + 7,
        decreases
                if budget > 0 {
                    budget
                } else {
                    0
                },
    {
        if budget > 0 {
            self.lemma_step_cost();
            let cost = self.after_step().elapsed;
            match self.step_outcome() {
                Err(e) => {},
                Ok(cycles) => {
                    self.after_step().caught_up(cost).lemma_run_bounds(budget - cost);
                },
            }
        }
    }
}

} // verus!
